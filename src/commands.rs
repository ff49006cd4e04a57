use vstd::prelude::*;

use crate::address::{address_text, push_address, DataAddress};
use crate::numbers::{decimal, is_digit, lemma_decimal_value};

verus! {

/// How the bytes of a transfer are framed.
#[derive(Debug, Clone, Copy, PartialEq, Eq, Structural)]
pub enum FtpTransferType {
    Binary,
    Text,
}

/// One command of the control channel, with what its line needs.
pub enum FtpCommand<'a> {
    CWD(&'a str),
    DELE(&'a str),
    LIST(&'a str),
    MKD(&'a str),
    PASS(&'a str),
    PASV,
    PORT(DataAddress),
    PWD,
    QUIT,
    RETR(&'a str),
    RMD(&'a str),
    STOR(&'a str),
    TYPE(FtpTransferType),
    USER(&'a str),
}

pub open spec fn type_code(t: FtpTransferType) -> Seq<char> {
    match t {
        FtpTransferType::Binary => "I"@,
        FtpTransferType::Text => "A"@,
    }
}

/// The line of a command without its newline: the verb, then a space and
/// the argument as it is, where there is one.
pub open spec fn command_body(c: FtpCommand) -> Seq<char> {
    match c {
        FtpCommand::CWD(p) => "CWD "@ + p@,
        FtpCommand::DELE(p) => "DELE "@ + p@,
        FtpCommand::LIST(p) => "LIST "@ + p@,
        FtpCommand::MKD(p) => "MKD "@ + p@,
        FtpCommand::PASS(p) => "PASS "@ + p@,
        FtpCommand::PASV => "PASV"@,
        FtpCommand::PORT(a) => "PORT "@ + address_text(a),
        FtpCommand::PWD => "PWD"@,
        FtpCommand::QUIT => "QUIT"@,
        FtpCommand::RETR(p) => "RETR "@ + p@,
        FtpCommand::RMD(p) => "RMD "@ + p@,
        FtpCommand::STOR(p) => "STOR "@ + p@,
        FtpCommand::TYPE(t) => "TYPE "@ + type_code(t),
        FtpCommand::USER(p) => "USER "@ + p@,
    }
}

/// The line that goes on the wire for a command.
pub open spec fn command_line(c: FtpCommand) -> Seq<char> {
    command_body(c) + "\n"@
}

/// The text argument of a command, where it has one.
pub open spec fn command_argument(c: FtpCommand) -> Seq<char> {
    match c {
        FtpCommand::CWD(p) => p@,
        FtpCommand::DELE(p) => p@,
        FtpCommand::LIST(p) => p@,
        FtpCommand::MKD(p) => p@,
        FtpCommand::PASS(p) => p@,
        FtpCommand::RETR(p) => p@,
        FtpCommand::RMD(p) => p@,
        FtpCommand::STOR(p) => p@,
        FtpCommand::USER(p) => p@,
        _ => Seq::empty(),
    }
}

pub open spec fn has_no_newline(s: Seq<char>) -> bool {
    forall|i: int| 0 <= i < s.len() ==> s[i] != '\n'
}

impl<'a> FtpCommand<'a> {
    /// The line that goes on the wire for this command, newline included.
    /// The argument is not checked: one with a newline in it breaks the line.
    pub fn to_string(&self) -> (r: String)
        ensures
            r@ == command_line(*self),
    {
        let mut s = String::new();
        match self {
            FtpCommand::CWD(p) => {
                s.append("CWD ");
                s.append(p);
            },
            FtpCommand::DELE(p) => {
                s.append("DELE ");
                s.append(p);
            },
            FtpCommand::LIST(p) => {
                s.append("LIST ");
                s.append(p);
            },
            FtpCommand::MKD(p) => {
                s.append("MKD ");
                s.append(p);
            },
            FtpCommand::PASS(p) => {
                s.append("PASS ");
                s.append(p);
            },
            FtpCommand::PASV => {
                s.append("PASV");
            },
            FtpCommand::PORT(a) => {
                s.append("PORT ");
                push_address(&mut s, a);
            },
            FtpCommand::PWD => {
                s.append("PWD");
            },
            FtpCommand::QUIT => {
                s.append("QUIT");
            },
            FtpCommand::RETR(p) => {
                s.append("RETR ");
                s.append(p);
            },
            FtpCommand::RMD(p) => {
                s.append("RMD ");
                s.append(p);
            },
            FtpCommand::STOR(p) => {
                s.append("STOR ");
                s.append(p);
            },
            FtpCommand::TYPE(t) => {
                s.append("TYPE ");
                match t {
                    FtpTransferType::Binary => s.append("I"),
                    FtpTransferType::Text => s.append("A"),
                }
            },
            FtpCommand::USER(p) => {
                s.append("USER ");
                s.append(p);
            },
        }
        s.append("\n");
        assert(s@ =~= command_line(*self));
        s
    }
}

proof fn lemma_concat_no_newline(x: Seq<char>, y: Seq<char>)
    requires
        has_no_newline(x),
        has_no_newline(y),
    ensures
        has_no_newline(x + y),
{
    assert forall|i: int| 0 <= i < (x + y).len() implies (x + y)[i] != '\n' by {
        if i >= x.len() {
            assert((x + y)[i] == y[i - x.len()]);
        }
    }
}

proof fn lemma_decimal_no_newline(v: nat)
    ensures
        has_no_newline(decimal(v)),
{
    lemma_decimal_value(v);
    assert forall|i: int| 0 <= i < decimal(v).len() implies decimal(v)[i] != '\n' by {
        assert(is_digit(decimal(v)[i]));
    }
}

proof fn lemma_address_no_newline(a: DataAddress)
    ensures
        has_no_newline(address_text(a)),
{
    let c = seq![','];
    let d0 = decimal(a.ip.0 as nat);
    let d1 = decimal(a.ip.1 as nat);
    let d2 = decimal(a.ip.2 as nat);
    let d3 = decimal(a.ip.3 as nat);
    let d4 = decimal((a.port / 256) as nat);
    let d5 = decimal((a.port % 256) as nat);
    lemma_decimal_no_newline(a.ip.0 as nat);
    lemma_decimal_no_newline(a.ip.1 as nat);
    lemma_decimal_no_newline(a.ip.2 as nat);
    lemma_decimal_no_newline(a.ip.3 as nat);
    lemma_decimal_no_newline((a.port / 256) as nat);
    lemma_decimal_no_newline((a.port % 256) as nat);
    assert(has_no_newline(c));
    lemma_concat_no_newline(d0, c);
    lemma_concat_no_newline(d0 + c, d1);
    lemma_concat_no_newline(d0 + c + d1, c);
    lemma_concat_no_newline(d0 + c + d1 + c, d2);
    lemma_concat_no_newline(d0 + c + d1 + c + d2, c);
    lemma_concat_no_newline(d0 + c + d1 + c + d2 + c, d3);
    lemma_concat_no_newline(d0 + c + d1 + c + d2 + c + d3, c);
    lemma_concat_no_newline(d0 + c + d1 + c + d2 + c + d3 + c, d4);
    lemma_concat_no_newline(d0 + c + d1 + c + d2 + c + d3 + c + d4, c);
    lemma_concat_no_newline(d0 + c + d1 + c + d2 + c + d3 + c + d4 + c, d5);
}

/// Every command line ends in one newline and holds no other, provided the
/// argument holds none.
pub proof fn lemma_one_newline(c: FtpCommand)
    requires
        has_no_newline(command_argument(c)),
    ensures
        command_line(c).len() > 0,
        command_line(c).last() == '\n',
        has_no_newline(command_line(c).drop_last()),
{
    reveal_strlit("CWD ");
    reveal_strlit("DELE ");
    reveal_strlit("LIST ");
    reveal_strlit("MKD ");
    reveal_strlit("PASS ");
    reveal_strlit("PASV");
    reveal_strlit("PORT ");
    reveal_strlit("PWD");
    reveal_strlit("QUIT");
    reveal_strlit("RETR ");
    reveal_strlit("RMD ");
    reveal_strlit("STOR ");
    reveal_strlit("TYPE ");
    reveal_strlit("USER ");
    reveal_strlit("I");
    reveal_strlit("A");
    reveal_strlit("\n");
    let body = command_body(c);
    match c {
        FtpCommand::PASV => {},
        FtpCommand::PWD => {},
        FtpCommand::QUIT => {},
        FtpCommand::PORT(a) => {
            lemma_address_no_newline(a);
            lemma_concat_no_newline("PORT "@, address_text(a));
        },
        FtpCommand::TYPE(t) => {
            lemma_concat_no_newline("TYPE "@, type_code(t));
        },
        FtpCommand::CWD(p) => lemma_concat_no_newline("CWD "@, p@),
        FtpCommand::DELE(p) => lemma_concat_no_newline("DELE "@, p@),
        FtpCommand::LIST(p) => lemma_concat_no_newline("LIST "@, p@),
        FtpCommand::MKD(p) => lemma_concat_no_newline("MKD "@, p@),
        FtpCommand::PASS(p) => lemma_concat_no_newline("PASS "@, p@),
        FtpCommand::RETR(p) => lemma_concat_no_newline("RETR "@, p@),
        FtpCommand::RMD(p) => lemma_concat_no_newline("RMD "@, p@),
        FtpCommand::STOR(p) => lemma_concat_no_newline("STOR "@, p@),
        FtpCommand::USER(p) => lemma_concat_no_newline("USER "@, p@),
    }
    assert(has_no_newline(body));
    assert(command_line(c).drop_last() =~= body);
}

} // verus!
