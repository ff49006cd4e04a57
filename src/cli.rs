use vstd::prelude::*;

use crate::text::{find_char, find_from, lemma_find_from, trim_text, trimmed};

verus! {

/// The commands that a user types at the prompt.
#[derive(Debug, Clone, Copy, PartialEq, Eq, Structural)]
pub enum UserCommand {
    Cd,
    Get,
    Mkdir,
    Ls,
    Put,
    Pwd,
    Rm,
    Rmdir,
    Quit,
    Empty,
    Unknown,
}

/// The command that a word names.
pub open spec fn command_named(w: Seq<char>) -> UserCommand {
    if w == "cd"@ {
        UserCommand::Cd
    } else if w == "get"@ {
        UserCommand::Get
    } else if w == "mkdir"@ {
        UserCommand::Mkdir
    } else if w == "ls"@ {
        UserCommand::Ls
    } else if w == "put"@ {
        UserCommand::Put
    } else if w == "pwd"@ {
        UserCommand::Pwd
    } else if w == "rm"@ {
        UserCommand::Rm
    } else if w == "rmdir"@ {
        UserCommand::Rmdir
    } else if w == "q"@ {
        UserCommand::Quit
    } else if w == ""@ {
        UserCommand::Empty
    } else {
        UserCommand::Unknown
    }
}

/// A typed line without white space at its ends, split at its first space
/// into the command word and its argument (empty where there is no space).
pub open spec fn user_line(line: Seq<char>) -> (UserCommand, Seq<char>) {
    let t = trimmed(line);
    match find_from(t, ' ', 0) {
        Some(p) => (command_named(t.subrange(0, p)), t.subrange(p + 1, t.len() as int)),
        None => (command_named(t), Seq::empty()),
    }
}

/// Whether two texts are the same.
fn same_text(a: &str, b: &str) -> (r: bool)
    ensures
        r == (a@ == b@),
{
    let n = a.unicode_len();
    if n != b.unicode_len() {
        return false;
    }
    let mut i: usize = 0;
    while i < n
        invariant
            n == a@.len(),
            n == b@.len(),
            i <= n,
            a@.subrange(0, i as int) == b@.subrange(0, i as int),
        decreases n - i,
    {
        if a.get_char(i) != b.get_char(i) {
            return false;
        }
        assert(a@.subrange(0, i + 1) =~= a@.subrange(0, i as int).push(a@[i as int]));
        assert(b@.subrange(0, i + 1) =~= b@.subrange(0, i as int).push(b@[i as int]));
        i = i + 1;
    }
    assert(a@ =~= a@.subrange(0, n as int));
    assert(b@ =~= b@.subrange(0, n as int));
    true
}

fn command_of_word(w: &str) -> (r: UserCommand)
    ensures
        r == command_named(w@),
{
    if same_text(w, "cd") {
        UserCommand::Cd
    } else if same_text(w, "get") {
        UserCommand::Get
    } else if same_text(w, "mkdir") {
        UserCommand::Mkdir
    } else if same_text(w, "ls") {
        UserCommand::Ls
    } else if same_text(w, "put") {
        UserCommand::Put
    } else if same_text(w, "pwd") {
        UserCommand::Pwd
    } else if same_text(w, "rm") {
        UserCommand::Rm
    } else if same_text(w, "rmdir") {
        UserCommand::Rmdir
    } else if same_text(w, "q") {
        UserCommand::Quit
    } else if same_text(w, "") {
        UserCommand::Empty
    } else {
        UserCommand::Unknown
    }
}

/// Reads a line typed at the prompt as a command and its argument.
pub fn parse_user_line(line: &str) -> (r: (UserCommand, String))
    ensures
        (r.0, r.1@) == user_line(line@),
{
    let t = trim_text(line);
    let ts = t.as_str();
    proof {
        lemma_find_from(ts@, ' ', 0);
    }
    match find_char(ts, ' ', 0) {
        Some(p) => {
            let n = ts.unicode_len();
            let word = command_of_word(ts.substring_char(0, p));
            (word, String::from_str(ts.substring_char(p + 1, n)))
        },
        None => (command_of_word(ts), String::new()),
    }
}

/// The user name typed at the prompt, or `default` where nothing but white
/// space was typed.
pub fn entered_or_default(line: &str, default: &str) -> (r: String)
    ensures
        trimmed(line@).len() == 0 ==> r@ == default@,
        trimmed(line@).len() > 0 ==> r@ == trimmed(line@),
{
    let t = trim_text(line);
    if t.as_str().unicode_len() == 0 {
        String::from_str(default)
    } else {
        t
    }
}

} // verus!
