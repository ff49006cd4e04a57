use vstd::prelude::*;

use crate::numbers::{decimal, push_decimal};

verus! {

/// Declares `std::io::Error`, which a transport failure carries; it is only
/// passed along, never looked into.
#[verifier::external_type_specification]
#[verifier::external_body]
pub struct ExIoError(std::io::Error);

/// Declares `std::string::FromUtf8Error`, which an undecodable listing
/// carries; it is only passed along, never looked into.
#[verifier::external_type_specification]
#[verifier::external_body]
pub struct ExFromUtf8Error(std::string::FromUtf8Error);

/// What can go wrong in a session.
#[derive(Debug)]
pub enum FtpError {
    /// A status line without a space, or whose code is not a number.
    InvalidResponse(String),
    /// A well-formed reply whose code the operation does not accept.
    UnexpectedReturnCode(i32, String),
    /// A failure of the transport.
    IoError(std::io::Error),
    /// A listing whose bytes are not UTF-8.
    EncodingError(std::string::FromUtf8Error),
    /// The server's "requested action not taken" reply, with its text.
    OperationFailed(String),
}

/// Reply code: requested action not taken.
pub const OPERATION_FAILED: i32 = 550;

/// The error for a reply that the operation did not accept, or the error
/// that reading the reply gave.
pub open spec fn reply_error(result: Result<(i32, String), FtpError>) -> FtpError {
    match result {
        Ok((code, text)) => if code == OPERATION_FAILED {
            FtpError::OperationFailed(text)
        } else {
            FtpError::UnexpectedReturnCode(code, text)
        },
        Err(e) => e,
    }
}

/// Turns a reply that the operation did not accept into an error: the
/// "action not taken" code into `OperationFailed`, any other code into
/// `UnexpectedReturnCode`; an error stays as it is.
pub fn to_error(result: Result<(i32, String), FtpError>) -> (r: FtpError)
    ensures
        r == reply_error(result),
{
    match result {
        Ok((code, text)) => {
            if code == OPERATION_FAILED {
                FtpError::OperationFailed(text)
            } else {
                FtpError::UnexpectedReturnCode(code, text)
            }
        },
        Err(err) => err,
    }
}

pub open spec fn description_of(e: &FtpError) -> Seq<char> {
    match e {
        FtpError::InvalidResponse(_) => "Server response is in invalid format"@,
        FtpError::UnexpectedReturnCode(_, _) => "Received unexpected return code."@,
        FtpError::IoError(_) => "Comunication IO error"@,
        FtpError::EncodingError(_) => "Received text has invalid encoding."@,
        FtpError::OperationFailed(_) => "Operation failed."@,
    }
}

/// Decimal text of a signed number.
pub open spec fn signed_decimal(v: int) -> Seq<char> {
    if v < 0 {
        "-"@ + decimal((-v) as nat)
    } else {
        decimal(v as nat)
    }
}

/// The message of an error, for the variants whose message is fixed by
/// what they hold.
pub open spec fn message_of(e: &FtpError) -> Seq<char> {
    match e {
        FtpError::InvalidResponse(line) =>
            "Server response is in invalid format. Received line: \""@ + line@ + "\"."@,
        FtpError::UnexpectedReturnCode(code, text) =>
            "Received unexpected return code "@ + signed_decimal(*code as int) + ". Description \""@
                + text@ + "\"."@,
        FtpError::IoError(_) => "Comunication error: "@,
        FtpError::EncodingError(_) => "Received text has invalid encoding. Error: \""@,
        FtpError::OperationFailed(text) => text@,
    }
}

/// Relies on `<std::io::Error as Display>::fmt`; its text comes from the
/// operating system, so nothing is stated of it.
#[verifier::external_body]
fn io_error_text(e: &std::io::Error) -> String {
    e.to_string()
}

/// Relies on `<std::string::FromUtf8Error as Display>::fmt`, which describes
/// where the bytes stop being UTF-8.
#[verifier::external_body]
fn utf8_error_text(e: &std::string::FromUtf8Error) -> String {
    e.to_string()
}

/// Appends the decimal text of a signed number.
fn push_signed(s: &mut String, v: i32)
    ensures
        final(s)@ == old(s)@ + signed_decimal(v as int),
{
    if v < 0 {
        s.append("-");
        let m: u32 = if v == i32::MIN { 2147483648 } else { (0 - v) as u32 };
        push_decimal(s, m);
        assert(old(s)@ + signed_decimal(v as int) =~= final(s)@);
    } else {
        push_decimal(s, v as u32);
    }
}

impl FtpError {
    /// A short description of the kind of error.
    pub fn description(&self) -> (r: &'static str)
        ensures
            r@ == description_of(self),
    {
        match self {
            FtpError::InvalidResponse(_) => "Server response is in invalid format",
            FtpError::UnexpectedReturnCode(_, _) => "Received unexpected return code.",
            FtpError::IoError(_) => "Comunication IO error",
            FtpError::EncodingError(_) => "Received text has invalid encoding.",
            FtpError::OperationFailed(_) => "Operation failed.",
        }
    }

    /// The error as a line for a person to read. For a transport or encoding
    /// error the text of the underlying error stands in it.
    pub fn message(&self) -> (r: String)
        ensures
            match self {
                FtpError::IoError(_) => exists|t: Seq<char>| r@ == message_of(self) + t + "."@,
                FtpError::EncodingError(_) => exists|t: Seq<char>| r@ == message_of(self) + t
                    + "\"."@,
                _ => r@ == message_of(self),
            },
    {
        let mut s = String::new();
        match self {
            FtpError::InvalidResponse(line) => {
                s.append("Server response is in invalid format. Received line: \"");
                s.append(line.as_str());
                s.append("\".");
            },
            FtpError::UnexpectedReturnCode(code, text) => {
                s.append("Received unexpected return code ");
                push_signed(&mut s, *code);
                s.append(". Description \"");
                s.append(text.as_str());
                s.append("\".");
            },
            FtpError::IoError(err) => {
                s.append("Comunication error: ");
                let t = io_error_text(err);
                s.append(t.as_str());
                s.append(".");
                assert(s@ =~= message_of(self) + t@ + "."@);
            },
            FtpError::EncodingError(err) => {
                s.append("Received text has invalid encoding. Error: \"");
                let t = utf8_error_text(err);
                s.append(t.as_str());
                s.append("\".");
                assert(s@ =~= message_of(self) + t@ + "\"."@);
            },
            FtpError::OperationFailed(text) => {
                s.append(text.as_str());
            },
        }
        s
    }
}

} // verus!
