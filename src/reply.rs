use vstd::prelude::*;

use crate::error::FtpError;
use crate::numbers::{i32_of_text, parse_i32};
use crate::text::{find_char, find_from, lemma_find_from, trim_text, trimmed};

verus! {

/// A status line read as a code and a text: the code is what stands before
/// the first space, the text what follows it without white space at its ends.
/// `None` where there is no space or the code is not a number.
pub open spec fn reply_of(line: Seq<char>) -> Option<(i32, Seq<char>)> {
    match find_from(line, ' ', 0) {
        Some(p) => match i32_of_text(line.subrange(0, p)) {
            Some(code) => Some((code, trimmed(line.subrange(p + 1, line.len() as int)))),
            None => None,
        },
        None => None,
    }
}

/// Reads one status line into its code and its text.
pub fn parse_response(line: &str) -> (r: Result<(i32, String), FtpError>)
    ensures
        match r {
            Ok((code, text)) => reply_of(line@) == Some((code, text@)),
            Err(e) => reply_of(line@) is None && e is InvalidResponse
                && e->InvalidResponse_0@ == line@,
        },
{
    proof {
        lemma_find_from(line@, ' ', 0);
    }
    let pos = match find_char(line, ' ', 0) {
        Some(pos) => pos,
        None => return Err(FtpError::InvalidResponse(String::from_str(line))),
    };
    let n = line.unicode_len();
    let code = match parse_i32(line.substring_char(0, pos)) {
        Some(code) => code,
        None => return Err(FtpError::InvalidResponse(String::from_str(line))),
    };
    let text = trim_text(line.substring_char(pos + 1, n));
    Ok((code, text))
}

/// The text between the first double quote and the next one.
pub open spec fn quoted_path(text: Seq<char>) -> Option<Seq<char>> {
    match find_from(text, '"', 0) {
        Some(a) => match find_from(text, '"', a + 1) {
            Some(b) => Some(text.subrange(a + 1, b)),
            None => None,
        },
        None => None,
    }
}

/// The path that a "pathname" reply quotes in its text.
pub fn pwd_path(text: &str) -> (r: Result<String, FtpError>)
    ensures
        match r {
            Ok(path) => quoted_path(text@) == Some(path@),
            Err(e) => quoted_path(text@) is None && e is InvalidResponse
                && e->InvalidResponse_0@ == text@,
        },
{
    proof {
        lemma_find_from(text@, '"', 0);
    }
    match find_char(text, '"', 0) {
        Some(a) => {
            proof {
                lemma_find_from(text@, '"', a + 1);
            }
            match find_char(text, '"', a + 1) {
                Some(b) => Ok(String::from_str(text.substring_char(a + 1, b))),
                None => Err(FtpError::InvalidResponse(String::from_str(text))),
            }
        },
        None => Err(FtpError::InvalidResponse(String::from_str(text))),
    }
}

} // verus!
