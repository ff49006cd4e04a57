use vstd::prelude::*;

use crate::address::DataAddress;
use crate::error::{reply_error, to_error, FtpError};
use crate::reply::{pwd_path, quoted_path};

verus! {

/// Reply code: about to open the data connection.
pub const OPEN_DATA_CONNECTION: i32 = 150;
/// Reply code: command accepted.
pub const SUCCESS: i32 = 200;
/// Reply code: service ready for a new user.
pub const READY_FOR_NEW_USER: i32 = 220;
/// Reply code: closing the data connection, the transfer is complete.
pub const CLOSING_DATA_CONNECTION: i32 = 226;
/// Reply code: entering passive mode, with the address in the text.
pub const ENTERING_PASSIVE_MODE: i32 = 227;
/// Reply code: logged in.
pub const LOGIN_SUCCESSFUL: i32 = 230;
/// Reply code: the file action is done.
pub const FILE_ACTION_OK: i32 = 250;
/// Reply code: a path name, quoted in the text.
pub const PATHNAME_CREATED: i32 = 257;
/// Reply code: user name accepted, the password is needed.
pub const USERNAME_OK_NEED_PASSWORD: i32 = 331;
/// Reply code: the user name or the password is wrong.
pub const INVALID_USERNAME_OR_PASSWORD: i32 = 430;
/// Reply code: not logged in.
pub const NOT_LOGGED_IN: i32 = 530;

/// How data channels are made: the client listens on the address, or
/// connects to the address that the server announces.
#[derive(Debug, Clone, Copy)]
pub enum FtpMode {
    Active(DataAddress),
    Passive,
}

/// Whether a reply was read and carries `code`.
pub open spec fn has_code(reply: Result<(i32, String), FtpError>, code: i32) -> bool {
    reply is Ok && reply->Ok_0.0 == code
}

/// The text of a reply that carries `code`; else the error for it.
pub open spec fn expected(reply: Result<(i32, String), FtpError>, code: i32) -> Result<
    String,
    FtpError,
> {
    if has_code(reply, code) {
        Ok(reply->Ok_0.1)
    } else {
        Err(reply_error(reply))
    }
}

/// Accepts a reply with exactly `code` and gives its text; any other reply
/// becomes an error.
pub fn expect_reply(reply: Result<(i32, String), FtpError>, code: i32) -> (r: Result<
    String,
    FtpError,
>)
    ensures
        r == expected(reply, code),
{
    match reply {
        Ok((c, text)) => {
            if c == code {
                Ok(text)
            } else {
                Err(to_error(Ok((c, text))))
            }
        },
        Err(e) => Err(e),
    }
}

/// Accepts a reply with exactly `code`.
fn expect_code(reply: Result<(i32, String), FtpError>, code: i32) -> (r: Result<(), FtpError>)
    ensures
        r is Ok <==> has_code(reply, code),
        r is Err ==> r->Err_0 == reply_error(reply),
{
    match expect_reply(reply, code) {
        Ok(_) => Ok(()),
        Err(e) => Err(e),
    }
}

/// The server's greeting: only "ready for a new user" opens the session.
pub fn greeting(reply: Result<(i32, String), FtpError>) -> (r: Result<(), FtpError>)
    ensures
        r is Ok <==> has_code(reply, READY_FOR_NEW_USER),
        r is Err ==> r->Err_0 == reply_error(reply),
{
    expect_code(reply, READY_FOR_NEW_USER)
}

/// What a login reply means: logged in, refused, or an error.
pub open spec fn login_outcome(reply: Result<(i32, String), FtpError>) -> Result<bool, FtpError> {
    if has_code(reply, LOGIN_SUCCESSFUL) {
        Ok(true)
    } else if has_code(reply, NOT_LOGGED_IN) || has_code(reply, INVALID_USERNAME_OR_PASSWORD) {
        Ok(false)
    } else {
        Err(reply_error(reply))
    }
}

/// What to do after the reply to the user name.
#[derive(Debug)]
pub enum LoginStep {
    /// Send the password and read one more reply.
    SendPassword,
    /// The login is over, with this outcome.
    Finished(Result<bool, FtpError>),
}

/// Decides on the reply to the user name: the password is sent only where
/// the server asks for it.
pub fn after_user(reply: Result<(i32, String), FtpError>) -> (r: LoginStep)
    ensures
        has_code(reply, USERNAME_OK_NEED_PASSWORD) ==> r is SendPassword,
        !has_code(reply, USERNAME_OK_NEED_PASSWORD) ==> r == LoginStep::Finished(
            login_outcome(reply),
        ),
{
    match reply {
        Ok((code, text)) => {
            if code == USERNAME_OK_NEED_PASSWORD {
                LoginStep::SendPassword
            } else {
                LoginStep::Finished(after_password(Ok((code, text))))
            }
        },
        Err(e) => LoginStep::Finished(Err(e)),
    }
}

/// Decides on the reply to the password.
pub fn after_password(reply: Result<(i32, String), FtpError>) -> (r: Result<bool, FtpError>)
    ensures
        r == login_outcome(reply),
{
    match reply {
        Ok((code, text)) => {
            if code == LOGIN_SUCCESSFUL {
                Ok(true)
            } else if code == NOT_LOGGED_IN || code == INVALID_USERNAME_OR_PASSWORD {
                Ok(false)
            } else {
                Err(to_error(Ok((code, text))))
            }
        },
        Err(e) => Err(e),
    }
}

/// The reply to a change or removal of a directory, or to a deletion.
pub fn file_action(reply: Result<(i32, String), FtpError>) -> (r: Result<(), FtpError>)
    ensures
        r is Ok <==> has_code(reply, FILE_ACTION_OK),
        r is Err ==> r->Err_0 == reply_error(reply),
{
    expect_code(reply, FILE_ACTION_OK)
}

/// The reply to the creation of a directory.
pub fn directory_created(reply: Result<(i32, String), FtpError>) -> (r: Result<(), FtpError>)
    ensures
        r is Ok <==> has_code(reply, PATHNAME_CREATED),
        r is Err ==> r->Err_0 == reply_error(reply),
{
    expect_code(reply, PATHNAME_CREATED)
}

/// The current directory, from the reply to a request for it: the path that
/// its text quotes.
pub fn current_directory(reply: Result<(i32, String), FtpError>) -> (r: Result<String, FtpError>)
    ensures
        !has_code(reply, PATHNAME_CREATED) ==> r == Err::<String, FtpError>(reply_error(reply)),
        has_code(reply, PATHNAME_CREATED) ==> match r {
            Ok(path) => quoted_path(reply->Ok_0.1@) == Some(path@),
            Err(e) => quoted_path(reply->Ok_0.1@) is None && e is InvalidResponse
                && e->InvalidResponse_0@ == reply->Ok_0.1@,
        },
{
    match expect_reply(reply, PATHNAME_CREATED) {
        Ok(text) => pwd_path(text.as_str()),
        Err(e) => Err(e),
    }
}

/// The confirmation on the control channel after a data channel has ended:
/// anything but "closing data connection" is a failure, whatever came
/// through the data channel.
pub fn end_data_transfer(reply: Result<(i32, String), FtpError>) -> (r: Result<(), FtpError>)
    ensures
        r is Ok <==> has_code(reply, CLOSING_DATA_CONNECTION),
        r is Err ==> r->Err_0 == reply_error(reply),
{
    expect_code(reply, CLOSING_DATA_CONNECTION)
}

} // verus!
