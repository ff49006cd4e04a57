use ftp_client::address::DataAddress;
use ftp_client::cli::{entered_or_default, parse_user_line, UserCommand};
use ftp_client::data_channel::{bind_candidate, decode_listing, DataSetup, SetupAction, SetupStage, MAX_BIND_ATTEMPTS};
use ftp_client::error::FtpError;
use ftp_client::reply::parse_response;
use ftp_client::session::{
    after_password, after_user, current_directory, directory_created, end_data_transfer,
    expect_reply, file_action, greeting, FtpMode, LoginStep,
};
use ftp_client::settings::Settings;

fn reply(code: i32, text: &str) -> Result<(i32, String), FtpError> {
    Ok((code, text.to_string()))
}

fn io_failure() -> Result<(i32, String), FtpError> {
    Err(FtpError::IoError(std::io::Error::new(std::io::ErrorKind::BrokenPipe, "closed")))
}

#[test]
fn greeting_needs_ready() {
    assert!(greeting(reply(220, "Service ready")).is_ok());
    assert!(matches!(greeting(reply(421, "Busy")), Err(FtpError::UnexpectedReturnCode(421, _))));
    assert!(matches!(greeting(io_failure()), Err(FtpError::IoError(_))));
}

#[test]
fn login_with_password() {
    assert!(matches!(after_user(reply(331, "Password required")), LoginStep::SendPassword));
    assert!(matches!(after_password(reply(230, "Logged in")), Ok(true)));
}

#[test]
fn login_refused_without_password() {
    assert!(matches!(after_user(reply(530, "Not logged in")), LoginStep::Finished(Ok(false))));
    assert!(matches!(after_user(reply(430, "Invalid")), LoginStep::Finished(Ok(false))));
}

#[test]
fn login_accepted_without_password() {
    assert!(matches!(after_user(reply(230, "Logged in")), LoginStep::Finished(Ok(true))));
}

#[test]
fn login_wrong_password_and_errors() {
    assert!(matches!(after_password(reply(530, "Login incorrect")), Ok(false)));
    assert!(matches!(after_password(reply(430, "Invalid")), Ok(false)));
    assert!(matches!(after_password(reply(331, "Again?")), Err(FtpError::UnexpectedReturnCode(331, _))));
    assert!(matches!(after_user(reply(550, "Denied")), LoginStep::Finished(Err(FtpError::OperationFailed(_)))));
    assert!(matches!(after_user(io_failure()), LoginStep::Finished(Err(FtpError::IoError(_)))));
}

#[test]
fn pwd_reply_path() {
    let r = current_directory(reply(257, "\"/home/user\" is the current directory."));
    assert_eq!(r.unwrap(), "/home/user");
}

#[test]
fn pwd_reply_from_wire_line() {
    let parsed = parse_response("257 \"/home/user\" is the current directory.\r\n");
    assert_eq!(current_directory(parsed).unwrap(), "/home/user");
}

#[test]
fn pwd_reply_other_code() {
    assert!(matches!(current_directory(reply(550, "No")), Err(FtpError::OperationFailed(t)) if t == "No"));
    assert!(matches!(current_directory(reply(257, "no quotes")), Err(FtpError::InvalidResponse(_))));
}

#[test]
fn simple_operations() {
    assert!(file_action(reply(250, "Okay")).is_ok());
    assert!(matches!(file_action(reply(550, "No such directory")), Err(FtpError::OperationFailed(_))));
    assert!(directory_created(reply(257, "\"d\" created")).is_ok());
    assert!(matches!(directory_created(reply(250, "Okay")), Err(FtpError::UnexpectedReturnCode(250, _))));
    assert_eq!(expect_reply(reply(200, "Type set"), 200).unwrap(), "Type set");
}

#[test]
fn download_confirmation_failure() {
    // the data channel has ended; the control channel then says the action failed
    let r = end_data_transfer(reply(550, "Transfer aborted"));
    assert!(matches!(r, Err(FtpError::OperationFailed(t)) if t == "Transfer aborted"));
    assert!(end_data_transfer(reply(226, "Closing data connection.")).is_ok());
    assert!(matches!(end_data_transfer(reply(250, "Okay")), Err(FtpError::UnexpectedReturnCode(250, _))));
}

#[test]
fn passive_setup_flow() {
    let mut s = DataSetup::new(FtpMode::Passive);
    assert!(matches!(s.on_reply(reply(200, "Type set to I")), SetupAction::RequestPassive));
    assert_eq!(s.stage, SetupStage::AwaitPassive);
    let a = s.on_reply(reply(227, "Entering Passive Mode (127,0,0,1,19,136)."));
    match a {
        SetupAction::ConnectAndSend(addr) => assert_eq!(addr, DataAddress { ip: (127, 0, 0, 1), port: 5000 }),
        other => panic!("unexpected {:?}", other),
    }
    assert!(matches!(s.on_reply(reply(150, "Opening")), SetupAction::Open));
    assert_eq!(s.stage, SetupStage::Finished);
}

#[test]
fn passive_setup_malformed_address() {
    let mut s = DataSetup::new(FtpMode::Passive);
    s.on_reply(reply(200, "ok"));
    let a = s.on_reply(reply(227, "Entering Passive Mode 127,0,0,1,19,136"));
    assert!(matches!(a, SetupAction::Fail(FtpError::InvalidResponse(t)) if t == "Entering Passive Mode 127,0,0,1,19,136"));
    assert_eq!(s.stage, SetupStage::Finished);
}

#[test]
fn active_setup_flow() {
    let addr = DataAddress { ip: (127, 0, 0, 1), port: 2121 };
    let mut s = DataSetup::new(FtpMode::Active(addr));
    match s.on_reply(reply(200, "ok")) {
        SetupAction::Announce(a) => assert_eq!(a, addr),
        other => panic!("unexpected {:?}", other),
    }
    assert!(matches!(s.on_reply(reply(200, "PORT ok")), SetupAction::SendTransfer));
    assert!(matches!(s.on_reply(reply(550, "No file")), SetupAction::Fail(FtpError::OperationFailed(_))));
    assert_eq!(s.stage, SetupStage::Finished);
}

#[test]
fn setup_rejects_type_reply() {
    let mut s = DataSetup::new(FtpMode::Passive);
    assert!(matches!(s.on_reply(reply(504, "No")), SetupAction::Fail(FtpError::UnexpectedReturnCode(504, _))));
    assert!(matches!(s.on_reply(reply(200, "late")), SetupAction::Fail(_)));
}

#[test]
fn bind_candidates() {
    let base = DataAddress { ip: (127, 0, 0, 1), port: 65530 };
    assert_eq!(bind_candidate(base, 0), Some(base));
    assert_eq!(bind_candidate(base, 5).map(|a| a.port), Some(65535));
    assert_eq!(bind_candidate(base, 6), None);
    let low = DataAddress { ip: (127, 0, 0, 1), port: 2000 };
    assert_eq!(bind_candidate(low, MAX_BIND_ATTEMPTS - 1).map(|a| a.port), Some(2000 + MAX_BIND_ATTEMPTS - 1));
    assert_eq!(bind_candidate(low, MAX_BIND_ATTEMPTS), None);
}

#[test]
fn listing_encoding() {
    assert_eq!(decode_listing(b"a.txt\r\nb\xc3\xa9.txt\r\n".to_vec()).unwrap(), "a.txt\r\nbé.txt\r\n");
    assert!(matches!(decode_listing(vec![b'a', 0xff]), Err(FtpError::EncodingError(_))));
}

#[test]
fn default_settings() {
    let s = Settings::new();
    assert_eq!(s.host, "localhost");
    assert_eq!(s.port, "21");
    assert!(s.user.is_none() && s.password.is_none() && s.listen.is_none());
}

#[test]
fn user_lines() {
    let (c, a) = parse_user_line("  get file.txt \n");
    assert_eq!(c, UserCommand::Get);
    assert_eq!(a, "file.txt");
    let (c, a) = parse_user_line("pwd\n");
    assert_eq!(c, UserCommand::Pwd);
    assert_eq!(a, "");
    assert_eq!(parse_user_line("\n").0, UserCommand::Empty);
    assert_eq!(parse_user_line("q").0, UserCommand::Quit);
    assert_eq!(parse_user_line("rmdir a b").1, "a b");
    assert_eq!(parse_user_line("dance").0, UserCommand::Unknown);
}

#[test]
fn user_name_default() {
    assert_eq!(entered_or_default("  \n", "alice"), "alice");
    assert_eq!(entered_or_default(" bob \n", "alice"), "bob");
}
