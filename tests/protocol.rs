use ftp_client::address::{parse_address, passive_address, DataAddress};
use ftp_client::commands::{FtpCommand, FtpTransferType};
use ftp_client::error::{to_error, FtpError};
use ftp_client::numbers::{parse_i32, parse_u8, push_decimal, to_ftp_port};
use ftp_client::reply::{parse_response, pwd_path};
use ftp_client::text::{find_char, rfind_char, trim_text};

fn loopback(port: u16) -> DataAddress {
    DataAddress { ip: (127, 0, 0, 1), port }
}

#[test]
fn parse_closing_reply() {
    let (code, text) = parse_response("226 Closing data connection.").unwrap();
    assert_eq!(code, 226);
    assert_eq!(text, "Closing data connection.");
}

#[test]
fn parse_reply_trims_line_end() {
    let (code, text) = parse_response("220   Service ready \r\n").unwrap();
    assert_eq!(code, 220);
    assert_eq!(text, "Service ready");
}

#[test]
fn parse_reply_without_space_is_invalid() {
    match parse_response("226Closing") {
        Err(FtpError::InvalidResponse(line)) => assert_eq!(line, "226Closing"),
        other => panic!("unexpected {:?}", other),
    }
}

#[test]
fn parse_reply_with_non_numeric_code_is_invalid() {
    match parse_response("abc def\n") {
        Err(FtpError::InvalidResponse(line)) => assert_eq!(line, "abc def\n"),
        other => panic!("unexpected {:?}", other),
    }
}

#[test]
fn parse_empty_reply_is_invalid() {
    assert!(matches!(parse_response(""), Err(FtpError::InvalidResponse(_))));
}

#[test]
fn parse_reply_code_only_space() {
    let (code, text) = parse_response("200 ").unwrap();
    assert_eq!(code, 200);
    assert_eq!(text, "");
}

#[test]
fn parse_i32_follows_std() {
    for s in ["0", "+7", "-7", "2147483647", "-2147483648", "00012", "2147483648", "-2147483649", "", "+", "-", "1a", " 1", "99999999999999999999"] {
        assert_eq!(parse_i32(s), s.parse::<i32>().ok(), "{}", s);
    }
}

#[test]
fn parse_u8_follows_std() {
    for s in ["0", "255", "256", "+9", "-0", "", "007", "12 ", "x"] {
        assert_eq!(parse_u8(s), s.parse::<u8>().ok(), "{}", s);
    }
}

#[test]
fn decimal_text() {
    let mut s = String::from("n=");
    push_decimal(&mut s, 0);
    s.push(' ');
    push_decimal(&mut s, 4294967295);
    assert_eq!(s, "n=0 4294967295");
}

#[test]
fn ftp_port_from_bytes() {
    assert_eq!(to_ftp_port(20, 16), 5136);
    assert_eq!(to_ftp_port(19, 136), 5000);
    assert_eq!(to_ftp_port(255, 255), 65535);
}

#[test]
fn trim_like_std() {
    for s in ["  a b  ", "\t\u{a0}x\u{3000}", "   ", "", "x"] {
        assert_eq!(trim_text(s), s.trim());
    }
}

#[test]
fn find_first_and_last() {
    assert_eq!(find_char("a(b)(c)", '(', 0), Some(1));
    assert_eq!(find_char("a(b)(c)", '(', 2), Some(4));
    assert_eq!(find_char("abc", 'z', 0), None);
    assert_eq!(rfind_char("a(b)(c)", '('), Some(4));
    assert_eq!(rfind_char("héllo", 'l'), Some(3));
}

#[test]
fn encode_port_address() {
    let line = FtpCommand::PORT(loopback(5136)).to_string();
    assert_eq!(line, "PORT 127,0,0,1,20,16\n");
}

#[test]
fn address_round_trip() {
    let a = loopback(5136);
    let line = FtpCommand::PORT(a).to_string();
    let text = line.trim_end().strip_prefix("PORT ").unwrap();
    assert_eq!(text, "127,0,0,1,20,16");
    assert_eq!(parse_address(text), Some(a));
    let b = DataAddress { ip: (0, 255, 10, 200), port: 65535 };
    let line = FtpCommand::PORT(b).to_string();
    assert_eq!(parse_address(line.trim_end().strip_prefix("PORT ").unwrap()), Some(b));
}

#[test]
fn parse_address_rejects_bad_tuples() {
    assert_eq!(parse_address("127,0,0,1,20"), None);
    assert_eq!(parse_address("127,0,0,1,20,16,1"), None);
    assert_eq!(parse_address("127,0,0,256,20,16"), None);
    assert_eq!(parse_address("127,0,0,x,20,16"), None);
    assert_eq!(parse_address("127,0,0,,20,16"), None);
    assert_eq!(parse_address(""), None);
    assert_eq!(parse_address("+1,2,3,4,0,21"), Some(DataAddress { ip: (1, 2, 3, 4), port: 21 }));
}

#[test]
fn passive_reply_address() {
    let a = passive_address("Entering Passive Mode (127,0,0,1,19,136).");
    assert_eq!(a, Some(loopback(5000)));
}

#[test]
fn passive_reply_malformed() {
    assert_eq!(passive_address("Entering Passive Mode 127,0,0,1,19,136."), None);
    assert_eq!(passive_address("Entering Passive Mode )127,0,0,1,19,136("), None);
    assert_eq!(passive_address("Entering Passive Mode (127,0,0,1,19)"), None);
    assert_eq!(passive_address("Entering Passive Mode (a,0,0,1,19,136)"), None);
}

#[test]
fn every_command_line() {
    let cases: Vec<(FtpCommand, &str)> = vec![
        (FtpCommand::CWD("/pub"), "CWD /pub\n"),
        (FtpCommand::DELE("a.txt"), "DELE a.txt\n"),
        (FtpCommand::LIST("."), "LIST .\n"),
        (FtpCommand::MKD("new dir"), "MKD new dir\n"),
        (FtpCommand::PASS("secret"), "PASS secret\n"),
        (FtpCommand::PASV, "PASV\n"),
        (FtpCommand::PWD, "PWD\n"),
        (FtpCommand::QUIT, "QUIT\n"),
        (FtpCommand::RETR("r.bin"), "RETR r.bin\n"),
        (FtpCommand::RMD("old"), "RMD old\n"),
        (FtpCommand::STOR("s.bin"), "STOR s.bin\n"),
        (FtpCommand::TYPE(FtpTransferType::Binary), "TYPE I\n"),
        (FtpCommand::TYPE(FtpTransferType::Text), "TYPE A\n"),
        (FtpCommand::USER("anonymous"), "USER anonymous\n"),
    ];
    for (cmd, expected) in cases {
        let line = cmd.to_string();
        assert_eq!(line, expected);
        assert!(line.ends_with('\n'));
        assert_eq!(line.matches('\n').count(), 1);
    }
}

#[test]
fn to_error_maps_codes() {
    assert!(matches!(to_error(Ok((550, "No such file".to_string()))), FtpError::OperationFailed(t) if t == "No such file"));
    assert!(matches!(to_error(Ok((500, "What?".to_string()))), FtpError::UnexpectedReturnCode(500, t) if t == "What?"));
    let e = to_error(Err(FtpError::InvalidResponse("x".to_string())));
    assert!(matches!(e, FtpError::InvalidResponse(t) if t == "x"));
}

#[test]
fn error_descriptions() {
    assert_eq!(FtpError::InvalidResponse(String::new()).description(), "Server response is in invalid format");
    assert_eq!(FtpError::UnexpectedReturnCode(1, String::new()).description(), "Received unexpected return code.");
    assert_eq!(FtpError::OperationFailed(String::new()).description(), "Operation failed.");
    let io = std::io::Error::new(std::io::ErrorKind::Other, "boom");
    assert_eq!(FtpError::IoError(io).description(), "Comunication IO error");
}

#[test]
fn error_messages() {
    assert_eq!(
        FtpError::InvalidResponse("bad".to_string()).message(),
        "Server response is in invalid format. Received line: \"bad\"."
    );
    assert_eq!(
        FtpError::UnexpectedReturnCode(421, "Bye".to_string()).message(),
        "Received unexpected return code 421. Description \"Bye\"."
    );
    assert_eq!(
        FtpError::UnexpectedReturnCode(-2147483648, String::new()).message(),
        "Received unexpected return code -2147483648. Description \"\"."
    );
    assert_eq!(FtpError::OperationFailed("No such file.".to_string()).message(), "No such file.");
    let io = std::io::Error::new(std::io::ErrorKind::Other, "boom");
    assert_eq!(FtpError::IoError(io).message(), "Comunication error: boom.");
    let bad = String::from_utf8(vec![0xff]).unwrap_err();
    let expected = format!("Received text has invalid encoding. Error: \"{}\".", bad);
    assert_eq!(FtpError::EncodingError(bad).message(), expected);
}

#[test]
fn pwd_path_between_quotes() {
    assert_eq!(pwd_path("\"/home/user\" is the current directory.").unwrap(), "/home/user");
    assert_eq!(pwd_path("\"/\"").unwrap(), "/");
    assert!(matches!(pwd_path("/home/user"), Err(FtpError::InvalidResponse(_))));
    assert!(matches!(pwd_path("\"/home/user"), Err(FtpError::InvalidResponse(_))));
}
