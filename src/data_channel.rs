use vstd::prelude::*;
use vstd::utf8::{decode_utf8, valid_utf8};

use crate::address::{passive_address, passive_address_of, DataAddress};
use crate::error::{reply_error, to_error, FtpError};
use crate::session::{
    has_code, FtpMode, ENTERING_PASSIVE_MODE, OPEN_DATA_CONNECTION, SUCCESS,
};

verus! {

/// How many ports, from the one asked for on, are tried for a listener.
pub const MAX_BIND_ATTEMPTS: u16 = 16;

/// The address for the `attempt`-th try at binding a listener: the port
/// asked for, then each next one, until the tries or the ports run out.
pub open spec fn candidate(base: DataAddress, attempt: u16) -> Option<DataAddress> {
    if attempt < MAX_BIND_ATTEMPTS && base.port + attempt <= u16::MAX {
        Some(DataAddress { ip: base.ip, port: (base.port + attempt) as u16 })
    } else {
        None
    }
}

/// The address to try for a listener at the given attempt, if any is left.
pub fn bind_candidate(base: DataAddress, attempt: u16) -> (r: Option<DataAddress>)
    ensures
        r == candidate(base, attempt),
{
    if attempt < MAX_BIND_ATTEMPTS && base.port as u32 + attempt as u32 <= u16::MAX as u32 {
        Some(DataAddress { ip: base.ip, port: base.port + attempt })
    } else {
        None
    }
}

/// Where the negotiation of a data channel stands: which reply it waits for.
#[derive(Debug, Clone, Copy, PartialEq, Eq, Structural)]
pub enum SetupStage {
    /// The reply to the choice of transfer type.
    AwaitType,
    /// The reply to the announcement of the client's address (active mode).
    AwaitPort,
    /// The reply to the request for passive mode.
    AwaitPassive,
    /// The reply to the transfer command.
    AwaitOpen,
    /// None: the channel is open or the negotiation failed.
    Finished,
}

/// What the caller does next on the sockets.
#[derive(Debug)]
pub enum SetupAction {
    /// Listen on this address (or the next free port, see `bind_candidate`),
    /// announce the bound address with a PORT command and read the reply.
    Announce(DataAddress),
    /// Send PASV and read the reply.
    RequestPassive,
    /// Send the transfer command and read the reply.
    SendTransfer,
    /// Send the transfer command, connect to this address and read the reply.
    ConnectAndSend(DataAddress),
    /// The data channel is ready: in active mode, accept the connection.
    Open,
    /// Give up with this error.
    Fail(FtpError),
}

/// The negotiation of one data channel, from the reply to the transfer type
/// to the reply to the transfer command.
#[derive(Debug)]
pub struct DataSetup {
    pub mode: FtpMode,
    pub stage: SetupStage,
}

/// The next stage and action for a reply.
pub open spec fn setup_step(
    mode: FtpMode,
    stage: SetupStage,
    reply: Result<(i32, String), FtpError>,
) -> (SetupStage, SetupAction) {
    let fail = (SetupStage::Finished, SetupAction::Fail(reply_error(reply)));
    match stage {
        SetupStage::AwaitType => if has_code(reply, SUCCESS) {
            match mode {
                FtpMode::Active(a) => (SetupStage::AwaitPort, SetupAction::Announce(a)),
                FtpMode::Passive => (SetupStage::AwaitPassive, SetupAction::RequestPassive),
            }
        } else {
            fail
        },
        SetupStage::AwaitPort => if has_code(reply, SUCCESS) {
            (SetupStage::AwaitOpen, SetupAction::SendTransfer)
        } else {
            fail
        },
        SetupStage::AwaitPassive => if has_code(reply, ENTERING_PASSIVE_MODE) {
            match passive_address_of(reply->Ok_0.1@) {
                Some(a) => (SetupStage::AwaitOpen, SetupAction::ConnectAndSend(a)),
                None => (
                    SetupStage::Finished,
                    SetupAction::Fail(FtpError::InvalidResponse(reply->Ok_0.1)),
                ),
            }
        } else {
            fail
        },
        SetupStage::AwaitOpen => if has_code(reply, OPEN_DATA_CONNECTION) {
            (SetupStage::Finished, SetupAction::Open)
        } else {
            fail
        },
        SetupStage::Finished => fail,
    }
}

impl DataSetup {
    /// A negotiation that waits for the reply to the transfer type, which the
    /// caller has just sent.
    pub fn new(mode: FtpMode) -> (r: DataSetup)
        ensures
            r.mode == mode,
            r.stage == SetupStage::AwaitType,
    {
        DataSetup { mode, stage: SetupStage::AwaitType }
    }

    /// Takes the reply that the current stage waits for and tells what to do.
    pub fn on_reply(&mut self, reply: Result<(i32, String), FtpError>) -> (r: SetupAction)
        ensures
            final(self).mode == old(self).mode,
            (final(self).stage, r) == setup_step(old(self).mode, old(self).stage, reply),
    {
        let (code, text) = match reply {
            Ok((code, text)) => (code, text),
            Err(e) => {
                self.stage = SetupStage::Finished;
                return SetupAction::Fail(e);
            },
        };
        let (next, action) = match self.stage {
            SetupStage::AwaitType if code == SUCCESS => match self.mode {
                FtpMode::Active(a) => (SetupStage::AwaitPort, SetupAction::Announce(a)),
                FtpMode::Passive => (SetupStage::AwaitPassive, SetupAction::RequestPassive),
            },
            SetupStage::AwaitPort if code == SUCCESS => (
                SetupStage::AwaitOpen,
                SetupAction::SendTransfer,
            ),
            SetupStage::AwaitPassive if code == ENTERING_PASSIVE_MODE => {
                match passive_address(text.as_str()) {
                    Some(a) => (SetupStage::AwaitOpen, SetupAction::ConnectAndSend(a)),
                    None => (SetupStage::Finished, SetupAction::Fail(FtpError::InvalidResponse(text))),
                }
            },
            SetupStage::AwaitOpen if code == OPEN_DATA_CONNECTION => (
                SetupStage::Finished,
                SetupAction::Open,
            ),
            _ => (SetupStage::Finished, SetupAction::Fail(to_error(Ok((code, text))))),
        };
        self.stage = next;
        action
    }
}

/// Relies on `String::from_utf8`: it succeeds exactly on UTF-8 bytes and
/// then holds the characters that they encode.
#[verifier::external_body]
fn utf8_text(bytes: Vec<u8>) -> (r: Result<String, std::string::FromUtf8Error>)
    ensures
        r is Ok <==> valid_utf8(bytes@),
        r is Ok ==> r->Ok_0@ == decode_utf8(bytes@),
{
    String::from_utf8(bytes)
}

/// The text of a listing, from the bytes that its data channel carried.
pub fn decode_listing(bytes: Vec<u8>) -> (r: Result<String, FtpError>)
    ensures
        r is Ok <==> valid_utf8(bytes@),
        r is Ok ==> r->Ok_0@ == decode_utf8(bytes@),
        r is Err ==> r->Err_0 is EncodingError,
{
    match utf8_text(bytes) {
        Ok(text) => Ok(text),
        Err(e) => Err(FtpError::EncodingError(e)),
    }
}

} // verus!
