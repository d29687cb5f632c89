//! Messages exchanged with the peer, as plain values.

use vstd::prelude::*;
use crate::input::{KeyEvent, MouseEvent, PointerDeviceEvent};

verus! {

/// A switch in an option message: left alone, turned off or turned on.
#[derive(Clone, Copy, Debug, PartialEq, Eq, Structural)]
pub enum BoolOption {
    NotSet,
    No,
    Yes,
}

impl BoolOption {
    /// `Yes` for `true`, `No` for `false`.
    pub open spec fn spec_of(b: bool) -> BoolOption {
        if b {
            BoolOption::Yes
        } else {
            BoolOption::No
        }
    }

    /// `Yes` for `true`, `No` for `false`.
    pub fn of(b: bool) -> (r: BoolOption)
        ensures
            r == BoolOption::spec_of(b),
    {
        if b {
            BoolOption::Yes
        } else {
            BoolOption::No
        }
    }

    /// `Yes` for `true`; nothing is said for `false`.
    pub open spec fn spec_yes_if(b: bool) -> BoolOption {
        if b {
            BoolOption::Yes
        } else {
            BoolOption::NotSet
        }
    }

    /// `Yes` for `true`; nothing is said for `false`.
    pub fn yes_if(b: bool) -> (r: BoolOption)
        ensures
            r == BoolOption::spec_yes_if(b),
    {
        if b {
            BoolOption::Yes
        } else {
            BoolOption::NotSet
        }
    }
}

/// A named level of image quality.
#[derive(Clone, Copy, Debug, PartialEq, Eq, Structural)]
pub enum ImageQuality {
    NotSet,
    Low,
    Balanced,
    Best,
}

/// Options that the client asks the peer to apply.
#[derive(Clone, Copy, Debug, PartialEq, Eq, Structural)]
pub struct OptionMessage {
    pub image_quality: ImageQuality,
    pub lock_after_session_end: BoolOption,
    pub show_remote_cursor: BoolOption,
    pub privacy_mode: BoolOption,
    pub block_input: BoolOption,
    /// The custom quality in the second byte; 0 when unset.
    pub custom_image_quality: i32,
    pub disable_audio: BoolOption,
    pub disable_clipboard: BoolOption,
    pub enable_file_transfer: BoolOption,
    /// Whether the description of the decodings that this client supports
    /// goes with the message. The sender computes it from the session's
    /// adapter and the formats marked unsupported.
    pub supported_decoding: bool,
    pub custom_fps: i32,
    pub disable_keyboard: BoolOption,
    pub follow_remote_cursor: BoolOption,
    pub follow_remote_window: BoolOption,
}

impl OptionMessage {
    /// The message that asks for nothing.
    pub open spec fn spec_new() -> OptionMessage {
        OptionMessage {
            image_quality: ImageQuality::NotSet,
            lock_after_session_end: BoolOption::NotSet,
            show_remote_cursor: BoolOption::NotSet,
            privacy_mode: BoolOption::NotSet,
            block_input: BoolOption::NotSet,
            custom_image_quality: 0,
            disable_audio: BoolOption::NotSet,
            disable_clipboard: BoolOption::NotSet,
            enable_file_transfer: BoolOption::NotSet,
            supported_decoding: false,
            custom_fps: 0,
            disable_keyboard: BoolOption::NotSet,
            follow_remote_cursor: BoolOption::NotSet,
            follow_remote_window: BoolOption::NotSet,
        }
    }

    /// The message that asks for nothing.
    pub fn new() -> (r: Self)
        ensures
            r == OptionMessage::spec_new(),
    {
        OptionMessage {
            image_quality: ImageQuality::NotSet,
            lock_after_session_end: BoolOption::NotSet,
            show_remote_cursor: BoolOption::NotSet,
            privacy_mode: BoolOption::NotSet,
            block_input: BoolOption::NotSet,
            custom_image_quality: 0,
            disable_audio: BoolOption::NotSet,
            disable_clipboard: BoolOption::NotSet,
            enable_file_transfer: BoolOption::NotSet,
            supported_decoding: false,
            custom_fps: 0,
            disable_keyboard: BoolOption::NotSet,
            follow_remote_cursor: BoolOption::NotSet,
            follow_remote_window: BoolOption::NotSet,
        }
    }
}

/// Requests outside the main streams.
#[derive(Clone, Copy, Debug, PartialEq, Eq, Structural)]
pub enum Misc {
    Options(OptionMessage),
    RefreshVideo(bool),
    RefreshVideoDisplay(i32),
    RestartRemoteDevice(bool),
}

/// A measurement of the round trip.
#[derive(Clone, Copy, Debug, PartialEq, Eq, Structural)]
pub struct TestDelay {
    pub time: i64,
    pub from_client: bool,
    pub last_delay: u32,
    pub target_bitrate: u32,
}

/// Credentials for the peer's operating system.
#[derive(Clone, Debug)]
pub struct OsLogin {
    pub username: String,
    pub password: String,
}

/// What a session is for, beyond the desktop itself.
#[derive(Clone, Debug)]
pub enum LoginPurpose {
    Desktop,
    FileTransfer { dir: String, show_hidden: bool },
    PortForward { host: String, port: i32 },
}

/// The request that opens a session.
#[derive(Clone, Debug)]
pub struct LoginRequest {
    /// The id of the peer.
    pub username: String,
    /// The password, hashed with the peer's salt and challenge; empty when
    /// there is none.
    pub password: Vec<u8>,
    pub my_id: String,
    pub my_name: String,
    pub option: Option<OptionMessage>,
    pub session_id: u64,
    pub version: String,
    pub os_login: OsLogin,
    pub purpose: LoginPurpose,
}

/// The answer to a peer that asked to switch sides.
#[derive(Clone, Debug)]
pub struct SwitchSidesResponse {
    pub uuid: Vec<u8>,
    pub lr: LoginRequest,
}

/// A message to the peer.
#[derive(Clone, Debug)]
pub enum Message {
    Misc(Misc),
    LoginRequest(LoginRequest),
    SwitchSidesResponse(SwitchSidesResponse),
    MouseEvent(MouseEvent),
    PointerDeviceEvent(PointerDeviceEvent),
    KeyEvent(KeyEvent),
    TestDelay(TestDelay),
}

/// What the client's interface is asked to do.
#[derive(Clone, Debug)]
pub enum Data {
    Close,
    Login(String, String, String, bool),
    Message(Message),
    SendFiles(i32, String, String, i32, bool, bool),
    RemoveDirAll(i32, String, bool, bool),
    ConfirmDeleteFiles(i32, i32),
    SetNoConfirm(i32),
    RemoveDir(i32, String),
    RemoveFile(i32, String, i32, bool),
    CreateDir(i32, String, bool),
    CancelJob(i32),
    RemovePortForward(i32),
    AddPortForward(i32, String, i32),
    ToggleClipboardFile,
    NewRDP,
    SetConfirmOverrideFile(i32, i32, bool, bool, bool),
    AddJob(i32, String, String, i32, bool, bool),
    ResumeJob(i32, bool),
    RecordScreen(bool, usize, i32, i32, String),
    ElevateDirect,
    ElevateWithLogon(String, String),
    NewVoiceCall,
    CloseVoiceCall,
}

/// Answers a latency test: one that the peer started is echoed, one that
/// this client started is not.
pub fn handle_test_delay(t: TestDelay) -> (r: Option<Message>)
    ensures
        t.from_client ==> r is None,
        !t.from_client ==> r == Some(Message::TestDelay(t)),
{
    if !t.from_client {
        Some(Message::TestDelay(t))
    } else {
        None
    }
}

} // verus!
