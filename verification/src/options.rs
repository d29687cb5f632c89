//! The options that a session asks its peer to apply.

use vstd::prelude::*;
use crate::config::{ConfigView, PeerConfig, Toggles};
use crate::login::{LoginConfigHandler, LoginView};
use crate::message::{BoolOption, ImageQuality, Message, Misc, OptionMessage};
use crate::rendezvous::ConnType;
use crate::strmap::StrMap;
use crate::text::{
    decimal, lemma_decimal_reads_back, parse_i32, spec_decimal, spec_parse_i32, str_eq,
};

verus! {

/// The named level that a stored quality stands for. `balanced` is the
/// default, and where defaults are left out it stands for nothing.
pub open spec fn spec_image_quality_enum(q: Seq<char>, ignore_default: bool) -> Option<
    ImageQuality,
> {
    if q == "low"@ {
        Some(ImageQuality::Low)
    } else if q == "best"@ {
        Some(ImageQuality::Best)
    } else if q == "balanced"@ && !ignore_default {
        Some(ImageQuality::Balanced)
    } else {
        None
    }
}

/// The named level that a stored quality stands for.
pub fn get_image_quality_enum(q: &str, ignore_default: bool) -> (r: Option<ImageQuality>)
    ensures
        r == spec_image_quality_enum(q@, ignore_default),
{
    if str_eq(q, "low") {
        Some(ImageQuality::Low)
    } else if str_eq(q, "best") {
        Some(ImageQuality::Best)
    } else if str_eq(q, "balanced") {
        if ignore_default {
            None
        } else {
            Some(ImageQuality::Balanced)
        }
    } else {
        None
    }
}

/// An options message that carries `option` to the peer.
pub open spec fn spec_option_message(option: OptionMessage) -> Message {
    Message::Misc(Misc::Options(option))
}

/// The custom quality to ask for: the stored one, or 50 where none is
/// stored; capped at 100 unless more is allowed.
pub open spec fn spec_custom_quality(stored: Seq<i32>, allow_more: bool) -> i32 {
    if stored.len() == 0 {
        50
    } else if !allow_more && stored[0] > 100 {
        100
    } else {
        stored[0]
    }
}

/// The custom rate to ask for: the stored one, or 30 where what is stored
/// is no number; capped at 30 unless more is allowed.
pub open spec fn spec_custom_fps(stored: Seq<char>, allow_more: bool) -> i32 {
    let wanted = match spec_parse_i32(stored) {
        Some(fps) => fps,
        None => 30i32,
    };
    if !allow_more && wanted > 30 {
        30
    } else {
        wanted
    }
}

/// A custom rate that was stored as the option `custom-fps` is the rate
/// that is asked for afterwards, capped at 30 unless more is allowed.
pub proof fn lemma_stored_fps_comes_back(fps: i32, allow_more: bool)
    ensures
        spec_custom_fps(spec_decimal(fps as int), allow_more) == if !allow_more && fps > 30 {
            30i32
        } else {
            fps
        },
{
    lemma_decimal_reads_back(fps);
}

/// Whether quality and rate may go beyond the caps: on any server but the
/// public ones, and on a direct session.
pub open spec fn spec_allow_more(public_server: bool, direct: Option<bool>) -> bool {
    !public_server || direct == Some(true)
}

/// Whether sessions of this kind carry no options.
pub open spec fn spec_without_options(conn_type: ConnType) -> bool {
    conn_type == ConnType::PortForward || conn_type == ConnType::Rdp || conn_type
        == ConnType::FileTransfer
}

/// Whether the options of a login carry a custom rate: where the quality is
/// custom, the interface has such a setting and the option `custom-fps` is
/// stored.
pub open spec fn spec_sends_custom_fps(lc: LoginView, ignore_default: bool, with_fps: bool)
    -> bool {
    &&& !spec_without_options(lc.conn_type)
    &&& spec_image_quality_enum(lc.config.image_quality, ignore_default) is None
    &&& lc.config.image_quality == "custom"@
    &&& with_fps
    &&& lc.config.options.contains_key("custom-fps"@)
}

/// The options that go with a login or follow it: the image quality by
/// name or by number, the switches that are on, and the decodings that this
/// client supports. `loaded` is the configuration as stored.
pub open spec fn spec_login_options(
    lc: LoginView,
    loaded: ConfigView,
    public_server: bool,
    with_fps: bool,
    ignore_default: bool,
) -> Option<OptionMessage> {
    if spec_without_options(lc.conn_type) {
        None
    } else {
        let named = spec_image_quality_enum(lc.config.image_quality, ignore_default);
        let custom = named is None && lc.config.image_quality == "custom"@;
        let allow_more = spec_allow_more(public_server, lc.direct);
        Some(
            OptionMessage {
                image_quality: match named {
                    Some(q) => q,
                    None => ImageQuality::NotSet,
                },
                custom_image_quality: if custom {
                    spec_custom_quality(loaded.custom_image_quality, allow_more) << 8
                } else {
                    0i32
                },
                custom_fps: if spec_sends_custom_fps(lc, ignore_default, with_fps) {
                    spec_custom_fps(lc.config.options["custom-fps"@], allow_more)
                } else {
                    0i32
                },
                ..spec_switch_options(lc.config.toggles)
            },
        )
    }
}

/// Whether sessions of this kind carry no options.
pub fn without_options(conn_type: ConnType) -> (r: bool)
    ensures
        r == spec_without_options(conn_type),
{
    match conn_type {
        ConnType::PortForward => true,
        ConnType::Rdp => true,
        ConnType::FileTransfer => true,
        ConnType::DefaultConn => false,
    }
}

/// The custom quality to ask for.
pub fn custom_quality(stored: &Vec<i32>, allow_more: bool) -> (r: i32)
    ensures
        r == spec_custom_quality(stored@, allow_more),
{
    if stored.len() == 0 {
        50
    } else if !allow_more && stored[0] > 100 {
        100
    } else {
        stored[0]
    }
}

/// The custom rate to ask for, where the option `custom-fps` is stored.
pub fn stored_custom_fps(options: &StrMap, allow_more: bool) -> (r: Option<i32>)
    ensures
        r == if options@.contains_key("custom-fps"@) {
            Some(spec_custom_fps(options@["custom-fps"@], allow_more))
        } else {
            None
        },
{
    match options.get("custom-fps") {
        Some(stored) => {
            let wanted = match parse_i32(stored.as_str()) {
                Some(fps) => fps,
                None => 30,
            };
            Some(
                if !allow_more && wanted > 30 {
                    30
                } else {
                    wanted
                },
            )
        },
        None => None,
    }
}

/// The options of a login as far as the switches decide them.
pub open spec fn spec_switch_options(t: Toggles) -> OptionMessage {
    OptionMessage {
        disable_keyboard: BoolOption::spec_yes_if(t.view_only),
        show_remote_cursor: BoolOption::spec_yes_if(t.view_only || t.show_remote_cursor),
        follow_remote_cursor: BoolOption::spec_yes_if(t.follow_remote_cursor),
        follow_remote_window: BoolOption::spec_yes_if(t.follow_remote_window),
        lock_after_session_end: BoolOption::spec_yes_if(!t.view_only && t.lock_after_session_end),
        disable_audio: BoolOption::spec_yes_if(t.disable_audio),
        enable_file_transfer: BoolOption::spec_yes_if(!t.view_only && t.enable_file_transfer),
        disable_clipboard: BoolOption::spec_yes_if(t.view_only || t.disable_clipboard),
        supported_decoding: true,
        ..OptionMessage::spec_new()
    }
}

/// The options of a login as far as the switches decide them.
pub fn switch_options(t: Toggles) -> (r: OptionMessage)
    ensures
        r == spec_switch_options(t),
{
    let mut msg = OptionMessage::new();
    msg.disable_keyboard = BoolOption::yes_if(t.view_only);
    msg.show_remote_cursor = BoolOption::yes_if(t.view_only || t.show_remote_cursor);
    msg.follow_remote_cursor = BoolOption::yes_if(t.follow_remote_cursor);
    msg.follow_remote_window = BoolOption::yes_if(t.follow_remote_window);
    msg.lock_after_session_end = BoolOption::yes_if(!t.view_only && t.lock_after_session_end);
    msg.disable_audio = BoolOption::yes_if(t.disable_audio);
    msg.enable_file_transfer = BoolOption::yes_if(!t.view_only && t.enable_file_transfer);
    msg.disable_clipboard = BoolOption::yes_if(t.view_only || t.disable_clipboard);
    msg.supported_decoding = true;
    msg
}

impl LoginConfigHandler {
    /// Asks the peer to send the whole picture again.
    pub fn refresh() -> (r: Message)
        ensures
            r == Message::Misc(Misc::RefreshVideo(true)),
    {
        Message::Misc(Misc::RefreshVideo(true))
    }

    /// Asks the peer to send the whole picture of one display again.
    pub fn refresh_display(display: usize) -> (r: Message)
        ensures
            r == Message::Misc(Misc::RefreshVideoDisplay(display as i32)),
    {
        let d: i32 = #[verifier::truncate]
        (display as i32);
        Message::Misc(Misc::RefreshVideoDisplay(d))
    }

    /// Asks the peer to restart its device.
    pub fn restart_remote_device(&self) -> (r: Message)
        ensures
            r == Message::Misc(Misc::RestartRemoteDevice(true)),
    {
        Message::Misc(Misc::RestartRemoteDevice(true))
    }

    /// Tells the peer the decodings that this client supports, as they
    /// follow from the formats marked unsupported.
    pub fn update_supported_decodings(&self) -> (r: Message)
        ensures
            r == spec_option_message(
                OptionMessage { supported_decoding: true, ..OptionMessage::spec_new() },
            ),
    {
        let mut option = OptionMessage::new();
        option.supported_decoding = true;
        Message::Misc(Misc::Options(option))
    }

    /// Makes the image quality custom, with the given value, in the stored
    /// configuration, and asks the peer for it.
    pub fn save_custom_image_quality(&mut self, loaded: PeerConfig, image_quality: i32) -> (r:
        Message)
        ensures
            r == spec_option_message(
                OptionMessage {
                    custom_image_quality: image_quality << 8,
                    ..OptionMessage::spec_new()
                },
            ),
            final(self)@ == (LoginView {
                config: ConfigView {
                    image_quality: "custom"@,
                    custom_image_quality: seq![image_quality],
                    ..loaded@
                },
                ..old(self)@
            }),
    {
        let mut option = OptionMessage::new();
        option.custom_image_quality = image_quality << 8;
        let mut config = loaded;
        config.image_quality = "custom".to_owned();
        let mut quality: Vec<i32> = Vec::new();
        quality.push(image_quality);
        assert(quality@ =~= seq![image_quality]);
        config.custom_image_quality = quality;
        self.config = config;
        Message::Misc(Misc::Options(option))
    }

    /// Sets the image quality in the stored configuration, and asks the
    /// peer for it where it is a named level.
    pub fn save_image_quality(&mut self, loaded: PeerConfig, value: String) -> (r: Option<Message>)
        ensures
            r == match spec_image_quality_enum(value@, false) {
                Some(q) => Some(
                    spec_option_message(
                        OptionMessage { image_quality: q, ..OptionMessage::spec_new() },
                    ),
                ),
                None => None,
            },
            final(self)@ == (LoginView {
                config: ConfigView { image_quality: value@, ..loaded@ },
                ..old(self)@
            }),
    {
        let r = match get_image_quality_enum(value.as_str(), false) {
            Some(q) => {
                let mut option = OptionMessage::new();
                option.image_quality = q;
                Some(Message::Misc(Misc::Options(option)))
            },
            None => None,
        };
        let mut config = loaded;
        config.image_quality = value;
        self.config = config;
        r
    }

    /// Asks the peer for a custom rate and takes note of it; with
    /// `save_config` the rate also becomes the option `custom-fps` of the
    /// stored configuration, else the session's configuration stays.
    pub fn set_custom_fps(&mut self, loaded: PeerConfig, fps: i32, save_config: bool) -> (r:
        Message)
        ensures
            r == spec_option_message(OptionMessage { custom_fps: fps, ..OptionMessage::spec_new() }),
            final(self)@ == (LoginView {
                config: if save_config {
                    ConfigView {
                        options: loaded@.options.insert("custom-fps"@, spec_decimal(fps as int)),
                        ..loaded@
                    }
                } else {
                    old(self)@.config
                },
                custom_fps: Some(fps),
                ..old(self)@
            }),
    {
        let mut option = OptionMessage::new();
        option.custom_fps = fps;
        if save_config {
            let mut config = loaded;
            config.options.insert("custom-fps".to_owned(), decimal(fps));
            self.config = config;
        }
        self.custom_fps = Some(fps);
        Message::Misc(Misc::Options(option))
    }

    /// The options that go with a login. `loaded` is the configuration as
    /// stored, `public_server` says whether the public servers are in use,
    /// `with_fps` whether the interface lets the user set a rate. A custom
    /// rate that is sent is also noted in the session.
    pub fn get_option_message(
        &mut self,
        loaded: &PeerConfig,
        public_server: bool,
        with_fps: bool,
        ignore_default: bool,
    ) -> (r: Option<OptionMessage>)
        ensures
            r == spec_login_options(old(self)@, loaded@, public_server, with_fps, ignore_default),
            final(self)@ == (LoginView {
                custom_fps: if spec_sends_custom_fps(old(self)@, ignore_default, with_fps) {
                    Some(r->Some_0.custom_fps)
                } else {
                    old(self)@.custom_fps
                },
                ..old(self)@
            }),
    {
        if without_options(self.conn_type) {
            return None;
        }
        let allow_more = !public_server || self.direct == Some(true);
        let mut msg = switch_options(self.config.toggles);
        match get_image_quality_enum(self.config.image_quality.as_str(), ignore_default) {
            Some(q) => {
                msg.image_quality = q;
            },
            None => {
                if str_eq(self.config.image_quality.as_str(), "custom") {
                    let quality = custom_quality(&loaded.custom_image_quality, allow_more);
                    msg.custom_image_quality = quality << 8;
                    if with_fps {
                        let fps = stored_custom_fps(&self.config.options, allow_more);
                        if let Some(fps) = fps {
                            msg.custom_fps = fps;
                            self.custom_fps = Some(fps);
                        }
                    }
                }
            },
        }
        Some(msg)
    }

    /// The options that follow a login: a peer older than `since` applies
    /// privacy mode only when asked again, so it is asked where the switch
    /// is on.
    pub fn get_option_message_after_login(&self, since: i64) -> (r: Option<OptionMessage>)
        ensures
            r == if !spec_without_options(self@.conn_type) && self@.version < since
                && self@.config.toggles.privacy_mode {
                Some(OptionMessage { privacy_mode: BoolOption::Yes, ..OptionMessage::spec_new() })
            } else {
                None
            },
    {
        if without_options(self.conn_type) {
            return None;
        }
        if self.version < since && self.config.toggles.privacy_mode {
            let mut msg = OptionMessage::new();
            msg.privacy_mode = BoolOption::Yes;
            Some(msg)
        } else {
            None
        }
    }
}

} // verus!
