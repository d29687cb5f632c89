//! The switches of a session and what toggling them does.
//!
//! A switch is toggled by name. Most names stand for a stored switch; the
//! peer is told of the change. View-only forces the switches that depend
//! on it for as long as it is on.

use vstd::prelude::*;
use crate::config::{ConfigView, PeerConfig, Toggles};
use crate::login::{LoginConfigHandler, LoginView};
use crate::message::{BoolOption, OptionMessage};
use crate::strmap::spec_get_or_empty;
use crate::text::str_eq;

verus! {

/// The stored value of a switch: a named switch of the configuration, or
/// for any other name whether the option of that name is set.
pub open spec fn spec_stored_toggle(config: ConfigView, name: Seq<char>) -> bool {
    if name == "show-remote-cursor"@ {
        config.toggles.show_remote_cursor
    } else if name == "lock-after-session-end"@ {
        config.toggles.lock_after_session_end
    } else if name == "privacy-mode"@ {
        config.toggles.privacy_mode
    } else if name == "enable-file-transfer"@ {
        config.toggles.enable_file_transfer
    } else if name == "disable-audio"@ {
        config.toggles.disable_audio
    } else if name == "disable-clipboard"@ {
        config.toggles.disable_clipboard
    } else if name == "show-quality-monitor"@ {
        config.toggles.show_quality_monitor
    } else if name == "allow_swap_key"@ {
        config.toggles.allow_swap_key
    } else if name == "view-only"@ {
        config.toggles.view_only
    } else if name == "follow-remote-cursor"@ {
        config.toggles.follow_remote_cursor
    } else if name == "follow-remote-window"@ {
        config.toggles.follow_remote_window
    } else {
        spec_get_or_empty(config.options, name).len() > 0
    }
}

/// What view-only forces a switch to, for the switches that it forces.
pub open spec fn spec_forced_by_view_only(name: Seq<char>) -> Option<bool> {
    if name == "disable-keyboard"@ {
        Some(true)
    } else if name == "disable-clipboard"@ {
        Some(true)
    } else if name == "show-remote-cursor"@ {
        Some(true)
    } else if name == "enable-file-transfer"@ {
        Some(false)
    } else if name == "lock-after-session-end"@ {
        Some(false)
    } else {
        None
    }
}

/// The value of a switch as the session applies it: while view-only is on,
/// the switches that it forces have their forced value; every other switch,
/// and every switch while view-only is off, has its stored value.
pub open spec fn spec_toggle_option(config: ConfigView, name: Seq<char>) -> bool {
    if config.toggles.view_only && spec_forced_by_view_only(name) is Some {
        spec_forced_by_view_only(name)->Some_0
    } else {
        spec_stored_toggle(config, name)
    }
}

/// The switches that can be toggled by name.
#[derive(Clone, Copy, Debug, PartialEq, Eq, Structural)]
pub enum ToggleName {
    ShowRemoteCursor,
    FollowRemoteCursor,
    FollowRemoteWindow,
    DisableAudio,
    DisableClipboard,
    LockAfterSessionEnd,
    PrivacyMode,
    EnableFileTransfer,
    BlockInput,
    UnblockInput,
    ShowQualityMonitor,
    AllowSwapKey,
    ViewOnly,
    /// Any other name: a free-form option.
    Other,
}

/// The switch that a name stands for.
pub open spec fn spec_toggle_name(name: Seq<char>) -> ToggleName {
    if name == "show-remote-cursor"@ {
        ToggleName::ShowRemoteCursor
    } else if name == "follow-remote-cursor"@ {
        ToggleName::FollowRemoteCursor
    } else if name == "follow-remote-window"@ {
        ToggleName::FollowRemoteWindow
    } else if name == "disable-audio"@ {
        ToggleName::DisableAudio
    } else if name == "disable-clipboard"@ {
        ToggleName::DisableClipboard
    } else if name == "lock-after-session-end"@ {
        ToggleName::LockAfterSessionEnd
    } else if name == "privacy-mode"@ {
        ToggleName::PrivacyMode
    } else if name == "enable-file-transfer"@ {
        ToggleName::EnableFileTransfer
    } else if name == "block-input"@ {
        ToggleName::BlockInput
    } else if name == "unblock-input"@ {
        ToggleName::UnblockInput
    } else if name == "show-quality-monitor"@ {
        ToggleName::ShowQualityMonitor
    } else if name == "allow_swap_key"@ {
        ToggleName::AllowSwapKey
    } else if name == "view-only"@ {
        ToggleName::ViewOnly
    } else {
        ToggleName::Other
    }
}

/// The switch that a name stands for.
pub fn toggle_name(name: &str) -> (r: ToggleName)
    ensures
        r == spec_toggle_name(name@),
{
    if str_eq(name, "show-remote-cursor") {
        ToggleName::ShowRemoteCursor
    } else if str_eq(name, "follow-remote-cursor") {
        ToggleName::FollowRemoteCursor
    } else if str_eq(name, "follow-remote-window") {
        ToggleName::FollowRemoteWindow
    } else if str_eq(name, "disable-audio") {
        ToggleName::DisableAudio
    } else if str_eq(name, "disable-clipboard") {
        ToggleName::DisableClipboard
    } else if str_eq(name, "lock-after-session-end") {
        ToggleName::LockAfterSessionEnd
    } else if str_eq(name, "privacy-mode") {
        ToggleName::PrivacyMode
    } else if str_eq(name, "enable-file-transfer") {
        ToggleName::EnableFileTransfer
    } else if str_eq(name, "block-input") {
        ToggleName::BlockInput
    } else if str_eq(name, "unblock-input") {
        ToggleName::UnblockInput
    } else if str_eq(name, "show-quality-monitor") {
        ToggleName::ShowQualityMonitor
    } else if str_eq(name, "allow_swap_key") {
        ToggleName::AllowSwapKey
    } else if str_eq(name, "view-only") {
        ToggleName::ViewOnly
    } else {
        ToggleName::Other
    }
}

/// The stored switches after `which` was toggled. The peer decides on
/// privacy mode and on blocking input, so those leave the switches alone.
pub open spec fn spec_toggled(t: Toggles, which: ToggleName) -> Toggles {
    match which {
        ToggleName::ShowRemoteCursor => Toggles { show_remote_cursor: !t.show_remote_cursor, ..t },
        ToggleName::FollowRemoteCursor => Toggles {
            follow_remote_cursor: !t.follow_remote_cursor,
            ..t
        },
        ToggleName::FollowRemoteWindow => Toggles {
            follow_remote_window: !t.follow_remote_window,
            ..t
        },
        ToggleName::DisableAudio => Toggles { disable_audio: !t.disable_audio, ..t },
        ToggleName::DisableClipboard => Toggles { disable_clipboard: !t.disable_clipboard, ..t },
        ToggleName::LockAfterSessionEnd => Toggles {
            lock_after_session_end: !t.lock_after_session_end,
            ..t
        },
        ToggleName::EnableFileTransfer => Toggles {
            enable_file_transfer: !t.enable_file_transfer,
            ..t
        },
        ToggleName::ShowQualityMonitor => Toggles {
            show_quality_monitor: !t.show_quality_monitor,
            ..t
        },
        ToggleName::AllowSwapKey => Toggles { allow_swap_key: !t.allow_swap_key, ..t },
        ToggleName::ViewOnly => Toggles { view_only: !t.view_only, ..t },
        _ => t,
    }
}

/// The options after the free-form option `name` was toggled: a set one is
/// removed, an unset one becomes `Y`.
pub open spec fn spec_toggled_options(options: Map<Seq<char>, Seq<char>>, name: Seq<char>) -> Map<
    Seq<char>,
    Seq<char>,
> {
    if spec_get_or_empty(options, name).len() > 0 {
        options.remove(name)
    } else {
        options.insert(name, "Y"@)
    }
}

/// The configuration that the session keeps after the switch `which` was
/// toggled: the stored one with the switch toggled, but for the requests to
/// block and unblock input, which change nothing.
pub open spec fn spec_switch_config(loaded: ConfigView, kept: ConfigView, which: ToggleName)
    -> ConfigView {
    match which {
        ToggleName::BlockInput => kept,
        ToggleName::UnblockInput => kept,
        _ => ConfigView { toggles: spec_toggled(loaded.toggles, which), ..loaded },
    }
}

/// The configuration that the session keeps after `name` was toggled.
/// `loaded` is the configuration as stored, `kept` the one that the session
/// kept so far. A named switch is toggled in the stored configuration; any
/// other name toggles a free-form option of the kept configuration.
pub open spec fn spec_toggle_config(loaded: ConfigView, kept: ConfigView, name: Seq<char>)
    -> ConfigView {
    if spec_toggle_name(name) == ToggleName::Other {
        ConfigView { options: spec_toggled_options(kept.options, name), ..kept }
    } else {
        spec_switch_config(loaded, kept, spec_toggle_name(name))
    }
}

/// Whether the kept configuration is to be stored after `name` was
/// toggled: always, but for the requests to block and unblock input.
pub open spec fn spec_toggle_stores(name: Seq<char>) -> bool {
    spec_toggle_name(name) != ToggleName::BlockInput && spec_toggle_name(name)
        != ToggleName::UnblockInput
}

/// The options that the peer is asked to apply after `which` was toggled,
/// if it is asked anything. Turning view-only on forces the switches that
/// depend on it; turning it off gives them back the values that the
/// session kept.
pub open spec fn spec_toggle_message(loaded: ConfigView, kept: ConfigView, which: ToggleName)
    -> Option<OptionMessage> {
    spec_toggle_switches_message(loaded.toggles, kept.toggles, which)
}

/// The options that the peer is asked to apply after `which` was toggled,
/// from the switches as stored and as the session kept them.
pub open spec fn spec_toggle_switches_message(loaded: Toggles, kept: Toggles, which: ToggleName)
    -> Option<OptionMessage> {
    let now = spec_toggled(loaded, which);
    let none = OptionMessage::spec_new();
    match which {
        ToggleName::ShowRemoteCursor => Some(
            OptionMessage { show_remote_cursor: BoolOption::spec_of(now.show_remote_cursor), ..none },
        ),
        ToggleName::FollowRemoteCursor => Some(
            OptionMessage {
                follow_remote_cursor: BoolOption::spec_of(now.follow_remote_cursor),
                ..none
            },
        ),
        ToggleName::FollowRemoteWindow => Some(
            OptionMessage {
                follow_remote_window: BoolOption::spec_of(now.follow_remote_window),
                ..none
            },
        ),
        ToggleName::DisableAudio => Some(
            OptionMessage { disable_audio: BoolOption::spec_of(now.disable_audio), ..none },
        ),
        ToggleName::DisableClipboard => Some(
            OptionMessage { disable_clipboard: BoolOption::spec_of(now.disable_clipboard), ..none },
        ),
        ToggleName::LockAfterSessionEnd => Some(
            OptionMessage {
                lock_after_session_end: BoolOption::spec_of(now.lock_after_session_end),
                ..none
            },
        ),
        ToggleName::PrivacyMode => Some(
            OptionMessage { privacy_mode: BoolOption::spec_of(!loaded.privacy_mode), ..none },
        ),
        ToggleName::EnableFileTransfer => Some(
            OptionMessage {
                enable_file_transfer: BoolOption::spec_of(now.enable_file_transfer),
                ..none
            },
        ),
        ToggleName::BlockInput => Some(OptionMessage { block_input: BoolOption::Yes, ..none }),
        ToggleName::UnblockInput => Some(OptionMessage { block_input: BoolOption::No, ..none }),
        ToggleName::ShowQualityMonitor => Some(none),
        ToggleName::AllowSwapKey => Some(none),
        ToggleName::ViewOnly => if now.view_only {
            Some(
                OptionMessage {
                    disable_keyboard: BoolOption::Yes,
                    disable_clipboard: BoolOption::Yes,
                    show_remote_cursor: BoolOption::Yes,
                    enable_file_transfer: BoolOption::No,
                    lock_after_session_end: BoolOption::No,
                    ..none
                },
            )
        } else {
            Some(
                OptionMessage {
                    disable_keyboard: BoolOption::No,
                    disable_clipboard: BoolOption::spec_of(kept.disable_clipboard),
                    show_remote_cursor: BoolOption::spec_of(kept.show_remote_cursor),
                    enable_file_transfer: BoolOption::spec_of(kept.enable_file_transfer),
                    lock_after_session_end: BoolOption::spec_of(kept.lock_after_session_end),
                    ..none
                },
            )
        },
        ToggleName::Other => None,
    }
}

/// What follows from toggling an option.
#[derive(Clone, Copy, Debug, PartialEq, Eq, Structural)]
pub struct Toggled {
    /// The options to send to the peer.
    pub message: Option<OptionMessage>,
    /// Whether the session's configuration is to be stored.
    pub store: bool,
}

impl LoginConfigHandler {
    /// The stored value of the switch `name`.
    pub fn stored_toggle(&self, name: &str) -> (r: bool)
        ensures
            r == spec_stored_toggle(self@.config, name@),
    {
        let t = &self.config.toggles;
        if str_eq(name, "show-remote-cursor") {
            t.show_remote_cursor
        } else if str_eq(name, "lock-after-session-end") {
            t.lock_after_session_end
        } else if str_eq(name, "privacy-mode") {
            t.privacy_mode
        } else if str_eq(name, "enable-file-transfer") {
            t.enable_file_transfer
        } else if str_eq(name, "disable-audio") {
            t.disable_audio
        } else if str_eq(name, "disable-clipboard") {
            t.disable_clipboard
        } else if str_eq(name, "show-quality-monitor") {
            t.show_quality_monitor
        } else if str_eq(name, "allow_swap_key") {
            t.allow_swap_key
        } else if str_eq(name, "view-only") {
            t.view_only
        } else if str_eq(name, "follow-remote-cursor") {
            t.follow_remote_cursor
        } else if str_eq(name, "follow-remote-window") {
            t.follow_remote_window
        } else {
            !self.get_option(name).as_str().is_empty()
        }
    }

    /// The value of the switch `name` as the session applies it: while
    /// view-only is on, the switches that it forces have their forced
    /// value.
    pub fn get_toggle_option(&self, name: &str) -> (r: bool)
        ensures
            r == spec_toggle_option(self@.config, name@),
    {
        if self.config.toggles.view_only {
            if str_eq(name, "disable-keyboard") || str_eq(name, "disable-clipboard") || str_eq(
                name,
                "show-remote-cursor",
            ) {
                return true;
            }
            if str_eq(name, "enable-file-transfer") || str_eq(name, "lock-after-session-end") {
                return false;
            }
        }
        self.stored_toggle(name)
    }

    /// Toggles the free-form option `name` of the kept configuration.
    fn toggle_free_option(&mut self, name: String)
        ensures
            final(self)@ == (LoginView {
                config: ConfigView {
                    options: spec_toggled_options(old(self)@.config.options, name@),
                    ..old(self)@.config
                },
                ..old(self)@
            }),
    {
        let is_set = !self.config.options.get_or_empty(name.as_str()).as_str().is_empty();
        if is_set {
            self.config.options.remove(name.as_str());
        } else {
            self.config.options.insert(name, "Y".to_owned());
        }
    }

    /// Toggles the switch `which` in the stored configuration.
    fn toggle_switch(&mut self, loaded: PeerConfig, which: ToggleName) -> (r: Toggled)
        requires
            which != ToggleName::Other,
        ensures
            final(self)@ == (LoginView {
                config: spec_switch_config(loaded@, old(self)@.config, which),
                ..old(self)@
            }),
            r.message == spec_toggle_switches_message(
                loaded@.toggles,
                old(self)@.config.toggles,
                which,
            ),
            r.store == (which != ToggleName::BlockInput && which != ToggleName::UnblockInput),
    {
        let message = toggle_message(loaded.toggles, self.config.toggles, which);
        match which {
            ToggleName::BlockInput => Toggled { message, store: false },
            ToggleName::UnblockInput => Toggled { message, store: false },
            _ => {
                let mut config = loaded;
                config.toggles = toggled(config.toggles, which);
                self.config = config;
                Toggled { message, store: true }
            },
        }
    }

    /// Toggles the option `name`. `loaded` is the configuration as stored.
    pub fn toggle_option(&mut self, loaded: PeerConfig, name: String) -> (r: Toggled)
        ensures
            final(self)@ == (LoginView {
                config: spec_toggle_config(loaded@, old(self)@.config, name@),
                ..old(self)@
            }),
            r.message == spec_toggle_message(loaded@, old(self)@.config, spec_toggle_name(name@)),
            r.store == spec_toggle_stores(name@),
    {
        let which = toggle_name(name.as_str());
        if which == ToggleName::Other {
            self.toggle_free_option(name);
            Toggled { message: None, store: true }
        } else {
            self.toggle_switch(loaded, which)
        }
    }
}

/// The stored switches after `which` was toggled.
pub fn toggled(t: Toggles, which: ToggleName) -> (r: Toggles)
    ensures
        r == spec_toggled(t, which),
{
    let mut r = t;
    match which {
        ToggleName::ShowRemoteCursor => {
            r.show_remote_cursor = !t.show_remote_cursor;
        },
        ToggleName::FollowRemoteCursor => {
            r.follow_remote_cursor = !t.follow_remote_cursor;
        },
        ToggleName::FollowRemoteWindow => {
            r.follow_remote_window = !t.follow_remote_window;
        },
        ToggleName::DisableAudio => {
            r.disable_audio = !t.disable_audio;
        },
        ToggleName::DisableClipboard => {
            r.disable_clipboard = !t.disable_clipboard;
        },
        ToggleName::LockAfterSessionEnd => {
            r.lock_after_session_end = !t.lock_after_session_end;
        },
        ToggleName::EnableFileTransfer => {
            r.enable_file_transfer = !t.enable_file_transfer;
        },
        ToggleName::ShowQualityMonitor => {
            r.show_quality_monitor = !t.show_quality_monitor;
        },
        ToggleName::AllowSwapKey => {
            r.allow_swap_key = !t.allow_swap_key;
        },
        ToggleName::ViewOnly => {
            r.view_only = !t.view_only;
        },
        _ => {},
    }
    r
}

/// The options that the peer is asked to apply after `which` was toggled:
/// `loaded` are the switches as stored, `kept` those that the session kept
/// so far.
pub fn toggle_message(loaded: Toggles, kept: Toggles, which: ToggleName) -> (r: Option<
    OptionMessage,
>)
    ensures
        r == spec_toggle_switches_message(loaded, kept, which),
{
    let mut option = OptionMessage::new();
    match which {
        ToggleName::ShowRemoteCursor => {
            option.show_remote_cursor = BoolOption::of(!loaded.show_remote_cursor);
        },
        ToggleName::FollowRemoteCursor => {
            option.follow_remote_cursor = BoolOption::of(!loaded.follow_remote_cursor);
        },
        ToggleName::FollowRemoteWindow => {
            option.follow_remote_window = BoolOption::of(!loaded.follow_remote_window);
        },
        ToggleName::DisableAudio => {
            option.disable_audio = BoolOption::of(!loaded.disable_audio);
        },
        ToggleName::DisableClipboard => {
            option.disable_clipboard = BoolOption::of(!loaded.disable_clipboard);
        },
        ToggleName::LockAfterSessionEnd => {
            option.lock_after_session_end = BoolOption::of(!loaded.lock_after_session_end);
        },
        ToggleName::PrivacyMode => {
            option.privacy_mode = BoolOption::of(!loaded.privacy_mode);
        },
        ToggleName::EnableFileTransfer => {
            option.enable_file_transfer = BoolOption::of(!loaded.enable_file_transfer);
        },
        ToggleName::BlockInput => {
            option.block_input = BoolOption::Yes;
        },
        ToggleName::UnblockInput => {
            option.block_input = BoolOption::No;
        },
        ToggleName::ShowQualityMonitor => {},
        ToggleName::AllowSwapKey => {},
        ToggleName::ViewOnly => {
            if !loaded.view_only {
                option.disable_keyboard = BoolOption::Yes;
                option.disable_clipboard = BoolOption::Yes;
                option.show_remote_cursor = BoolOption::Yes;
                option.enable_file_transfer = BoolOption::No;
                option.lock_after_session_end = BoolOption::No;
            } else {
                option.disable_keyboard = BoolOption::No;
                option.disable_clipboard = BoolOption::of(kept.disable_clipboard);
                option.show_remote_cursor = BoolOption::of(kept.show_remote_cursor);
                option.enable_file_transfer = BoolOption::of(kept.enable_file_transfer);
                option.lock_after_session_end = BoolOption::of(kept.lock_after_session_end);
            }
        },
        ToggleName::Other => {
            return None;
        },
    }
    Some(option)
}

/// Turning view-only on forces the switches that depend on it: from then
/// on the keyboard and the clipboard count as disabled and the remote
/// cursor as shown, file transfer and locking after the session as off,
/// whatever is stored for them.
pub proof fn lemma_view_only_forces(loaded: ConfigView, kept: ConfigView)
    requires
        !loaded.toggles.view_only,
    ensures
        ({
            let after = spec_toggle_config(loaded, kept, "view-only"@);
            &&& after.toggles.view_only
            &&& spec_toggle_option(after, "view-only"@)
            &&& spec_toggle_option(after, "disable-keyboard"@)
            &&& spec_toggle_option(after, "disable-clipboard"@)
            &&& spec_toggle_option(after, "show-remote-cursor"@)
            &&& !spec_toggle_option(after, "enable-file-transfer"@)
            &&& !spec_toggle_option(after, "lock-after-session-end"@)
        }),
{
    lemma_names_differ();
}

/// Turning view-only off again gives every switch its stored value back,
/// and the stored values are those from before view-only was turned on.
pub proof fn lemma_view_only_restores(loaded: ConfigView, kept: ConfigView, name: Seq<char>)
    requires
        !loaded.toggles.view_only,
    ensures
        ({
            let on = spec_toggle_config(loaded, kept, "view-only"@);
            let off = spec_toggle_config(on, on, "view-only"@);
            &&& off == loaded
            &&& spec_toggle_option(off, name) == spec_stored_toggle(loaded, name)
        }),
{
    lemma_names_differ();
}

/// The lengths of the names that can be toggled.
proof fn lemma_names_differ()
    ensures
        "view-only"@.len() == 9,
        "show-remote-cursor"@.len() == 18,
        "follow-remote-cursor"@.len() == 20,
        "follow-remote-window"@.len() == 20,
        "disable-audio"@.len() == 13,
        "disable-clipboard"@.len() == 17,
        "disable-keyboard"@.len() == 16,
        "lock-after-session-end"@.len() == 22,
        "privacy-mode"@.len() == 12,
        "enable-file-transfer"@.len() == 20,
        "block-input"@.len() == 11,
        "unblock-input"@.len() == 13,
        "show-quality-monitor"@.len() == 20,
        "allow_swap_key"@.len() == 14,
{
    reveal_strlit("view-only");
    reveal_strlit("show-remote-cursor");
    reveal_strlit("follow-remote-cursor");
    reveal_strlit("follow-remote-window");
    reveal_strlit("disable-audio");
    reveal_strlit("disable-clipboard");
    reveal_strlit("disable-keyboard");
    reveal_strlit("lock-after-session-end");
    reveal_strlit("privacy-mode");
    reveal_strlit("enable-file-transfer");
    reveal_strlit("block-input");
    reveal_strlit("unblock-input");
    reveal_strlit("show-quality-monitor");
    reveal_strlit("allow_swap_key");
}

} // verus!
