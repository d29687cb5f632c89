//! A peer's stored configuration, as far as the client's logic reads and
//! writes it.
//!
//! Loading and storing are the caller's. Functions that change the stored
//! configuration take the configuration as it was just loaded and leave the
//! one to store in the session's handler.

use vstd::prelude::*;
use std::collections::HashMap;
use crate::strmap::StrMap;

verus! {

/// What is remembered of the peer's identity.
#[derive(Clone, Debug)]
pub struct PeerInfoSerde {
    pub username: String,
    pub hostname: String,
    pub platform: String,
}

/// A display resolution.
#[derive(Clone, Copy, Debug, PartialEq, Eq, Structural)]
pub struct Resolution {
    pub w: i32,
    pub h: i32,
}

/// The switches of a peer's configuration, as stored.
#[derive(Clone, Copy, Debug, PartialEq, Eq, Structural)]
pub struct Toggles {
    pub show_remote_cursor: bool,
    pub follow_remote_cursor: bool,
    pub follow_remote_window: bool,
    pub disable_audio: bool,
    pub disable_clipboard: bool,
    pub lock_after_session_end: bool,
    pub privacy_mode: bool,
    pub enable_file_transfer: bool,
    pub show_quality_monitor: bool,
    pub allow_swap_key: bool,
    pub view_only: bool,
}

/// A peer's stored configuration.
#[derive(Clone, Debug)]
pub struct PeerConfig {
    /// The remembered password, hashed with the peer's salt; empty when
    /// none is remembered.
    pub password: Vec<u8>,
    pub view_style: String,
    pub scroll_style: String,
    /// One of `low`, `balanced`, `best` and `custom`.
    pub image_quality: String,
    pub custom_image_quality: Vec<i32>,
    pub toggles: Toggles,
    pub keyboard_mode: String,
    pub reverse_mouse_wheel: String,
    pub displays_as_individual_windows: String,
    pub use_all_my_displays_for_the_remote_session: String,
    pub direct_failures: i32,
    /// Resolutions chosen by the user, by display.
    pub custom_resolutions: HashMap<i32, Resolution>,
    /// Free-form options; an empty value means unset.
    pub options: StrMap,
    pub ui_flutter: StrMap,
    pub info: PeerInfoSerde,
}

/// A peer's stored configuration, as plain values.
pub struct ConfigView {
    pub password: Seq<u8>,
    pub view_style: Seq<char>,
    pub scroll_style: Seq<char>,
    pub image_quality: Seq<char>,
    pub custom_image_quality: Seq<i32>,
    pub toggles: Toggles,
    pub keyboard_mode: Seq<char>,
    pub reverse_mouse_wheel: Seq<char>,
    pub displays_as_individual_windows: Seq<char>,
    pub use_all_my_displays_for_the_remote_session: Seq<char>,
    pub direct_failures: i32,
    pub custom_resolutions: Map<i32, Resolution>,
    pub options: Map<Seq<char>, Seq<char>>,
    pub ui_flutter: Map<Seq<char>, Seq<char>>,
    pub username: Seq<char>,
    pub hostname: Seq<char>,
    pub platform: Seq<char>,
}

impl View for PeerConfig {
    type V = ConfigView;

    open spec fn view(&self) -> ConfigView {
        ConfigView {
            password: self.password@,
            view_style: self.view_style@,
            scroll_style: self.scroll_style@,
            image_quality: self.image_quality@,
            custom_image_quality: self.custom_image_quality@,
            toggles: self.toggles,
            keyboard_mode: self.keyboard_mode@,
            reverse_mouse_wheel: self.reverse_mouse_wheel@,
            displays_as_individual_windows: self.displays_as_individual_windows@,
            use_all_my_displays_for_the_remote_session: self.use_all_my_displays_for_the_remote_session@,
            direct_failures: self.direct_failures,
            custom_resolutions: self.custom_resolutions@,
            options: self.options@,
            ui_flutter: self.ui_flutter@,
            username: self.info.username@,
            hostname: self.info.hostname@,
            platform: self.info.platform@,
        }
    }
}

impl Toggles {
    /// All switches off.
    pub fn new() -> (r: Self)
        ensures
            r == Toggles::spec_new(),
    {
        Toggles {
            show_remote_cursor: false,
            follow_remote_cursor: false,
            follow_remote_window: false,
            disable_audio: false,
            disable_clipboard: false,
            lock_after_session_end: false,
            privacy_mode: false,
            enable_file_transfer: false,
            show_quality_monitor: false,
            allow_swap_key: false,
            view_only: false,
        }
    }

    /// All switches off.
    pub open spec fn spec_new() -> Toggles {
        Toggles {
            show_remote_cursor: false,
            follow_remote_cursor: false,
            follow_remote_window: false,
            disable_audio: false,
            disable_clipboard: false,
            lock_after_session_end: false,
            privacy_mode: false,
            enable_file_transfer: false,
            show_quality_monitor: false,
            allow_swap_key: false,
            view_only: false,
        }
    }
}

impl PeerConfig {
    /// The configuration of a peer that was never seen: nothing remembered,
    /// nothing set.
    pub fn new() -> (r: Self)
        ensures
            r@ == ConfigView::empty(),
    {
        let r = PeerConfig {
            password: Vec::new(),
            view_style: String::new(),
            scroll_style: String::new(),
            image_quality: String::new(),
            custom_image_quality: Vec::new(),
            toggles: Toggles::new(),
            keyboard_mode: String::new(),
            reverse_mouse_wheel: String::new(),
            displays_as_individual_windows: String::new(),
            use_all_my_displays_for_the_remote_session: String::new(),
            direct_failures: 0,
            custom_resolutions: HashMap::new(),
            options: StrMap::new(),
            ui_flutter: StrMap::new(),
            info: PeerInfoSerde {
                username: String::new(),
                hostname: String::new(),
                platform: String::new(),
            },
        };
        assert(r@.password =~= Seq::empty());
        assert(r@.custom_image_quality =~= Seq::empty());
        assert(r@.custom_resolutions =~= Map::empty());
        r
    }
}

impl ConfigView {
    /// The configuration of a peer that was never seen.
    pub open spec fn empty() -> ConfigView {
        ConfigView {
            password: Seq::empty(),
            view_style: Seq::empty(),
            scroll_style: Seq::empty(),
            image_quality: Seq::empty(),
            custom_image_quality: Seq::empty(),
            toggles: Toggles::spec_new(),
            keyboard_mode: Seq::empty(),
            reverse_mouse_wheel: Seq::empty(),
            displays_as_individual_windows: Seq::empty(),
            use_all_my_displays_for_the_remote_session: Seq::empty(),
            direct_failures: 0,
            custom_resolutions: Map::empty(),
            options: Map::empty(),
            ui_flutter: Map::empty(),
            username: Seq::empty(),
            hostname: Seq::empty(),
            platform: Seq::empty(),
        }
    }
}

} // verus!
