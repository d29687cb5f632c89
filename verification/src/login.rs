//! The login configuration handler: what a session knows of its peer, its
//! options and its credentials.
//!
//! Every change to the stored configuration starts from the configuration
//! as it was just loaded and leaves the one to store in the handler.

use vstd::prelude::*;
use crate::config::{ConfigView, PeerConfig, PeerInfoSerde, Resolution};
use crate::connect::{is_public_server, public_server};
use crate::json::{json_object_text, pairs_view, write_object};
use crate::message::{Message, OptionMessage};
use crate::options::spec_option_message;
use crate::password::{base64_encode, base64_encoded, PasswordSource, SourceView};
use crate::peer_id::SessionTarget;
use crate::rendezvous::ConnType;
use crate::strmap::{spec_get_or_empty, StrMap};
use crate::text::bytes_eq;
use crate::video::{marks_after, CodecFormat, VideoPipeline};

verus! {

/// The salt and the challenge that the peer sent for this login.
#[derive(Debug)]
pub struct LoginHash {
    pub salt: String,
    pub challenge: String,
}

/// What the peer says it can do.
#[derive(Clone, Copy, Debug, PartialEq, Eq, Structural)]
pub struct Features {
    pub privacy_mode: bool,
}

/// The encodings that the peer can produce.
#[derive(Clone, Copy, Debug, PartialEq, Eq, Structural)]
pub struct SupportedEncoding {
    pub h264: bool,
    pub h265: bool,
    pub vp8: bool,
    pub av1: bool,
}

/// What the peer tells of itself once the session is open.
#[derive(Debug)]
pub struct PeerInfo {
    pub username: String,
    pub hostname: String,
    pub platform: String,
    pub version: String,
    pub features: Option<Features>,
    pub encoding: Option<SupportedEncoding>,
}

/// The state of one session's login.
#[derive(Debug)]
pub struct LoginConfigHandler {
    pub id: String,
    pub conn_type: ConnType,
    pub hash: LoginHash,
    /// The password of this session, hashed with the salt; kept for
    /// reconnecting.
    pub password: Vec<u8>,
    pub remember: bool,
    pub config: PeerConfig,
    pub port_forward: (String, i32),
    pub version: i64,
    pub features: Option<Features>,
    pub session_id: u64,
    pub supported_encoding: SupportedEncoding,
    pub restarting_remote_device: bool,
    pub force_relay: bool,
    pub direct: Option<bool>,
    pub received: bool,
    pub switch_uuid: Option<String>,
    pub save_ab_password_to_recent: bool,
    /// The peer's own id, the server and the key, where the id named a
    /// server.
    pub other_server: Option<(String, String, String)>,
    pub custom_fps: Option<i32>,
    pub adapter_luid: Option<i64>,
    pub mark_unsupported: Vec<CodecFormat>,
    pub selected_windows_session_id: Option<u32>,
    pub password_source: PasswordSource,
    pub shared_password: Option<String>,
}

/// The state of one session's login, as plain values.
pub struct LoginView {
    pub id: Seq<char>,
    pub conn_type: ConnType,
    pub salt: Seq<char>,
    pub challenge: Seq<char>,
    pub password: Seq<u8>,
    pub remember: bool,
    pub config: ConfigView,
    pub port_forward: (Seq<char>, i32),
    pub version: i64,
    pub features: Option<Features>,
    pub session_id: u64,
    pub supported_encoding: SupportedEncoding,
    pub restarting_remote_device: bool,
    pub force_relay: bool,
    pub direct: Option<bool>,
    pub received: bool,
    pub switch_uuid: Option<Seq<char>>,
    pub save_ab_password_to_recent: bool,
    pub other_server: Option<(Seq<char>, Seq<char>, Seq<char>)>,
    pub custom_fps: Option<i32>,
    pub adapter_luid: Option<i64>,
    pub mark_unsupported: Seq<CodecFormat>,
    pub selected_windows_session_id: Option<u32>,
    pub password_source: SourceView,
    pub shared_password: Option<Seq<char>>,
}

/// An optional text, as plain values.
pub open spec fn text_of(s: Option<String>) -> Option<Seq<char>> {
    match s {
        Some(t) => Some(t@),
        None => None,
    }
}

/// An optional triple of texts, as plain values.
pub open spec fn triple_of(s: Option<(String, String, String)>) -> Option<
    (Seq<char>, Seq<char>, Seq<char>),
> {
    match s {
        Some((a, b, c)) => Some((a@, b@, c@)),
        None => None,
    }
}

impl LoginView {
    /// A handler before any session.
    pub open spec fn empty() -> LoginView {
        LoginView {
            id: Seq::empty(),
            conn_type: ConnType::DefaultConn,
            salt: Seq::empty(),
            challenge: Seq::empty(),
            password: Seq::empty(),
            remember: false,
            config: ConfigView::empty(),
            port_forward: (Seq::empty(), 0i32),
            version: 0,
            features: None,
            session_id: 0,
            supported_encoding: SupportedEncoding {
                h264: false,
                h265: false,
                vp8: false,
                av1: false,
            },
            restarting_remote_device: false,
            force_relay: false,
            direct: None,
            received: false,
            switch_uuid: None,
            save_ab_password_to_recent: false,
            other_server: None,
            custom_fps: None,
            adapter_luid: None,
            mark_unsupported: Seq::empty(),
            selected_windows_session_id: None,
            password_source: SourceView::Undefined,
            shared_password: None,
        }
    }
}

impl View for LoginConfigHandler {
    type V = LoginView;

    open spec fn view(&self) -> LoginView {
        LoginView {
            id: self.id@,
            conn_type: self.conn_type,
            salt: self.hash.salt@,
            challenge: self.hash.challenge@,
            password: self.password@,
            remember: self.remember,
            config: self.config@,
            port_forward: (self.port_forward.0@, self.port_forward.1),
            version: self.version,
            features: self.features,
            session_id: self.session_id,
            supported_encoding: self.supported_encoding,
            restarting_remote_device: self.restarting_remote_device,
            force_relay: self.force_relay,
            direct: self.direct,
            received: self.received,
            switch_uuid: text_of(self.switch_uuid),
            save_ab_password_to_recent: self.save_ab_password_to_recent,
            other_server: triple_of(self.other_server),
            custom_fps: self.custom_fps,
            adapter_luid: self.adapter_luid,
            mark_unsupported: self.mark_unsupported@,
            selected_windows_session_id: self.selected_windows_session_id,
            password_source: self.password_source@,
            shared_password: text_of(self.shared_password),
        }
    }
}

impl LoginConfigHandler {
    /// The value of option `k`, or the empty text where it is unset.
    pub fn get_option(&self, k: &str) -> (r: String)
        ensures
            r@ == spec_get_or_empty(self@.config.options, k@),
    {
        self.config.options.get_or_empty(k)
    }

    /// The value of the interface setting `k`, or the empty text where it
    /// is unset.
    pub fn get_ui_flutter(&self, k: &str) -> (r: String)
        ensures
            r@ == spec_get_or_empty(self@.config.ui_flutter, k@),
    {
        self.config.ui_flutter.get_or_empty(k)
    }

    /// Whether the peer said that it supports privacy mode.
    pub fn is_privacy_mode_supported(&self) -> (r: bool)
        ensures
            r == match self@.features {
                Some(features) => features.privacy_mode,
                None => false,
            },
    {
        match self.features {
            Some(features) => features.privacy_mode,
            None => false,
        }
    }

    /// The resolution that the user chose for `display`.
    pub fn get_custom_resolution(&self, display: i32) -> (r: Option<(i32, i32)>)
        ensures
            r == if self@.config.custom_resolutions.contains_key(display) {
                Some(
                    (
                        self@.config.custom_resolutions[display].w,
                        self@.config.custom_resolutions[display].h,
                    ),
                )
            } else {
                None
            },
    {
        broadcast use vstd::std_specs::hash::group_hash_axioms;

        match self.config.custom_resolutions.get(&display) {
            Some(r) => Some((r.w, r.h)),
            None => None,
        }
    }

    /// The name of the peer's user: the one that `pi` gives, or the
    /// remembered one where `pi` gives none.
    pub fn get_username(&self, pi: &PeerInfo) -> (r: String)
        ensures
            r@ == if pi.username@.len() == 0 {
                self@.config.username
            } else {
                pi.username@
            },
    {
        if pi.username.as_str().is_empty() {
            self.config.info.username.clone()
        } else {
            pi.username.clone()
        }
    }

    /// The password to log into the peer's operating system with, where
    /// that is to happen without asking: the option `os-password`, if it
    /// is set, the option `auto-login` is set and the peer is locked after
    /// each session. Empty otherwise.
    pub fn should_auto_login(&self) -> (r: String)
        ensures
            r@ == if spec_get_or_empty(self@.config.options, "os-password"@).len() > 0
                && self@.config.toggles.lock_after_session_end && spec_get_or_empty(
                self@.config.options,
                "auto-login"@,
            ).len() > 0 {
                spec_get_or_empty(self@.config.options, "os-password"@)
            } else {
                Seq::<char>::empty()
            },
    {
        let l = self.config.toggles.lock_after_session_end;
        let a = !self.get_option("auto-login").as_str().is_empty();
        let p = self.get_option("os-password");
        if !p.as_str().is_empty() && l && a {
            p
        } else {
            String::new()
        }
    }

    /// Notes whether the session is direct.
    pub fn update_direct(&mut self, direct: Option<bool>)
        ensures
            final(self)@ == (LoginView { direct, ..old(self)@ }),
    {
        self.direct = direct;
    }

    /// Notes whether anything was received from the peer.
    pub fn update_received(&mut self, received: bool)
        ensures
            final(self)@ == (LoginView { received, ..old(self)@ }),
    {
        self.received = received;
    }

    /// The session's configuration, to be changed in place.
    pub fn get_config(&mut self) -> (r: &mut PeerConfig)
        ensures
            *r == old(self).config,
            final(self)@ == (LoginView { config: (*final(r))@, ..old(self)@ }),
    {
        &mut self.config
    }

    /// Keeps `config` as the session's configuration; the caller stores
    /// it.
    pub fn save_config(&mut self, config: PeerConfig)
        ensures
            final(self)@ == (LoginView { config: config@, ..old(self)@ }),
    {
        self.config = config;
    }

    /// Sets option `k` to `v` in the stored configuration.
    pub fn set_option(&mut self, loaded: PeerConfig, k: String, v: String)
        ensures
            final(self)@ == (LoginView {
                config: ConfigView { options: loaded@.options.insert(k@, v@), ..loaded@ },
                ..old(self)@
            }),
    {
        let mut config = loaded;
        config.options.insert(k, v);
        self.config = config;
    }

    /// Sets the view style in the stored configuration.
    pub fn save_view_style(&mut self, loaded: PeerConfig, value: String)
        ensures
            final(self)@ == (LoginView {
                config: ConfigView { view_style: value@, ..loaded@ },
                ..old(self)@
            }),
    {
        let mut config = loaded;
        config.view_style = value;
        self.config = config;
    }

    /// Sets the keyboard mode in the stored configuration.
    pub fn save_keyboard_mode(&mut self, loaded: PeerConfig, value: String)
        ensures
            final(self)@ == (LoginView {
                config: ConfigView { keyboard_mode: value@, ..loaded@ },
                ..old(self)@
            }),
    {
        let mut config = loaded;
        config.keyboard_mode = value;
        self.config = config;
    }

    /// Sets whether the mouse wheel is reversed (`Y` or empty) in the
    /// stored configuration.
    pub fn save_reverse_mouse_wheel(&mut self, loaded: PeerConfig, value: String)
        ensures
            final(self)@ == (LoginView {
                config: ConfigView { reverse_mouse_wheel: value@, ..loaded@ },
                ..old(self)@
            }),
    {
        let mut config = loaded;
        config.reverse_mouse_wheel = value;
        self.config = config;
    }

    /// Sets whether each display gets a window of its own (`Y` or empty) in
    /// the stored configuration.
    pub fn save_displays_as_individual_windows(&mut self, loaded: PeerConfig, value: String)
        ensures
            final(self)@ == (LoginView {
                config: ConfigView { displays_as_individual_windows: value@, ..loaded@ },
                ..old(self)@
            }),
    {
        let mut config = loaded;
        config.displays_as_individual_windows = value;
        self.config = config;
    }

    /// Sets whether all local displays are used for the session (`Y` or
    /// empty) in the stored configuration.
    pub fn save_use_all_my_displays_for_the_remote_session(
        &mut self,
        loaded: PeerConfig,
        value: String,
    )
        ensures
            final(self)@ == (LoginView {
                config: ConfigView {
                    use_all_my_displays_for_the_remote_session: value@,
                    ..loaded@
                },
                ..old(self)@
            }),
    {
        let mut config = loaded;
        config.use_all_my_displays_for_the_remote_session = value;
        self.config = config;
    }

    /// Sets the scroll style in the stored configuration.
    pub fn save_scroll_style(&mut self, loaded: PeerConfig, value: String)
        ensures
            final(self)@ == (LoginView {
                config: ConfigView { scroll_style: value@, ..loaded@ },
                ..old(self)@
            }),
    {
        let mut config = loaded;
        config.scroll_style = value;
        self.config = config;
    }

    /// Sets the interface setting `k` to `v` in the stored configuration;
    /// an empty `v` unsets it.
    pub fn save_ui_flutter(&mut self, loaded: PeerConfig, k: String, v: String)
        ensures
            final(self)@ == (LoginView {
                config: ConfigView {
                    ui_flutter: if v@.len() == 0 {
                        loaded@.ui_flutter.remove(k@)
                    } else {
                        loaded@.ui_flutter.insert(k@, v@)
                    },
                    ..loaded@
                },
                ..old(self)@
            }),
    {
        let mut config = loaded;
        if v.as_str().is_empty() {
            config.ui_flutter.remove(k.as_str());
        } else {
            config.ui_flutter.insert(k, v);
        }
        self.config = config;
    }

    /// Sets the count of direct failures in the stored configuration.
    pub fn set_direct_failure(&mut self, loaded: PeerConfig, value: i32)
        ensures
            final(self)@ == (LoginView {
                config: ConfigView { direct_failures: value, ..loaded@ },
                ..old(self)@
            }),
    {
        let mut config = loaded;
        config.direct_failures = value;
        self.config = config;
    }

    /// Sets or unsets the resolution that the user chose for `display` in
    /// the stored configuration.
    pub fn set_custom_resolution(&mut self, loaded: PeerConfig, display: i32, wh: Option<(i32, i32)>)
        ensures
            final(self)@ == (LoginView {
                config: ConfigView {
                    custom_resolutions: match wh {
                        Some((w, h)) => loaded@.custom_resolutions.insert(
                            display,
                            Resolution { w, h },
                        ),
                        None => loaded@.custom_resolutions.remove(display),
                    },
                    ..loaded@
                },
                ..old(self)@
            }),
    {
        broadcast use vstd::std_specs::hash::group_hash_axioms;

        let mut config = loaded;
        match wh {
            Some((w, h)) => {
                config.custom_resolutions.insert(display, Resolution { w, h });
            },
            None => {
                config.custom_resolutions.remove(&display);
            },
        }
        self.config = config;
    }

    /// Marks the formats of failing decoders as unsupported. Where a mark
    /// was added, and only then, gives the message that tells the peer the
    /// supported decodings anew. No mark is ever taken away.
    pub fn mark_failing(&mut self, pipeline: &VideoPipeline) -> (r: Option<Message>)
        ensures
            final(self)@ == (LoginView {
                mark_unsupported: marks_after(pipeline@, old(self)@.mark_unsupported),
                ..old(self)@
            }),
            old(self)@.mark_unsupported.is_prefix_of(final(self)@.mark_unsupported),
            r is Some <==> final(self)@.mark_unsupported != old(self)@.mark_unsupported,
            r is Some ==> r == Some(
                spec_option_message(
                    OptionMessage { supported_decoding: true, ..OptionMessage::spec_new() },
                ),
            ),
    {
        if pipeline.mark_unsupported(&mut self.mark_unsupported) {
            Some(self.update_supported_decodings())
        } else {
            None
        }
    }
}

/// A 64-bit number drawn at random.
///
/// Trusted: calls `rand::random`. The value is random, so nothing is
/// promised of it.
#[verifier::external_body]
fn random_u64() -> (r: u64) {
    rand::random()
}

/// The session id that a random draw gives: the draw itself, or 1 where
/// the draw is 0.
pub fn session_id_from(draw: u64) -> (r: u64)
    ensures
        r != 0,
        draw != 0 ==> r == draw,
        draw == 0 ==> r == 1,
{
    if draw == 0 {
        1
    } else {
        draw
    }
}

/// A fresh session id.
pub fn fresh_session_id() -> (r: u64)
    ensures
        r != 0,
{
    session_id_from(random_u64())
}

/// The server override that a session starts with: the one that the peer
/// id gave, or the previous one where the id named no server; its key is
/// filled in from the stored option `other-server-key` where it has none.
pub open spec fn spec_initial_server(
    given: Option<(Seq<char>, Seq<char>, Seq<char>)>,
    before: Option<(Seq<char>, Seq<char>, Seq<char>)>,
    options: Map<Seq<char>, Seq<char>>,
) -> Option<(Seq<char>, Seq<char>, Seq<char>)> {
    let named = match given {
        Some(server) => Some(server),
        None => before,
    };
    match named {
        Some((id, server, key)) => {
            let stored = spec_get_or_empty(options, "other-server-key"@);
            if stored.len() > 0 && key.len() == 0 {
                Some((id, server, stored))
            } else {
                Some((id, server, key))
            }
        },
        None => None,
    }
}

/// The stored password after the peer accepted the session. With
/// `remember`, the session's password is stored if there is one, it is
/// new, and it does not come from a shared address book. Without, a
/// password from the personal address book is stored, and any other
/// stored password is forgotten.
pub open spec fn spec_reconciled_password(
    remember: bool,
    session: Seq<u8>,
    stored: Seq<u8>,
    source: SourceView,
    salt: Seq<char>,
) -> Seq<u8> {
    if remember {
        if session.len() > 0 && session != stored && !source.is_shared_ab(session, salt) {
            session
        } else {
            stored
        }
    } else {
        if source.is_personal_ab(session) {
            session
        } else {
            Seq::empty()
        }
    }
}

/// Whether the peer can work with the keyboard modes in question, as the
/// application's table of modes says for the peer's version and platform.
#[derive(Clone, Copy, Debug, PartialEq, Eq, Structural)]
pub struct KeyboardSupport {
    /// Whether the peer supports the mode `map`.
    pub map: bool,
    /// Whether the peer supports the mode that is stored for it.
    pub stored: bool,
}

/// The keyboard mode after the peer told of itself: without a stored mode,
/// `map` where the peer supports it and `legacy` where not; a stored mode
/// that the peer does not support gives way to `legacy`.
pub open spec fn spec_keyboard_mode(stored: Seq<char>, support: KeyboardSupport) -> Seq<char> {
    if stored.len() == 0 {
        if support.map {
            "map"@
        } else {
            "legacy"@
        }
    } else if !support.stored {
        "legacy"@
    } else {
        stored
    }
}

/// The options after the peer told of itself: a server override other than
/// the public one has its key stored, and a forced relay is stored too.
pub open spec fn spec_options_after_peer_info(
    options: Map<Seq<char>, Seq<char>>,
    other_server: Option<(Seq<char>, Seq<char>, Seq<char>)>,
    force_relay: bool,
) -> Map<Seq<char>, Seq<char>> {
    let with_key = match other_server {
        Some((_, server, key)) => if server != public_server() {
            options.insert("other-server-key"@, key)
        } else {
            options
        },
        None => options,
    };
    if force_relay {
        with_key.insert("force-always-relay"@, "Y"@)
    } else {
        with_key
    }
}

/// The stored password that is to be copied to the personal address book,
/// if any: one that is there and comes from no address book.
pub open spec fn spec_password_to_sync(stored: Seq<u8>, session: Seq<u8>, source: SourceView, salt: Seq<
    char,
>) -> Option<Seq<u8>> {
    if stored.len() > 0 && !source.is_shared_ab(session, salt) && !source.is_personal_ab(session) {
        Some(stored)
    } else {
        None
    }
}

/// The members of the event that asks the application to copy a peer's
/// password hash to the personal address book.
pub open spec fn spec_sync_event(id: Seq<char>, password: Seq<u8>) -> Seq<(Seq<char>, Seq<char>)> {
    seq![
        ("name"@, "sync_peer_hash_password_to_personal_ab"@),
        ("id"@, id),
        ("hash"@, base64_encoded(password)),
    ]
}

/// The event that asks the application to copy a peer's password hash to
/// the personal address book, as JSON.
pub fn sync_event(id: &str, password: &[u8]) -> (r: String)
    ensures
        r@ == json_object_text(spec_sync_event(id@, password@)),
{
    let mut members: Vec<(String, String)> = Vec::new();
    members.push(("name".to_owned(), "sync_peer_hash_password_to_personal_ab".to_owned()));
    members.push(("id".to_owned(), id.to_owned()));
    members.push(("hash".to_owned(), base64_encode(password)));
    assert(pairs_view(members@) =~= spec_sync_event(id@, password@));
    write_object(&members)
}

impl LoginConfigHandler {
    /// A handler before any session: nothing known, nothing set.
    pub fn new() -> (r: Self)
        ensures
            r@ == LoginView::empty(),
    {
        let r = LoginConfigHandler {
            id: String::new(),
            conn_type: ConnType::DefaultConn,
            hash: LoginHash { salt: String::new(), challenge: String::new() },
            password: Vec::new(),
            remember: false,
            config: PeerConfig::new(),
            port_forward: (String::new(), 0),
            version: 0,
            features: None,
            session_id: 0,
            supported_encoding: SupportedEncoding {
                h264: false,
                h265: false,
                vp8: false,
                av1: false,
            },
            restarting_remote_device: false,
            force_relay: false,
            direct: None,
            received: false,
            switch_uuid: None,
            save_ab_password_to_recent: false,
            other_server: None,
            custom_fps: None,
            adapter_luid: None,
            mark_unsupported: Vec::new(),
            selected_windows_session_id: None,
            password_source: PasswordSource::Undefined,
            shared_password: None,
        };
        assert(r@.password =~= Seq::empty());
        assert(r@.mark_unsupported =~= Seq::empty());
        r
    }

    /// The stored password after the peer accepted the session.
    fn reconciled_password(&self, stored: &Vec<u8>) -> (r: Vec<u8>)
        ensures
            r@ == spec_reconciled_password(
                self@.remember,
                self@.password,
                stored@,
                self@.password_source,
                self@.salt,
            ),
    {
        let session = self.password.as_slice();
        if self.remember {
            if session.len() > 0 && !bytes_eq(session, stored.as_slice())
                && !self.password_source.is_shared_ab(session, self.hash.salt.as_str()) {
                self.password.clone()
            } else {
                stored.clone()
            }
        } else {
            if self.password_source.is_personal_ab(session) {
                self.password.clone()
            } else {
                Vec::new()
            }
        }
    }

    /// Stores what follows from the session's server override and relay
    /// choice in `options`.
    fn note_server(&self, options: &mut StrMap)
        ensures
            final(options)@ == spec_options_after_peer_info(
                old(options)@,
                self@.other_server,
                self@.force_relay,
            ),
    {
        match &self.other_server {
            Some((_, server, key)) => {
                if !is_public_server(server.as_str()) {
                    options.insert("other-server-key".to_owned(), key.clone());
                }
            },
            None => {},
        }
        if self.force_relay {
            options.insert("force-always-relay".to_owned(), "Y".to_owned());
        }
    }

    /// Starts a session with the peer that `target` names. `config` is the
    /// peer's configuration as stored under `target.id`. The session gets
    /// a fresh id, which is never 0.
    pub fn initialize(
        &mut self,
        target: SessionTarget,
        conn_type: ConnType,
        switch_uuid: Option<String>,
        adapter_luid: Option<i64>,
        shared_password: Option<String>,
        config: PeerConfig,
    )
        ensures
            final(self)@.session_id != 0,
            final(self)@ == (LoginView {
                id: target.id@,
                conn_type,
                config: config@,
                remember: config@.password.len() > 0,
                session_id: final(self)@.session_id,
                supported_encoding: SupportedEncoding {
                    h264: false,
                    h265: false,
                    vp8: false,
                    av1: false,
                },
                restarting_remote_device: false,
                force_relay: spec_get_or_empty(config@.options, "force-always-relay"@).len() > 0
                    || target.force_relay,
                other_server: spec_initial_server(
                    triple_of(target.other_server),
                    old(self)@.other_server,
                    config@.options,
                ),
                direct: None,
                received: false,
                switch_uuid: text_of(switch_uuid),
                adapter_luid,
                selected_windows_session_id: None,
                shared_password: text_of(shared_password),
                ..old(self)@
            }),
    {
        let stored_key = config.options.get_or_empty("other-server-key");
        let relay = !config.options.get_or_empty("force-always-relay").as_str().is_empty();
        let named = match target.other_server {
            Some(server) => Some(server),
            None => self.other_server.take(),
        };
        self.other_server = match named {
            Some((id, server, key)) => {
                if !stored_key.as_str().is_empty() && key.as_str().is_empty() {
                    Some((id, server, stored_key))
                } else {
                    Some((id, server, key))
                }
            },
            None => None,
        };
        self.id = target.id;
        self.conn_type = conn_type;
        self.remember = config.password.len() > 0;
        self.config = config;
        self.session_id = fresh_session_id();
        self.supported_encoding = SupportedEncoding {
            h264: false,
            h265: false,
            vp8: false,
            av1: false,
        };
        self.restarting_remote_device = false;
        self.force_relay = relay || target.force_relay;
        self.direct = None;
        self.received = false;
        self.switch_uuid = switch_uuid;
        self.adapter_luid = adapter_luid;
        self.selected_windows_session_id = None;
        self.shared_password = shared_password;
    }

    /// Takes in what the peer tells of itself once the session is open.
    /// `loaded` is the configuration as stored, `version` the number that
    /// stands for `pi.version` where that is not empty. Where the stored
    /// password is to be copied to the personal address book, gives the
    /// event that asks for it.
    pub fn handle_peer_info(
        &mut self,
        pi: &PeerInfo,
        loaded: PeerConfig,
        version: i64,
        keyboard: KeyboardSupport,
    ) -> (r: Option<String>)
        ensures
            final(self)@ == (LoginView {
                version: if pi.version@.len() > 0 {
                    version
                } else {
                    old(self)@.version
                },
                features: pi.features,
                config: ConfigView {
                    username: pi.username@,
                    hostname: pi.hostname@,
                    platform: pi.platform@,
                    password: spec_reconciled_password(
                        old(self)@.remember,
                        old(self)@.password,
                        loaded@.password,
                        old(self)@.password_source,
                        old(self)@.salt,
                    ),
                    options: spec_options_after_peer_info(
                        loaded@.options,
                        old(self)@.other_server,
                        old(self)@.force_relay,
                    ),
                    keyboard_mode: spec_keyboard_mode(loaded@.keyboard_mode, keyboard),
                    ..loaded@
                },
                supported_encoding: match pi.encoding {
                    Some(encoding) => encoding,
                    None => SupportedEncoding { h264: false, h265: false, vp8: false, av1: false },
                },
                ..old(self)@
            }),
            match r {
                Some(event) => {
                    let password = spec_password_to_sync(
                        final(self)@.config.password,
                        old(self)@.password,
                        old(self)@.password_source,
                        old(self)@.salt,
                    );
                    password is Some && event@ == json_object_text(
                        spec_sync_event(old(self)@.id, password->Some_0),
                    )
                },
                None => spec_password_to_sync(
                    final(self)@.config.password,
                    old(self)@.password,
                    old(self)@.password_source,
                    old(self)@.salt,
                ) is None,
            },
    {
        if !pi.version.as_str().is_empty() {
            self.version = version;
        }
        self.features = pi.features;
        let mut config = loaded;
        config.info = PeerInfoSerde {
            username: pi.username.clone(),
            hostname: pi.hostname.clone(),
            platform: pi.platform.clone(),
        };
        config.password = self.reconciled_password(&config.password);
        self.note_server(&mut config.options);
        if config.keyboard_mode.as_str().is_empty() {
            if keyboard.map {
                config.keyboard_mode = "map".to_owned();
            } else {
                config.keyboard_mode = "legacy".to_owned();
            }
        } else if !keyboard.stored {
            config.keyboard_mode = "legacy".to_owned();
        }
        let session = self.password.as_slice();
        let sync = if config.password.len() > 0 && !self.password_source.is_shared_ab(
            session,
            self.hash.salt.as_str(),
        ) && !self.password_source.is_personal_ab(session) {
            Some(sync_event(self.id.as_str(), config.password.as_slice()))
        } else {
            None
        };
        self.config = config;
        self.supported_encoding = match pi.encoding {
            Some(encoding) => encoding,
            None => SupportedEncoding { h264: false, h265: false, vp8: false, av1: false },
        };
        sync
    }
}

} // verus!
