//! Logging in: answering the peer's hash, sending what the user typed, and
//! reacting to a refused login.

use vstd::prelude::*;
use crate::config::PeerConfig;
use crate::login::{LoginConfigHandler, LoginView};
use crate::request::{spec_is_login_request, spec_noted_fps, Local};
use crate::message::{LoginRequest, SwitchSidesResponse};
use crate::password::{
    challenged, personal_hash, salted, sha256, spec_challenged, spec_personal_hash, spec_salted,
    Ab, PasswordSource, SourceView,
};
use crate::text::utf8;
use crate::strmap::spec_get_or_empty;

verus! {

/// The 16 bytes that the text of a UUID stands for, as `uuid` reads it;
/// `None` for text that is no UUID.
pub uninterp spec fn uuid_bytes(text: Seq<char>) -> Option<Seq<u8>>;

/// Reads the text of a UUID.
///
/// Trusted: calls `uuid::Uuid::from_str` and takes the bytes of the result.
/// The result depends on the text alone; the contract gives it its name
/// and says no more of it.
#[verifier::external_body]
pub(crate) fn parse_uuid(text: &str) -> (r: Option<Vec<u8>>)
    ensures
        match r {
            Some(bytes) => uuid_bytes(text@) == Some(bytes@),
            None => uuid_bytes(text@) is None,
        },
{
    match <uuid::Uuid as core::str::FromStr>::from_str(text) {
        Ok(uuid) => Some(uuid.as_bytes().to_vec()),
        Err(_) => None,
    }
}

/// The connection that a pending switch of sides names, if the session
/// has one: the stored text must read as a UUID.
pub open spec fn spec_switch(lc: LoginView) -> Option<Seq<u8>> {
    match lc.switch_uuid {
        Some(text) => uuid_bytes(text),
        None => None,
    }
}

/// The password that a session logs in with, salted, and where it came
/// from. The sources are asked in a fixed order and the first that has a
/// password wins: the session itself, the password given in advance, the
/// shared address book, the stored configuration, the personal address
/// book. `personal` is what the personal address book holds for the peer.
pub open spec fn spec_resolve(
    lc: LoginView,
    password_preset: Seq<char>,
    salt: Seq<char>,
    personal: Option<Seq<u8>>,
) -> (Seq<u8>, SourceView) {
    if lc.password.len() > 0 {
        (lc.password, lc.password_source)
    } else if password_preset.len() > 0 {
        (spec_salted(password_preset, salt), SourceView::Undefined)
    } else if lc.shared_password is Some && lc.shared_password->Some_0.len() > 0 {
        (
            spec_salted(lc.shared_password->Some_0, salt),
            SourceView::SharedAb(lc.shared_password->Some_0),
        )
    } else if lc.config.password.len() > 0 {
        (lc.config.password, SourceView::Undefined)
    } else {
        match personal {
            Some(hash) => (hash, SourceView::PersonalAb(hash)),
            None => (Seq::empty(), lc.password_source),
        }
    }
}

/// What is sent as the password of a login: the salted password hashed
/// with the challenge, or nothing where there is no password.
pub open spec fn spec_sent_password(salted: Seq<u8>, challenge: Seq<char>) -> Seq<u8> {
    if salted.len() == 0 {
        Seq::empty()
    } else {
        spec_challenged(salted, challenge)
    }
}

/// What follows from the peer's hash.
#[derive(Debug)]
pub enum HashAnswer {
    /// The peer asked to switch sides: answer with the login request.
    SwitchSides(SwitchSidesResponse),
    /// Log in. With `ask_password` no password was found: the login goes
    /// out without one, and the user is asked for the password under the
    /// title "Password Required".
    Login { request: LoginRequest, ask_password: bool },
}

impl LoginConfigHandler {
    /// Resolves the password of the session: see [`spec_resolve`]. The
    /// shared password is used up.
    fn resolve_password(&mut self, password_preset: &str, access_token: &str, ab: &Ab)
        ensures
            final(self)@ == (LoginView {
                password: spec_resolve(
                    old(self)@,
                    password_preset@,
                    old(self)@.salt,
                    spec_personal_hash(access_token@, *ab, old(self)@.id),
                ).0,
                password_source: spec_resolve(
                    old(self)@,
                    password_preset@,
                    old(self)@.salt,
                    spec_personal_hash(access_token@, *ab, old(self)@.id),
                ).1,
                shared_password: None,
                ..old(self)@
            }),
    {
        let shared = self.shared_password.take();
        if self.password.len() > 0 {
        } else if !password_preset.is_empty() {
            self.password = salted(password_preset, self.hash.salt.as_str());
            self.password_source = PasswordSource::Undefined;
        } else if shared.is_some() && !shared.as_ref().unwrap().as_str().is_empty() {
            let shared = shared.unwrap();
            self.password = salted(shared.as_str(), self.hash.salt.as_str());
            self.password_source = PasswordSource::SharedAb(shared);
        } else if self.config.password.len() > 0 {
            self.password = self.config.password.clone();
            self.password_source = PasswordSource::Undefined;
        } else {
            match personal_hash(access_token, ab, self.id.as_str()) {
                Some(hash) => {
                    self.password = hash.clone();
                    self.password_source = PasswordSource::PersonalAb(hash);
                },
                None => {
                    assert(self.password@ =~= Seq::empty());
                },
            }
        }
    }

    /// Settles the password of a login from the interface: see
    /// [`spec_after_ui_login`].
    fn settle_ui_password(&mut self, password: &str, remember: bool)
        ensures
            final(self)@ == spec_after_ui_login(old(self)@, password@, remember),
    {
        if password.is_empty() {
            if self.password.len() == 0 {
                self.password = self.config.password.clone();
                if self.password.len() > 0 {
                    self.password_source = PasswordSource::Undefined;
                }
            }
        } else {
            self.password_source = PasswordSource::Undefined;
            self.password = salted(password, self.hash.salt.as_str());
            self.remember = remember;
        }
    }
}

/// The session after the peer's hash was taken in and the password
/// resolved, before the login request is built.
pub open spec fn spec_after_hash(
    lc: LoginView,
    password_preset: Seq<char>,
    hash: crate::login::LoginHash,
    personal: Option<Seq<u8>>,
) -> LoginView {
    let with_hash = LoginView {
        salt: hash.salt@,
        challenge: hash.challenge@,
        switch_uuid: None,
        ..lc
    };
    if spec_switch(lc) is Some {
        LoginView { password_source: SourceView::Undefined, ..with_hash }
    } else {
        LoginView {
            password: spec_resolve(with_hash, password_preset, hash.salt@, personal).0,
            password_source: spec_resolve(with_hash, password_preset, hash.salt@, personal).1,
            shared_password: None,
            ..with_hash
        }
    }
}

/// Answers the hash that the peer sent. A pending switch of sides is
/// answered first and uses up the pending connection. Otherwise the
/// password is resolved in the order of [`spec_resolve`], kept for the
/// session, hashed with the challenge and sent with the credentials for
/// the peer's operating system that the options `os-username` and
/// `os-password` hold. `access_token` and `ab` are the account that is
/// logged in and its address books.
pub fn handle_hash(
    lc: &mut LoginConfigHandler,
    password_preset: &str,
    hash: crate::login::LoginHash,
    access_token: &str,
    ab: &Ab,
    local: &Local,
    loaded: &PeerConfig,
) -> (r: HashAnswer)
    ensures
        ({
            let personal = spec_personal_hash(access_token@, *ab, old(lc)@.id);
            let resolved = spec_after_hash(old(lc)@, password_preset@, hash, personal);
            &&& final(lc)@ == (LoginView {
                custom_fps: spec_noted_fps(resolved, *local, loaded@),
                ..resolved
            })
            &&& match spec_switch(old(lc)@) {
                Some(uuid) => {
                    &&& r matches HashAnswer::SwitchSides(response)
                    &&& response.uuid@ == uuid
                    &&& spec_is_login_request(
                        resolved,
                        *local,
                        loaded@,
                        Seq::empty(),
                        Seq::empty(),
                        Seq::empty(),
                        response.lr,
                    )
                },
                None => {
                    &&& r matches HashAnswer::Login { request, ask_password }
                    &&& ask_password == (resolved.password.len() == 0)
                    &&& spec_is_login_request(
                        resolved,
                        *local,
                        loaded@,
                        spec_get_or_empty(resolved.config.options, "os-username"@),
                        spec_get_or_empty(resolved.config.options, "os-password"@),
                        spec_sent_password(resolved.password, hash.challenge@),
                        request,
                    )
                },
            }
        }),
{
    let uuid = match lc.switch_uuid.take() {
        Some(text) => parse_uuid(text.as_str()),
        None => None,
    };
    lc.hash = hash;
    if let Some(uuid) = uuid {
        lc.password_source = PasswordSource::Undefined;
        let lr = lc.create_login_msg(local, loaded, String::new(), String::new(), Vec::new());
        return HashAnswer::SwitchSides(SwitchSidesResponse { uuid, lr });
    }
    lc.resolve_password(password_preset, access_token, ab);
    let ask_password = lc.password.len() == 0;
    let password = if ask_password {
        Vec::new()
    } else {
        challenged(lc.password.as_slice(), lc.hash.challenge.as_str())
    };
    let os_username = lc.get_option("os-username");
    let os_password = lc.get_option("os-password");
    let request = lc.create_login_msg(local, loaded, os_username, os_password, password);
    HashAnswer::Login { request, ask_password }
}

/// The password that goes out with a login is the SHA-256 digest of the
/// salted password and the challenge, and the salted password of a
/// password given in advance is the digest of that password and the salt:
/// where the session has no password of its own and no switch of sides is
/// pending, a password given in advance is hashed twice, provided that
/// its salted form is not empty.
pub proof fn lemma_preset_password_hashed_twice(
    lc: LoginView,
    password_preset: Seq<char>,
    hash: crate::login::LoginHash,
    personal: Option<Seq<u8>>,
)
    requires
        spec_switch(lc) is None,
        lc.password.len() == 0,
        password_preset.len() > 0,
        spec_after_hash(lc, password_preset, hash, personal).password.len() > 0,
    ensures
        spec_sent_password(
            spec_after_hash(lc, password_preset, hash, personal).password,
            hash.challenge@,
        ) == sha256(sha256(utf8(password_preset) + utf8(hash.salt@)) + utf8(hash.challenge@)),
{
}

/// The salted password that a login from the interface uses: what the user
/// typed, salted; or, where the user typed nothing, the session's
/// password, or else the stored one.
pub open spec fn spec_ui_password(lc: LoginView, password: Seq<char>) -> Seq<u8> {
    if password.len() > 0 {
        spec_salted(password, lc.salt)
    } else if lc.password.len() > 0 {
        lc.password
    } else {
        lc.config.password
    }
}

/// The session after a login from the interface, before the login request
/// is built. A typed password resets the source and decides whether
/// passwords are remembered; so does falling back on the stored password.
pub open spec fn spec_after_ui_login(lc: LoginView, password: Seq<char>, remember: bool)
    -> LoginView {
    LoginView {
        password: spec_ui_password(lc, password),
        password_source: if password.len() > 0 || (lc.password.len() == 0
            && lc.config.password.len() > 0) {
            SourceView::Undefined
        } else {
            lc.password_source
        },
        remember: if password.len() > 0 {
            remember
        } else {
            lc.remember
        },
        ..lc
    }
}

/// Logs in with what the user typed. The password that is sent is the
/// salted password hashed with the challenge.
pub fn handle_login_from_ui(
    lc: &mut LoginConfigHandler,
    os_username: String,
    os_password: String,
    password: String,
    remember: bool,
    local: &Local,
    loaded: &PeerConfig,
) -> (r: LoginRequest)
    ensures
        ({
            let resolved = spec_after_ui_login(old(lc)@, password@, remember);
            &&& final(lc)@ == (LoginView {
                custom_fps: spec_noted_fps(resolved, *local, loaded@),
                ..resolved
            })
            &&& spec_is_login_request(
                resolved,
                *local,
                loaded@,
                os_username@,
                os_password@,
                spec_challenged(resolved.password, old(lc)@.challenge),
                r,
            )
            &&& password@.len() > 0 ==> r.password@ == spec_challenged(
                spec_salted(password@, old(lc)@.salt),
                old(lc)@.challenge,
            )
        }),
{
    lc.settle_ui_password(password.as_str(), remember);
    let sent = challenged(lc.password.as_slice(), lc.hash.challenge.as_str());
    lc.create_login_msg(local, loaded, os_username, os_password, sent)
}

} // verus!
