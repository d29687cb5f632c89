//! The login request, and the remote directories that go with a file
//! transfer.

use vstd::prelude::*;
use vstd::string::StringExecFns;
use crate::config::{ConfigView, PeerConfig};
use crate::json::{json_object_members, json_object_text, pairs_view, read_object, write_object};
use crate::login::{LoginConfigHandler, LoginView};
use crate::message::{LoginPurpose, LoginRequest, OsLogin};
use crate::options::{spec_login_options, spec_sends_custom_fps};
use crate::rendezvous::ConnType;
use crate::strmap::{map_of, spec_get_or_empty, spec_put, without, StrMap};

verus! {

/// What this installation knows of itself and of its surroundings.
#[derive(Debug)]
pub struct Local {
    /// This client's own id.
    pub id: String,
    /// The name of the local user.
    pub name: String,
    /// The rendezvous server that this client is registered with.
    pub rendezvous_server: String,
    /// The version of this client.
    pub version: String,
    /// Whether the public servers are in use.
    pub public_server: bool,
    /// Whether the interface lets the user set a custom rate.
    pub custom_fps: bool,
}

/// The remote directory remembered for a user in the JSON text of the
/// option `remote_dir`; empty where the text is no object of strings or
/// knows nothing of the user.
pub open spec fn spec_remote_dir(text: Seq<char>, username: Seq<char>) -> Seq<char> {
    match json_object_members(text) {
        Some(members) => spec_get_or_empty(map_of(members), username),
        None => Seq::empty(),
    }
}

/// The members of the option `remote_dir` after `path` was noted for a
/// user: the user's member is replaced or added, or dropped where `path`
/// is empty.
pub open spec fn spec_remote_dirs_with(
    members: Seq<(Seq<char>, Seq<char>)>,
    username: Seq<char>,
    path: Seq<char>,
) -> Seq<(Seq<char>, Seq<char>)> {
    if path.len() == 0 {
        without(members, username)
    } else {
        spec_put(members, username, path)
    }
}

/// The JSON text of the option `remote_dir` after `path` was noted for a
/// user. A text that is no object of strings counts as an empty object.
pub open spec fn spec_all_remote_dir(text: Seq<char>, username: Seq<char>, path: Seq<char>) -> Seq<
    char,
> {
    json_object_text(
        spec_remote_dirs_with(
            match json_object_members(text) {
                Some(members) => members,
                None => Seq::empty(),
            },
            username,
            path,
        ),
    )
}

/// The value of `key` among the members of an object, or the empty text.
pub fn member_of(members: Vec<(String, String)>, key: &str) -> (r: String)
    ensures
        r@ == spec_get_or_empty(map_of(pairs_view(members@)), key@),
{
    StrMap::from_pairs(members).get_or_empty(key)
}

/// The members of an object after `value` was noted for `key`, or `key`
/// dropped where `value` is empty.
pub fn members_with(members: Vec<(String, String)>, key: String, value: String) -> (r: Vec<
    (String, String),
>)
    ensures
        pairs_view(r@) == spec_remote_dirs_with(pairs_view(members@), key@, value@),
{
    let mut map = StrMap::from_pairs(members);
    if value.as_str().is_empty() {
        map.remove(key.as_str());
    } else {
        map.insert(key, value);
    }
    map.into_pairs()
}

/// The purpose that a login request states: a directory for a file
/// transfer, a host and a port for a forwarded port or RDP.
pub open spec fn spec_purpose_matches(lc: LoginView, purpose: LoginPurpose) -> bool {
    match lc.conn_type {
        ConnType::FileTransfer => {
            &&& purpose matches LoginPurpose::FileTransfer { dir, show_hidden }
            &&& dir@ == spec_remote_dir(
                spec_get_or_empty(lc.config.options, "remote_dir"@),
                lc.config.username,
            )
            &&& show_hidden == (spec_get_or_empty(lc.config.options, "remote_show_hidden"@).len()
                > 0)
        },
        ConnType::PortForward | ConnType::Rdp => {
            &&& purpose matches LoginPurpose::PortForward { host, port }
            &&& host@ == lc.port_forward.0
            &&& port == lc.port_forward.1
        },
        ConnType::DefaultConn => purpose is Desktop,
    }
}

/// Whether `lr` is the login request of a session: it addresses the peer
/// by its id and names this client; where the peer id named a server, the
/// peer is addressed by its own id and this client names itself with its
/// server. It carries the password, the session's id and options, and the
/// credentials for the peer's operating system.
pub open spec fn spec_is_login_request(
    lc: LoginView,
    local: Local,
    loaded: ConfigView,
    os_username: Seq<char>,
    os_password: Seq<char>,
    password: Seq<u8>,
    lr: LoginRequest,
) -> bool {
    &&& match lc.other_server {
        Some((id, _, _)) => lr.username@ == id && lr.my_id@ == local.id@ + seq!['@']
            + local.rendezvous_server@,
        None => lr.username@ == lc.id && lr.my_id@ == local.id@,
    }
    &&& lr.password@ == password
    &&& lr.my_name@ == local.name@
    &&& lr.option == spec_login_options(lc, loaded, local.public_server, local.custom_fps, true)
    &&& lr.session_id == lc.session_id
    &&& lr.version@ == local.version@
    &&& lr.os_login.username@ == os_username
    &&& lr.os_login.password@ == os_password
    &&& spec_purpose_matches(lc, lr.purpose)
}

/// The custom rate that a session notes when its login request is built.
pub open spec fn spec_noted_fps(lc: LoginView, local: Local, loaded: ConfigView) -> Option<i32> {
    if spec_sends_custom_fps(lc, true, local.custom_fps) {
        Some(
            spec_login_options(
                lc,
                loaded,
                local.public_server,
                local.custom_fps,
                true,
            )->Some_0.custom_fps,
        )
    } else {
        lc.custom_fps
    }
}

impl LoginConfigHandler {
    /// The remote directory remembered for the peer's user.
    pub fn get_remote_dir(&self) -> (r: String)
        ensures
            r@ == spec_remote_dir(
                spec_get_or_empty(self@.config.options, "remote_dir"@),
                self@.config.username,
            ),
    {
        let text = self.get_option("remote_dir");
        match read_object(text.as_str()) {
            Some(members) => member_of(members, self.config.info.username.as_str()),
            None => String::new(),
        }
    }

    /// The value for the option `remote_dir` that remembers `path` for the
    /// peer's user, or forgets the user where `path` is empty.
    pub fn get_all_remote_dir(&self, path: String) -> (r: String)
        ensures
            r@ == spec_all_remote_dir(
                spec_get_or_empty(self@.config.options, "remote_dir"@),
                self@.config.username,
                path@,
            ),
    {
        let text = self.get_option("remote_dir");
        let members = match read_object(text.as_str()) {
            Some(members) => members,
            None => {
                let empty: Vec<(String, String)> = Vec::new();
                assert(pairs_view(empty@) =~= Seq::empty());
                empty
            },
        };
        let after = members_with(members, self.config.info.username.clone(), path);
        write_object(&after)
    }

    /// What a login request says the session is for.
    pub fn login_purpose(&self) -> (r: LoginPurpose)
        ensures
            spec_purpose_matches(self@, r),
    {
        match self.conn_type {
            ConnType::FileTransfer => LoginPurpose::FileTransfer {
                dir: self.get_remote_dir(),
                show_hidden: !self.get_option("remote_show_hidden").as_str().is_empty(),
            },
            ConnType::PortForward => LoginPurpose::PortForward {
                host: self.port_forward.0.clone(),
                port: self.port_forward.1,
            },
            ConnType::Rdp => LoginPurpose::PortForward {
                host: self.port_forward.0.clone(),
                port: self.port_forward.1,
            },
            ConnType::DefaultConn => LoginPurpose::Desktop,
        }
    }

    /// Builds the login request. `password` is what the peer is to check,
    /// empty where there is none. Where the peer id named a server, the
    /// peer is addressed by its own id and this client names itself with
    /// its server.
    pub fn create_login_msg(
        &mut self,
        local: &Local,
        loaded: &PeerConfig,
        os_username: String,
        os_password: String,
        password: Vec<u8>,
    ) -> (r: LoginRequest)
        ensures
            spec_is_login_request(
                old(self)@,
                *local,
                loaded@,
                os_username@,
                os_password@,
                password@,
                r,
            ),
            final(self)@ == (LoginView {
                custom_fps: spec_noted_fps(old(self)@, *local, loaded@),
                ..old(self)@
            }),
    {
        let (my_id, pure_id) = match &self.other_server {
            Some((id, _, _)) => {
                proof {
                    reveal_strlit("@");
                    assert("@"@ =~= seq!['@']);
                }
                (
                    local.id.clone().concat("@").concat(local.rendezvous_server.as_str()),
                    id.clone(),
                )
            },
            None => (local.id.clone(), self.id.clone()),
        };
        let purpose = self.login_purpose();
        let option = self.get_option_message(loaded, local.public_server, local.custom_fps, true);
        LoginRequest {
            username: pure_id,
            password,
            my_id,
            my_name: local.name.clone(),
            option,
            session_id: self.session_id,
            version: local.version.clone(),
            os_login: OsLogin { username: os_username, password: os_password },
            purpose,
        }
    }
}

} // verus!
