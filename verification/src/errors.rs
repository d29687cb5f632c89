//! The error classifier: what the user is shown for an error, and whether
//! the connection is tried again.

use vstd::prelude::*;
use crate::login::{LoginConfigHandler, LoginView};
use crate::text::{
    lemma_empty_literal, lowercase_of, seq_contains, str_contains, str_eq, to_lowercase,
};

verus! {

// The texts by which the peer names errors.

pub const LOGIN_MSG_DESKTOP_NOT_INITED: &'static str = "Desktop env is not inited";

pub const LOGIN_MSG_DESKTOP_SESSION_NOT_READY: &'static str = "Desktop session not ready";

pub const LOGIN_MSG_DESKTOP_XSESSION_FAILED: &'static str = "Desktop xsession failed";

pub const LOGIN_MSG_DESKTOP_SESSION_ANOTHER_USER: &'static str =
    "Desktop session another user login";

pub const LOGIN_MSG_DESKTOP_XORG_NOT_FOUND: &'static str = "Desktop xorg not found";

pub const LOGIN_MSG_DESKTOP_NO_DESKTOP: &'static str = "Desktop none";

pub const LOGIN_MSG_DESKTOP_SESSION_NOT_READY_PASSWORD_EMPTY: &'static str =
    "Desktop session not ready, password empty";

pub const LOGIN_MSG_DESKTOP_SESSION_NOT_READY_PASSWORD_WRONG: &'static str =
    "Desktop session not ready, password wrong";

pub const LOGIN_MSG_PASSWORD_EMPTY: &'static str = "Empty Password";

pub const LOGIN_MSG_PASSWORD_WRONG: &'static str = "Wrong Password";

pub const LOGIN_MSG_2FA_WRONG: &'static str = "Wrong 2FA Code";

pub const REQUIRE_2FA: &'static str = "2FA Required";

pub const LOGIN_MSG_NO_PASSWORD_ACCESS: &'static str = "No Password Access";

pub const LOGIN_MSG_OFFLINE: &'static str = "Offline";

pub const LOGIN_SCREEN_WAYLAND: &'static str = "Wayland login screen is not supported";

pub const SCRAP_UBUNTU_HIGHER_REQUIRED: &'static str =
    "Wayland requires Ubuntu 21.04 or higher version.";

pub const SCRAP_OTHER_VERSION_OR_X11_REQUIRED: &'static str =
    "Wayland requires higher version of linux distro. Please try X11 desktop or change your OS.";

pub const SCRAP_X11_REQUIRED: &'static str = "x11 expected";

pub const SCRAP_X11_REF_URL: &'static str =
    "https://rustdesk.com/docs/en/manual/linux/#x11-required";

/// A message box for the user.
#[derive(Clone, Debug)]
pub struct MsgBox {
    pub msgtype: String,
    pub title: String,
    pub text: String,
    pub link: String,
}

/// A message box, as plain values.
pub struct BoxView {
    pub msgtype: Seq<char>,
    pub title: Seq<char>,
    pub text: Seq<char>,
    pub link: Seq<char>,
}

impl View for MsgBox {
    type V = BoxView;

    open spec fn view(&self) -> BoxView {
        BoxView {
            msgtype: self.msgtype@,
            title: self.title@,
            text: self.text@,
            link: self.link@,
        }
    }
}

/// Builds a message box.
pub fn msgbox(msgtype: &str, title: &str, text: &str, link: &str) -> (r: MsgBox)
    ensures
        r@ == (BoxView { msgtype: msgtype@, title: title@, text: text@, link: link@ }),
{
    MsgBox {
        msgtype: msgtype.to_owned(),
        title: title.to_owned(),
        text: text.to_owned(),
        link: link.to_owned(),
    }
}

/// The box for an error outside login and connection.
pub fn on_error(err: &str) -> (r: MsgBox)
    ensures
        r@ == (BoxView { msgtype: "error"@, title: "Error"@, text: err@, link: Seq::empty() }),
{
    proof {
        lemma_empty_literal();
    }
    msgbox("error", "Error", err, "")
}

/// What a refused login leads to.
#[derive(Clone, Debug)]
pub struct LoginErrorBox {
    pub msgbox: MsgBox,
    /// Whether the login can be tried again.
    pub retry: bool,
}

/// What a refused login leads to, as plain values.
pub struct LoginErrorView {
    pub msgbox: BoxView,
    pub retry: bool,
}

impl View for LoginErrorBox {
    type V = LoginErrorView;

    open spec fn view(&self) -> LoginErrorView {
        LoginErrorView { msgbox: self.msgbox@, retry: self.retry }
    }
}

/// Whether a login error makes the session forget its password: an empty
/// and a wrong password do.
pub open spec fn spec_forgets_password(err: Seq<char>) -> bool {
    err == LOGIN_MSG_PASSWORD_EMPTY@ || err == LOGIN_MSG_PASSWORD_WRONG@
}

/// A box without title, text and link that can be tried again.
pub open spec fn bare(msgtype: Seq<char>) -> LoginErrorView {
    LoginErrorView {
        msgbox: BoxView { msgtype, title: Seq::empty(), text: Seq::empty(), link: Seq::empty() },
        retry: true,
    }
}

/// What the user is shown for a login error, and whether the login can be
/// tried again. `headless_link` is where the application documents the use
/// of a peer without a display.
pub open spec fn spec_login_error(err: Seq<char>, headless_link: Seq<char>) -> LoginErrorView {
    if err == LOGIN_MSG_PASSWORD_EMPTY@ {
        LoginErrorView {
            msgbox: BoxView {
                msgtype: "input-password"@,
                title: "Password Required"@,
                text: Seq::empty(),
                link: Seq::empty(),
            },
            retry: true,
        }
    } else if err == LOGIN_MSG_PASSWORD_WRONG@ {
        LoginErrorView {
            msgbox: BoxView {
                msgtype: "re-input-password"@,
                title: err,
                text: "Do you want to enter again?"@,
                link: Seq::empty(),
            },
            retry: true,
        }
    } else if err == LOGIN_MSG_2FA_WRONG@ || err == REQUIRE_2FA@ {
        LoginErrorView {
            msgbox: BoxView {
                msgtype: "input-2fa"@,
                title: err,
                text: Seq::empty(),
                link: Seq::empty(),
            },
            retry: true,
        }
    } else if err == LOGIN_SCREEN_WAYLAND@ {
        LoginErrorView {
            msgbox: BoxView {
                msgtype: "error"@,
                title: "Login Error"@,
                text: "Login screen using Wayland is not supported"@,
                link: "https://rustdesk.com/docs/en/manual/linux/#login-screen"@,
            },
            retry: true,
        }
    } else if err == LOGIN_MSG_DESKTOP_SESSION_NOT_READY@ {
        bare("session-login"@)
    } else if err == LOGIN_MSG_DESKTOP_XSESSION_FAILED@ {
        bare("session-re-login"@)
    } else if err == LOGIN_MSG_DESKTOP_SESSION_ANOTHER_USER@ {
        LoginErrorView {
            msgbox: BoxView {
                msgtype: "info-nocancel"@,
                title: "another_user_login_title_tip"@,
                text: "another_user_login_text_tip"@,
                link: Seq::empty(),
            },
            retry: false,
        }
    } else if err == LOGIN_MSG_DESKTOP_XORG_NOT_FOUND@ {
        LoginErrorView {
            msgbox: BoxView {
                msgtype: "info-nocancel"@,
                title: "xorg_not_found_title_tip"@,
                text: "xorg_not_found_text_tip"@,
                link: headless_link,
            },
            retry: true,
        }
    } else if err == LOGIN_MSG_DESKTOP_NO_DESKTOP@ {
        LoginErrorView {
            msgbox: BoxView {
                msgtype: "info-nocancel"@,
                title: "no_desktop_title_tip"@,
                text: "no_desktop_text_tip"@,
                link: headless_link,
            },
            retry: true,
        }
    } else if err == LOGIN_MSG_DESKTOP_SESSION_NOT_READY_PASSWORD_EMPTY@ {
        bare("session-login-password"@)
    } else if err == LOGIN_MSG_DESKTOP_SESSION_NOT_READY_PASSWORD_WRONG@ {
        bare("session-login-re-password"@)
    } else if err == LOGIN_MSG_NO_PASSWORD_ACCESS@ {
        LoginErrorView {
            msgbox: BoxView {
                msgtype: "wait-remote-accept-nook"@,
                title: "Prompt"@,
                text: "Please wait for the remote side to accept your session request..."@,
                link: Seq::empty(),
            },
            retry: true,
        }
    } else {
        LoginErrorView {
            msgbox: BoxView {
                msgtype: "error"@,
                title: "Login Error"@,
                text: err,
                link: if seq_contains(err, SCRAP_X11_REQUIRED@) {
                    SCRAP_X11_REF_URL@
                } else {
                    Seq::empty()
                },
            },
            retry: false,
        }
    }
}

/// A box that can be tried again.
fn retry_box(msgtype: &str, title: &str, text: &str, link: &str) -> (r: LoginErrorBox)
    ensures
        r@ == (LoginErrorView {
            msgbox: BoxView { msgtype: msgtype@, title: title@, text: text@, link: link@ },
            retry: true,
        }),
{
    LoginErrorBox { msgbox: msgbox(msgtype, title, text, link), retry: true }
}

/// A box that cannot be tried again.
fn final_box(msgtype: &str, title: &str, text: &str, link: &str) -> (r: LoginErrorBox)
    ensures
        r@ == (LoginErrorView {
            msgbox: BoxView { msgtype: msgtype@, title: title@, text: text@, link: link@ },
            retry: false,
        }),
{
    LoginErrorBox { msgbox: msgbox(msgtype, title, text, link), retry: false }
}

/// What the user is shown for a login error that is not about the
/// password.
fn session_error(err: &str, headless_link: &str) -> (r: LoginErrorBox)
    requires
        err@ != LOGIN_MSG_PASSWORD_EMPTY@,
        err@ != LOGIN_MSG_PASSWORD_WRONG@,
        err@ != LOGIN_MSG_2FA_WRONG@,
        err@ != REQUIRE_2FA@,
    ensures
        r@ == spec_login_error(err@, headless_link@),
{
    proof {
        lemma_empty_literal();
    }
    if str_eq(err, LOGIN_SCREEN_WAYLAND) {
        retry_box(
            "error",
            "Login Error",
            "Login screen using Wayland is not supported",
            "https://rustdesk.com/docs/en/manual/linux/#login-screen",
        )
    } else if str_eq(err, LOGIN_MSG_DESKTOP_SESSION_NOT_READY) {
        retry_box("session-login", "", "", "")
    } else if str_eq(err, LOGIN_MSG_DESKTOP_XSESSION_FAILED) {
        retry_box("session-re-login", "", "", "")
    } else if str_eq(err, LOGIN_MSG_DESKTOP_SESSION_ANOTHER_USER) {
        final_box(
            "info-nocancel",
            "another_user_login_title_tip",
            "another_user_login_text_tip",
            "",
        )
    } else if str_eq(err, LOGIN_MSG_DESKTOP_XORG_NOT_FOUND) {
        retry_box(
            "info-nocancel",
            "xorg_not_found_title_tip",
            "xorg_not_found_text_tip",
            headless_link,
        )
    } else if str_eq(err, LOGIN_MSG_DESKTOP_NO_DESKTOP) {
        retry_box("info-nocancel", "no_desktop_title_tip", "no_desktop_text_tip", headless_link)
    } else if str_eq(err, LOGIN_MSG_DESKTOP_SESSION_NOT_READY_PASSWORD_EMPTY) {
        retry_box("session-login-password", "", "", "")
    } else if str_eq(err, LOGIN_MSG_DESKTOP_SESSION_NOT_READY_PASSWORD_WRONG) {
        retry_box("session-login-re-password", "", "", "")
    } else if str_eq(err, LOGIN_MSG_NO_PASSWORD_ACCESS) {
        retry_box(
            "wait-remote-accept-nook",
            "Prompt",
            "Please wait for the remote side to accept your session request...",
            "",
        )
    } else if str_contains(err, SCRAP_X11_REQUIRED) {
        final_box("error", "Login Error", err, SCRAP_X11_REF_URL)
    } else {
        final_box("error", "Login Error", err, "")
    }
}

/// What the user is shown for a login error.
pub fn login_error_box(err: &str, headless_link: &str) -> (r: LoginErrorBox)
    ensures
        r@ == spec_login_error(err@, headless_link@),
{
    proof {
        lemma_empty_literal();
    }
    if str_eq(err, LOGIN_MSG_PASSWORD_EMPTY) {
        retry_box("input-password", "Password Required", "", "")
    } else if str_eq(err, LOGIN_MSG_PASSWORD_WRONG) {
        retry_box("re-input-password", err, "Do you want to enter again?", "")
    } else if str_eq(err, LOGIN_MSG_2FA_WRONG) || str_eq(err, REQUIRE_2FA) {
        retry_box("input-2fa", err, "", "")
    } else {
        session_error(err, headless_link)
    }
}

/// Reacts to a login that the peer refused with `err`: an empty or wrong
/// password is forgotten by the session, and the user is shown the box
/// for the error.
pub fn handle_login_error(lc: &mut LoginConfigHandler, err: &str, headless_link: &str) -> (r:
    LoginErrorBox)
    ensures
        r@ == spec_login_error(err@, headless_link@),
        final(lc)@ == (LoginView {
            password: if spec_forgets_password(err@) {
                Seq::empty()
            } else {
                old(lc)@.password
            },
            ..old(lc)@
        }),
{
    if str_eq(err, LOGIN_MSG_PASSWORD_EMPTY) || str_eq(err, LOGIN_MSG_PASSWORD_WRONG) {
        lc.password = Vec::new();
        assert(lc.password@ =~= Seq::empty());
    }
    login_error_box(err, headless_link)
}

/// Whether a message box leads to another connection attempt, given the
/// text of the box in lower case. Only connection errors do. One that
/// tells of a connection reset (10054 or 104) does where relays are
/// retried; any does that names no cause which another attempt cannot
/// cure.
pub open spec fn spec_retry_allowed(
    msgtype: Seq<char>,
    title: Seq<char>,
    text: Seq<char>,
    lowered: Seq<char>,
    retry_for_relay: bool,
) -> bool {
    msgtype == "error"@ && title == "Connection Error"@ && (((seq_contains(text, "10054"@)
        || seq_contains(text, "104"@)) && retry_for_relay) || (!seq_contains(lowered, "offline"@)
        && !seq_contains(lowered, "exist"@) && !seq_contains(lowered, "handshake"@)
        && !seq_contains(lowered, "failed"@) && !seq_contains(lowered, "resolve"@)
        && !seq_contains(lowered, "mismatch"@) && !seq_contains(lowered, "manually"@)
        && !seq_contains(lowered, "not allowed"@)))
}

/// Whether a message box leads to another connection attempt, given the
/// text of the box in lower case.
pub fn retry_allowed(msgtype: &str, title: &str, text: &str, lowered: &str, retry_for_relay: bool)
    -> (r: bool)
    ensures
        r == spec_retry_allowed(msgtype@, title@, text@, lowered@, retry_for_relay),
{
    str_eq(msgtype, "error") && str_eq(title, "Connection Error") && (((str_contains(text, "10054")
        || str_contains(text, "104")) && retry_for_relay) || (!str_contains(lowered, "offline")
        && !str_contains(lowered, "exist") && !str_contains(lowered, "handshake") && !str_contains(
        lowered,
        "failed",
    ) && !str_contains(lowered, "resolve") && !str_contains(lowered, "mismatch") && !str_contains(
        lowered,
        "manually",
    ) && !str_contains(lowered, "not allowed")))
}

/// Whether a message box leads to another connection attempt.
pub fn check_if_retry(msgtype: &str, title: &str, text: &str, retry_for_relay: bool) -> (r: bool)
    ensures
        r == spec_retry_allowed(msgtype@, title@, text@, lowercase_of(text@), retry_for_relay),
{
    let lowered = to_lowercase(text);
    retry_allowed(msgtype, title, text, lowered.as_str(), retry_for_relay)
}

/// The system this client runs on, as far as errors are shown differently.
#[derive(Clone, Copy, Debug, PartialEq, Eq, Structural)]
pub struct Platform {
    pub windows: bool,
    /// Whether the interface knows the boxes that hint at a relay.
    pub relay_hints: bool,
}

/// The number by which a system reports a connection that the other side
/// reset.
pub open spec fn spec_reset_code(windows: bool) -> int {
    if windows {
        10054
    } else {
        104
    }
}

/// Whether a failed connection hints at trying a relay: a direct session
/// that was reset, going by the system's error number or by the text.
pub open spec fn spec_relay_hint(
    err: Seq<char>,
    direct: Option<bool>,
    errno: int,
    windows: bool,
) -> bool {
    direct == Some(true) && (errno == spec_reset_code(windows) || seq_contains(
        err,
        if windows {
            "10054"@
        } else {
            "104"@
        },
    ))
}

/// The box for a connection that could not be established or broke.
pub open spec fn spec_connection_error(
    err: Seq<char>,
    direct: Option<bool>,
    received: bool,
    errno: int,
    platform: Platform,
) -> BoxView {
    BoxView {
        msgtype: if platform.relay_hints && spec_relay_hint(err, direct, errno, platform.windows) {
            if received {
                "relay-hint"@
            } else {
                "relay-hint2"@
            }
        } else {
            "error"@
        },
        title: "Connection Error"@,
        text: err,
        link: Seq::empty(),
    }
}

/// The box for a connection that could not be established or broke, given
/// the system's last error number.
pub fn connection_error_box(
    err: &str,
    direct: Option<bool>,
    received: bool,
    errno: i32,
    platform: Platform,
) -> (r: MsgBox)
    ensures
        r@ == spec_connection_error(err@, direct, received, errno as int, platform),
{
    proof {
        lemma_empty_literal();
    }
    let reset = if platform.windows {
        errno == 10054 || str_contains(err, "10054")
    } else {
        errno == 104 || str_contains(err, "104")
    };
    let relay_hint = direct == Some(true) && reset;
    if platform.relay_hints && relay_hint {
        if received {
            msgbox("relay-hint", "Connection Error", err, "")
        } else {
            msgbox("relay-hint2", "Connection Error", err, "")
        }
    } else {
        msgbox("error", "Connection Error", err, "")
    }
}

/// The system's last error number.
///
/// Trusted: calls `errno::errno`. The number is whatever the system last
/// reported to this thread, so nothing is promised of it.
#[verifier::external_body]
fn last_errno() -> (r: i32) {
    errno::errno().0
}

/// The box for a connection that could not be established or broke. The
/// box is a connection error with `err` as its text; whether it hints at a
/// relay also depends on the system's last error number.
pub fn on_establish_connection_error(lc: &LoginConfigHandler, err: &str, platform: Platform) -> (r:
    MsgBox)
    ensures
        r@.title == "Connection Error"@,
        r@.text == err@,
        r@.link == Seq::<char>::empty(),
        exists|errno: i32|
            r@ == spec_connection_error(
                err@,
                lc@.direct,
                lc@.received,
                errno as int,
                platform,
            ),
{
    let errno = last_errno();
    let r = connection_error_box(err, lc.direct, lc.received, errno, platform);
    assert(r@ == spec_connection_error(err@, lc@.direct, lc@.received, errno as int, platform));
    r
}

} // verus!
