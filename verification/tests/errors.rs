use remote_client::errors::{
    check_if_retry, connection_error_box, handle_login_error, login_error_box, msgbox, on_error,
    on_establish_connection_error, retry_allowed, MsgBox, Platform, LOGIN_MSG_2FA_WRONG,
    LOGIN_MSG_DESKTOP_NO_DESKTOP, LOGIN_MSG_DESKTOP_SESSION_ANOTHER_USER,
    LOGIN_MSG_DESKTOP_SESSION_NOT_READY, LOGIN_MSG_DESKTOP_SESSION_NOT_READY_PASSWORD_EMPTY,
    LOGIN_MSG_DESKTOP_SESSION_NOT_READY_PASSWORD_WRONG, LOGIN_MSG_DESKTOP_XORG_NOT_FOUND,
    LOGIN_MSG_DESKTOP_XSESSION_FAILED, LOGIN_MSG_NO_PASSWORD_ACCESS, LOGIN_MSG_PASSWORD_EMPTY,
    LOGIN_MSG_PASSWORD_WRONG, LOGIN_SCREEN_WAYLAND, REQUIRE_2FA, SCRAP_X11_REF_URL,
};
use remote_client::login::LoginConfigHandler;

const LINK: &str = "https://example.org/headless";

fn parts(b: &MsgBox) -> (&str, &str, &str, &str) {
    (b.msgtype.as_str(), b.title.as_str(), b.text.as_str(), b.link.as_str())
}

fn classified(err: &str) -> ((String, String, String, String), bool) {
    let r = login_error_box(err, LINK);
    ((r.msgbox.msgtype, r.msgbox.title, r.msgbox.text, r.msgbox.link), r.retry)
}

fn expect(err: &str, msgtype: &str, title: &str, text: &str, link: &str, retry: bool) {
    let ((a, b, c, d), r) = classified(err);
    assert_eq!((a.as_str(), b.as_str(), c.as_str(), d.as_str(), r), (msgtype, title, text, link, retry), "{:?}", err);
}

#[test]
fn wrong_password() {
    let mut lc = LoginConfigHandler::new();
    lc.password = vec![1; 32];
    lc.remember = true;
    let r = handle_login_error(&mut lc, "Wrong Password", LINK);
    assert!(lc.password.is_empty());
    assert!(lc.remember);
    assert_eq!(parts(&r.msgbox), ("re-input-password", "Wrong Password", "Do you want to enter again?", ""));
    assert!(r.retry);
}

#[test]
fn empty_password() {
    let mut lc = LoginConfigHandler::new();
    lc.password = vec![1; 32];
    let r = handle_login_error(&mut lc, LOGIN_MSG_PASSWORD_EMPTY, LINK);
    assert!(lc.password.is_empty());
    assert_eq!(parts(&r.msgbox), ("input-password", "Password Required", "", ""));
    assert!(r.retry);
}

#[test]
fn other_errors_keep_the_password() {
    for err in [LOGIN_MSG_2FA_WRONG, REQUIRE_2FA, LOGIN_SCREEN_WAYLAND, "Offline", "wrong password", ""] {
        let mut lc = LoginConfigHandler::new();
        lc.password = vec![1; 32];
        handle_login_error(&mut lc, err, LINK);
        assert_eq!(lc.password, vec![1; 32], "{:?}", err);
    }
}

#[test]
fn two_factor_prompts() {
    expect("Wrong 2FA Code", "input-2fa", "Wrong 2FA Code", "", "", true);
    expect("2FA Required", "input-2fa", "2FA Required", "", "", true);
}

#[test]
fn session_state_table() {
    expect(
        LOGIN_SCREEN_WAYLAND,
        "error",
        "Login Error",
        "Login screen using Wayland is not supported",
        "https://rustdesk.com/docs/en/manual/linux/#login-screen",
        true,
    );
    expect(LOGIN_MSG_DESKTOP_SESSION_NOT_READY, "session-login", "", "", "", true);
    expect(LOGIN_MSG_DESKTOP_XSESSION_FAILED, "session-re-login", "", "", "", true);
    expect(
        LOGIN_MSG_DESKTOP_SESSION_ANOTHER_USER,
        "info-nocancel",
        "another_user_login_title_tip",
        "another_user_login_text_tip",
        "",
        false,
    );
    expect(LOGIN_MSG_DESKTOP_XORG_NOT_FOUND, "info-nocancel", "xorg_not_found_title_tip", "xorg_not_found_text_tip", LINK, true);
    expect(LOGIN_MSG_DESKTOP_NO_DESKTOP, "info-nocancel", "no_desktop_title_tip", "no_desktop_text_tip", LINK, true);
    expect(LOGIN_MSG_DESKTOP_SESSION_NOT_READY_PASSWORD_EMPTY, "session-login-password", "", "", "", true);
    expect(LOGIN_MSG_DESKTOP_SESSION_NOT_READY_PASSWORD_WRONG, "session-login-re-password", "", "", "", true);
    expect(
        LOGIN_MSG_NO_PASSWORD_ACCESS,
        "wait-remote-accept-nook",
        "Prompt",
        "Please wait for the remote side to accept your session request...",
        "",
        true,
    );
}

#[test]
fn error_texts() {
    assert_eq!(LOGIN_MSG_PASSWORD_WRONG, "Wrong Password");
    assert_eq!(LOGIN_MSG_PASSWORD_EMPTY, "Empty Password");
    assert_eq!(LOGIN_MSG_DESKTOP_SESSION_NOT_READY, "Desktop session not ready");
    assert_eq!(LOGIN_MSG_DESKTOP_NO_DESKTOP, "Desktop none");
    assert_eq!(LOGIN_MSG_NO_PASSWORD_ACCESS, "No Password Access");
}

#[test]
fn unknown_errors_are_login_errors() {
    expect("Something odd", "error", "Login Error", "Something odd", "", false);
    expect("", "error", "Login Error", "", "", false);
    expect("Offline", "error", "Login Error", "Offline", "", false);
    expect("x11 expected", "error", "Login Error", "x11 expected", SCRAP_X11_REF_URL, false);
    expect("wayland: x11 expected here", "error", "Login Error", "wayland: x11 expected here", SCRAP_X11_REF_URL, false);
    expect("X11 expected", "error", "Login Error", "X11 expected", "", false);
}

#[test]
fn retry_gating() {
    let reset = "Connection reset by peer (os error 10054)";
    assert!(check_if_retry("error", "Connection Error", reset, true));
    // The text names none of the causes that another attempt cannot cure.
    assert!(check_if_retry("error", "Connection Error", reset, false));
    assert!(!check_if_retry("error", "Connection Error", "ID does not exist", true));
}

#[test]
fn retry_only_for_connection_errors() {
    assert!(check_if_retry("error", "Connection Error", "Timeout", false));
    assert!(!check_if_retry("info", "Connection Error", "Timeout", true));
    assert!(!check_if_retry("error", "Login Error", "Timeout", true));
    assert!(!check_if_retry("Error", "Connection Error", "Timeout", true));
    assert!(!check_if_retry("error", "connection error", "Timeout", true));
}

#[test]
fn retry_is_denied_by_cause() {
    for text in [
        "Remote desktop is offline",
        "ID does not exist",
        "Handshake failed",
        "Failed to connect",
        "Failed to resolve host",
        "Key mismatch",
        "Please connect manually",
        "Connection not allowed",
        "OFFLINE",
        "hAnDsHaKe",
        "Not Allowed",
    ] {
        assert!(!check_if_retry("error", "Connection Error", text, false), "{:?}", text);
    }
}

#[test]
fn retry_for_relay_overrides_the_cause() {
    assert!(check_if_retry("error", "Connection Error", "Failed with os error 104", true));
    assert!(!check_if_retry("error", "Connection Error", "Failed with os error 104", false));
    assert!(check_if_retry("error", "Connection Error", "handshake 10054", true));
    assert!(!check_if_retry("error", "Connection Error", "handshake 1054", true));
}

#[test]
fn lower_case_follows_unicode() {
    // The Kelvin sign is a capital letter whose small form is `k`.
    assert!(!check_if_retry("error", "Connection Error", "handsha\u{212A}e", false));
    assert!(check_if_retry("error", "Connection Error", "handsha\u{212B}e", false));
}

#[test]
fn retry_allowed_takes_the_lowered_text_as_given() {
    assert!(retry_allowed("error", "Connection Error", "FAILED", "FAILED", false));
    assert!(!retry_allowed("error", "Connection Error", "FAILED", "failed", false));
    assert!(retry_allowed("error", "Connection Error", "104", "failed", true));
    // The causes are looked for in the lowered text alone.
    assert!(retry_allowed("error", "Connection Error", "failed", "104", true));
    assert!(!retry_allowed("error", "Connection Error", "failed", "failed", true));
}

#[test]
fn plain_boxes() {
    assert_eq!(parts(&msgbox("a", "b", "c", "d")), ("a", "b", "c", "d"));
    assert_eq!(parts(&on_error("boom")), ("error", "Error", "boom", ""));
}

#[test]
fn connection_errors_hint_at_a_relay() {
    let unix = Platform { windows: false, relay_hints: true };
    let windows = Platform { windows: true, relay_hints: true };
    let plain = Platform { windows: false, relay_hints: false };
    let b = connection_error_box("reset", Some(true), true, 104, unix);
    assert_eq!(parts(&b), ("relay-hint", "Connection Error", "reset", ""));
    let b = connection_error_box("reset", Some(true), false, 104, unix);
    assert_eq!(parts(&b), ("relay-hint2", "Connection Error", "reset", ""));
    let b = connection_error_box("os error 104", Some(true), false, 0, unix);
    assert_eq!(b.msgtype, "relay-hint2");
    let b = connection_error_box("os error 10054", Some(true), true, 0, windows);
    assert_eq!(b.msgtype, "relay-hint");
    let b = connection_error_box("reset", Some(true), true, 10054, windows);
    assert_eq!(b.msgtype, "relay-hint");
    // The other system's number means nothing here.
    assert_eq!(connection_error_box("reset", Some(true), true, 10054, unix).msgtype, "error");
    assert_eq!(connection_error_box("reset", Some(true), true, 104, windows).msgtype, "error");
    assert_eq!(connection_error_box("os error 111", Some(true), true, 111, unix).msgtype, "error");
    // Only a direct session hints at a relay.
    assert_eq!(connection_error_box("reset", Some(false), true, 104, unix).msgtype, "error");
    assert_eq!(connection_error_box("reset", None, true, 104, unix).msgtype, "error");
    assert_eq!(parts(&connection_error_box("reset", Some(true), true, 104, plain)), ("error", "Connection Error", "reset", ""));
}

#[test]
fn establish_error_is_a_connection_error() {
    let mut lc = LoginConfigHandler::new();
    lc.direct = Some(true);
    lc.received = true;
    let b = on_establish_connection_error(&lc, "os error 104", Platform { windows: false, relay_hints: true });
    assert_eq!(parts(&b), ("relay-hint", "Connection Error", "os error 104", ""));
    lc.direct = Some(false);
    let b = on_establish_connection_error(&lc, "os error 104", Platform { windows: false, relay_hints: true });
    assert_eq!(parts(&b), ("error", "Connection Error", "os error 104", ""));
}

fn by_std(msgtype: &str, title: &str, text: &str, retry_for_relay: bool) -> bool {
    let lowered = text.to_lowercase();
    let causes = ["offline", "exist", "handshake", "failed", "resolve", "mismatch", "manually", "not allowed"];
    msgtype == "error"
        && title == "Connection Error"
        && ((text.contains("10054") || text.contains("104")) && retry_for_relay
            || causes.iter().all(|cause| !lowered.contains(cause)))
}

#[test]
fn retry_agrees_with_std_search_on_many_texts() {
    let pieces = [
        "10054", "104", "10", "Offline", "exist", "HANDSHAKE", "failed", "Resolve", "mismatch",
        "manually", "not allowed", "not", " ", "x", "\u{212A}", "handsha", "e",
    ];
    let kinds = ["error", "info"];
    let titles = ["Connection Error", "Login Error"];
    let mut seed: u64 = 29;
    let mut draw = |n: usize| {
        seed = seed.wrapping_mul(6364136223846793005).wrapping_add(1442695040888963407);
        ((seed >> 33) % n as u64) as usize
    };
    for _ in 0..20000 {
        let mut text = String::new();
        for _ in 0..draw(5) {
            text.push_str(pieces[draw(pieces.len())]);
        }
        let msgtype = kinds[if draw(8) == 0 { 1 } else { 0 }];
        let title = titles[if draw(8) == 0 { 1 } else { 0 }];
        let relay = draw(2) == 0;
        assert_eq!(
            check_if_retry(msgtype, title, &text, relay),
            by_std(msgtype, title, &text, relay),
            "{:?} {:?} {:?} {}",
            msgtype,
            title,
            text,
            relay
        );
    }
}
