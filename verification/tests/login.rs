use remote_client::config::{PeerConfig, Resolution, Toggles};
use remote_client::login::{
    fresh_session_id, session_id_from, sync_event, Features, KeyboardSupport, LoginConfigHandler,
    PeerInfo, SupportedEncoding,
};
use remote_client::options::{
    custom_quality, get_image_quality_enum, stored_custom_fps, switch_options, without_options,
};
use remote_client::request::{member_of, members_with, Local};
use remote_client::toggles::{toggle_message, toggle_name, toggled, ToggleName};
use remote_client::message::{BoolOption, ImageQuality, LoginPurpose, Message, Misc, OptionMessage};
use remote_client::password::{salted, PasswordSource};
use remote_client::peer_id::{parse_peer_id, session_target};
use remote_client::rendezvous::ConnType;
use remote_client::strmap::StrMap;

fn s(text: &str) -> String {
    text.to_owned()
}

fn handler() -> LoginConfigHandler {
    let mut lc = LoginConfigHandler::new();
    lc.id = s("123");
    lc.session_id = 42;
    lc
}

fn local() -> Local {
    Local {
        id: s("me"),
        name: s("alice"),
        rendezvous_server: s("rs.local"),
        version: s("1.2.6"),
        public_server: false,
        custom_fps: true,
    }
}

fn option_of(message: Message) -> OptionMessage {
    match message {
        Message::Misc(Misc::Options(option)) => option,
        other => panic!("unexpected {:?}", other),
    }
}

fn peer_info() -> PeerInfo {
    PeerInfo {
        username: s("bob"),
        hostname: s("box"),
        platform: s("Linux"),
        version: s("1.2.3"),
        features: Some(Features { privacy_mode: true }),
        encoding: Some(SupportedEncoding { h264: true, h265: false, vp8: true, av1: false }),
    }
}

const BOTH: KeyboardSupport = KeyboardSupport { map: true, stored: true };

#[test]
fn new_handler_is_empty() {
    let lc = LoginConfigHandler::new();
    assert_eq!(lc.id, "");
    assert_eq!(lc.session_id, 0);
    assert!(lc.password.is_empty());
    assert!(lc.mark_unsupported.is_empty());
    assert_eq!(lc.direct, None);
    assert!(matches!(lc.password_source, PasswordSource::Undefined));
    assert_eq!(lc.config.toggles, Toggles::new());
}

#[test]
fn options_read_as_empty_when_unset() {
    let mut lc = handler();
    assert_eq!(lc.get_option("os-password"), "");
    lc.set_option(PeerConfig::new(), s("os-password"), s("secret"));
    assert_eq!(lc.get_option("os-password"), "secret");
    assert_eq!(lc.get_ui_flutter("k"), "");
    lc.save_ui_flutter(lc.config.clone(), s("k"), s("v"));
    assert_eq!(lc.get_ui_flutter("k"), "v");
    assert_eq!(lc.get_option("os-password"), "secret");
    lc.save_ui_flutter(lc.config.clone(), s("k"), s(""));
    assert_eq!(lc.get_ui_flutter("k"), "");
    assert!(!lc.config.ui_flutter.contains_key("k"));
}

#[test]
fn setters_start_from_the_stored_configuration() {
    let mut lc = handler();
    lc.save_view_style(PeerConfig::new(), s("adaptive"));
    let mut stored = PeerConfig::new();
    stored.scroll_style = s("scrollbar");
    // The stored configuration wins over what the session kept.
    lc.save_keyboard_mode(stored, s("map"));
    assert_eq!(lc.config.view_style, "");
    assert_eq!(lc.config.scroll_style, "scrollbar");
    assert_eq!(lc.config.keyboard_mode, "map");
    lc.save_scroll_style(lc.config.clone(), s("scrollauto"));
    lc.save_reverse_mouse_wheel(lc.config.clone(), s("Y"));
    lc.save_displays_as_individual_windows(lc.config.clone(), s("Y"));
    lc.save_use_all_my_displays_for_the_remote_session(lc.config.clone(), s("Y"));
    lc.set_direct_failure(lc.config.clone(), 1);
    assert_eq!(lc.config.scroll_style, "scrollauto");
    assert_eq!(lc.config.reverse_mouse_wheel, "Y");
    assert_eq!(lc.config.displays_as_individual_windows, "Y");
    assert_eq!(lc.config.use_all_my_displays_for_the_remote_session, "Y");
    assert_eq!(lc.config.direct_failures, 1);
    assert_eq!(lc.config.keyboard_mode, "map");
    let mut replaced = PeerConfig::new();
    replaced.view_style = s("stretch");
    lc.save_config(replaced);
    assert_eq!(lc.config.view_style, "stretch");
    assert_eq!(lc.config.keyboard_mode, "");
}

#[test]
fn custom_resolutions_by_display() {
    let mut lc = handler();
    assert_eq!(lc.get_custom_resolution(0), None);
    lc.set_custom_resolution(PeerConfig::new(), 0, Some((1920, 1080)));
    lc.set_custom_resolution(lc.config.clone(), 1, Some((800, 600)));
    assert_eq!(lc.get_custom_resolution(0), Some((1920, 1080)));
    assert_eq!(lc.get_custom_resolution(1), Some((800, 600)));
    assert_eq!(lc.config.custom_resolutions.get(&1), Some(&Resolution { w: 800, h: 600 }));
    lc.set_custom_resolution(lc.config.clone(), 0, None);
    assert_eq!(lc.get_custom_resolution(0), None);
    assert_eq!(lc.get_custom_resolution(1), Some((800, 600)));
}

#[test]
fn toggle_names() {
    assert_eq!(toggle_name("view-only"), ToggleName::ViewOnly);
    assert_eq!(toggle_name("allow_swap_key"), ToggleName::AllowSwapKey);
    assert_eq!(toggle_name("allow-swap-key"), ToggleName::Other);
    assert_eq!(toggle_name("block-input"), ToggleName::BlockInput);
    assert_eq!(toggle_name("unblock-input"), ToggleName::UnblockInput);
    assert_eq!(toggle_name(""), ToggleName::Other);
}

#[test]
fn toggling_a_switch_flips_and_tells_the_peer() {
    let mut lc = handler();
    let r = lc.toggle_option(PeerConfig::new(), s("disable-audio"));
    assert!(r.store);
    assert_eq!(r.message, Some(OptionMessage { disable_audio: BoolOption::Yes, ..OptionMessage::new() }));
    assert!(lc.config.toggles.disable_audio);
    assert!(lc.get_toggle_option("disable-audio"));
    let r = lc.toggle_option(lc.config.clone(), s("disable-audio"));
    assert_eq!(r.message, Some(OptionMessage { disable_audio: BoolOption::No, ..OptionMessage::new() }));
    assert!(!lc.get_toggle_option("disable-audio"));
}

#[test]
fn every_switch_has_its_message() {
    let off = Toggles::new();
    let none = OptionMessage::new();
    assert_eq!(toggle_message(off, off, ToggleName::ShowRemoteCursor), Some(OptionMessage { show_remote_cursor: BoolOption::Yes, ..none }));
    assert_eq!(toggle_message(off, off, ToggleName::FollowRemoteCursor), Some(OptionMessage { follow_remote_cursor: BoolOption::Yes, ..none }));
    assert_eq!(toggle_message(off, off, ToggleName::FollowRemoteWindow), Some(OptionMessage { follow_remote_window: BoolOption::Yes, ..none }));
    assert_eq!(toggle_message(off, off, ToggleName::DisableClipboard), Some(OptionMessage { disable_clipboard: BoolOption::Yes, ..none }));
    assert_eq!(toggle_message(off, off, ToggleName::LockAfterSessionEnd), Some(OptionMessage { lock_after_session_end: BoolOption::Yes, ..none }));
    assert_eq!(toggle_message(off, off, ToggleName::EnableFileTransfer), Some(OptionMessage { enable_file_transfer: BoolOption::Yes, ..none }));
    assert_eq!(toggle_message(off, off, ToggleName::PrivacyMode), Some(OptionMessage { privacy_mode: BoolOption::Yes, ..none }));
    assert_eq!(toggle_message(off, off, ToggleName::BlockInput), Some(OptionMessage { block_input: BoolOption::Yes, ..none }));
    assert_eq!(toggle_message(off, off, ToggleName::UnblockInput), Some(OptionMessage { block_input: BoolOption::No, ..none }));
    assert_eq!(toggle_message(off, off, ToggleName::ShowQualityMonitor), Some(none));
    assert_eq!(toggle_message(off, off, ToggleName::AllowSwapKey), Some(none));
    assert_eq!(toggle_message(off, off, ToggleName::Other), None);
    let on = Toggles { privacy_mode: true, ..off };
    assert_eq!(toggle_message(on, off, ToggleName::PrivacyMode), Some(OptionMessage { privacy_mode: BoolOption::No, ..none }));
    assert_eq!(toggled(on, ToggleName::PrivacyMode), on);
    assert_eq!(toggled(off, ToggleName::BlockInput), off);
    assert_eq!(toggled(off, ToggleName::AllowSwapKey), Toggles { allow_swap_key: true, ..off });
}

#[test]
fn privacy_mode_is_asked_for_not_stored() {
    let mut lc = handler();
    let r = lc.toggle_option(PeerConfig::new(), s("privacy-mode"));
    assert!(r.store);
    assert_eq!(r.message.unwrap().privacy_mode, BoolOption::Yes);
    assert!(!lc.config.toggles.privacy_mode);
}

#[test]
fn block_input_changes_nothing_here() {
    let mut lc = handler();
    lc.save_view_style(PeerConfig::new(), s("kept"));
    let mut stored = PeerConfig::new();
    stored.view_style = s("on disk");
    let r = lc.toggle_option(stored, s("block-input"));
    assert!(!r.store);
    assert_eq!(r.message.unwrap().block_input, BoolOption::Yes);
    assert_eq!(lc.config.view_style, "kept");
    let r = lc.toggle_option(PeerConfig::new(), s("unblock-input"));
    assert!(!r.store);
    assert_eq!(r.message.unwrap().block_input, BoolOption::No);
    assert_eq!(lc.config.view_style, "kept");
}

#[test]
fn other_names_toggle_free_options() {
    let mut lc = handler();
    lc.save_view_style(PeerConfig::new(), s("kept"));
    let r = lc.toggle_option(PeerConfig::new(), s("my-flag"));
    assert!(r.store);
    assert_eq!(r.message, None);
    assert_eq!(lc.get_option("my-flag"), "Y");
    assert!(lc.get_toggle_option("my-flag"));
    // The free option lives in what the session kept.
    assert_eq!(lc.config.view_style, "kept");
    lc.toggle_option(PeerConfig::new(), s("my-flag"));
    assert!(!lc.config.options.contains_key("my-flag"));
    assert!(!lc.get_toggle_option("my-flag"));
}

#[test]
fn view_only_forces_dependent_switches() {
    let mut lc = handler();
    let mut stored = PeerConfig::new();
    stored.toggles.enable_file_transfer = true;
    stored.toggles.lock_after_session_end = true;
    lc.save_config(stored.clone());
    let r = lc.toggle_option(stored, s("view-only"));
    assert!(r.store);
    assert_eq!(
        r.message,
        Some(OptionMessage {
            disable_keyboard: BoolOption::Yes,
            disable_clipboard: BoolOption::Yes,
            show_remote_cursor: BoolOption::Yes,
            enable_file_transfer: BoolOption::No,
            lock_after_session_end: BoolOption::No,
            ..OptionMessage::new()
        })
    );
    assert!(lc.get_toggle_option("view-only"));
    assert!(lc.get_toggle_option("disable-keyboard"));
    assert!(lc.get_toggle_option("disable-clipboard"));
    assert!(lc.get_toggle_option("show-remote-cursor"));
    assert!(!lc.get_toggle_option("enable-file-transfer"));
    assert!(!lc.get_toggle_option("lock-after-session-end"));
    // What is stored stays as it was.
    assert!(lc.stored_toggle("enable-file-transfer"));
    assert!(lc.stored_toggle("lock-after-session-end"));
    assert!(!lc.stored_toggle("disable-clipboard"));
    assert!(!lc.stored_toggle("disable-keyboard"));
}

#[test]
fn clearing_view_only_restores_prior_values() {
    let mut lc = handler();
    let mut stored = PeerConfig::new();
    stored.toggles.enable_file_transfer = true;
    stored.toggles.disable_clipboard = true;
    lc.save_config(stored.clone());
    lc.toggle_option(stored, s("view-only"));
    let r = lc.toggle_option(lc.config.clone(), s("view-only"));
    assert_eq!(
        r.message,
        Some(OptionMessage {
            disable_keyboard: BoolOption::No,
            disable_clipboard: BoolOption::Yes,
            show_remote_cursor: BoolOption::No,
            enable_file_transfer: BoolOption::Yes,
            lock_after_session_end: BoolOption::No,
            ..OptionMessage::new()
        })
    );
    assert!(!lc.get_toggle_option("view-only"));
    assert!(!lc.get_toggle_option("disable-keyboard"));
    assert!(lc.get_toggle_option("disable-clipboard"));
    assert!(!lc.get_toggle_option("show-remote-cursor"));
    assert!(lc.get_toggle_option("enable-file-transfer"));
}

#[test]
fn image_quality_levels() {
    assert_eq!(get_image_quality_enum("low", false), Some(ImageQuality::Low));
    assert_eq!(get_image_quality_enum("best", true), Some(ImageQuality::Best));
    assert_eq!(get_image_quality_enum("balanced", false), Some(ImageQuality::Balanced));
    assert_eq!(get_image_quality_enum("balanced", true), None);
    assert_eq!(get_image_quality_enum("custom", false), None);
    assert_eq!(get_image_quality_enum("", false), None);
    assert_eq!(get_image_quality_enum("Low", false), None);
}

#[test]
fn plain_messages() {
    assert!(matches!(LoginConfigHandler::refresh(), Message::Misc(Misc::RefreshVideo(true))));
    assert!(matches!(LoginConfigHandler::refresh_display(3), Message::Misc(Misc::RefreshVideoDisplay(3))));
    let lc = handler();
    assert!(matches!(lc.restart_remote_device(), Message::Misc(Misc::RestartRemoteDevice(true))));
    assert_eq!(option_of(lc.update_supported_decodings()), OptionMessage { supported_decoding: true, ..OptionMessage::new() });
}

#[test]
fn saving_image_quality() {
    let mut lc = handler();
    let m = lc.save_image_quality(PeerConfig::new(), s("best")).unwrap();
    assert_eq!(option_of(m), OptionMessage { image_quality: ImageQuality::Best, ..OptionMessage::new() });
    assert_eq!(lc.config.image_quality, "best");
    let m = lc.save_image_quality(PeerConfig::new(), s("balanced")).unwrap();
    assert_eq!(option_of(m).image_quality, ImageQuality::Balanced);
    assert!(lc.save_image_quality(PeerConfig::new(), s("custom")).is_none());
    assert_eq!(lc.config.image_quality, "custom");
}

#[test]
fn saving_custom_image_quality() {
    let mut lc = handler();
    let m = lc.save_custom_image_quality(PeerConfig::new(), 80);
    assert_eq!(option_of(m), OptionMessage { custom_image_quality: 80 << 8, ..OptionMessage::new() });
    assert_eq!(lc.config.image_quality, "custom");
    assert_eq!(lc.config.custom_image_quality, vec![80]);
}

#[test]
fn setting_custom_fps() {
    let mut lc = handler();
    lc.save_view_style(PeerConfig::new(), s("kept"));
    let m = lc.set_custom_fps(PeerConfig::new(), 25, false);
    assert_eq!(option_of(m), OptionMessage { custom_fps: 25, ..OptionMessage::new() });
    assert_eq!(lc.custom_fps, Some(25));
    assert_eq!(lc.get_option("custom-fps"), "");
    assert_eq!(lc.config.view_style, "kept");
    lc.set_custom_fps(PeerConfig::new(), 60, true);
    assert_eq!(lc.custom_fps, Some(60));
    assert_eq!(lc.get_option("custom-fps"), "60");
    assert_eq!(lc.config.view_style, "");
}

#[test]
fn custom_quality_caps() {
    assert_eq!(custom_quality(&vec![], false), 50);
    assert_eq!(custom_quality(&vec![], true), 50);
    assert_eq!(custom_quality(&vec![80], false), 80);
    assert_eq!(custom_quality(&vec![100], false), 100);
    assert_eq!(custom_quality(&vec![101], false), 100);
    assert_eq!(custom_quality(&vec![200], false), 100);
    assert_eq!(custom_quality(&vec![200], true), 200);
    assert_eq!(custom_quality(&vec![70, 200], false), 70);
}

#[test]
fn custom_fps_caps() {
    let mut options = StrMap::new();
    assert_eq!(stored_custom_fps(&options, false), None);
    options.insert(s("custom-fps"), s("25"));
    assert_eq!(stored_custom_fps(&options, false), Some(25));
    options.insert(s("custom-fps"), s("60"));
    assert_eq!(stored_custom_fps(&options, false), Some(30));
    assert_eq!(stored_custom_fps(&options, true), Some(60));
    options.insert(s("custom-fps"), s("fast"));
    assert_eq!(stored_custom_fps(&options, true), Some(30));
    options.insert(s("custom-fps"), s(""));
    assert_eq!(stored_custom_fps(&options, false), Some(30));
}

#[test]
fn sessions_without_options() {
    assert!(without_options(ConnType::FileTransfer));
    assert!(without_options(ConnType::PortForward));
    assert!(without_options(ConnType::Rdp));
    assert!(!without_options(ConnType::DefaultConn));
    for conn_type in [ConnType::FileTransfer, ConnType::PortForward, ConnType::Rdp] {
        let mut lc = handler();
        lc.conn_type = conn_type;
        lc.config.toggles.privacy_mode = true;
        assert_eq!(lc.get_option_message(&PeerConfig::new(), true, true, false), None);
        assert_eq!(lc.get_option_message_after_login(i64::MAX), None);
    }
}

#[test]
fn option_message_by_named_quality() {
    let mut lc = handler();
    lc.config.image_quality = s("low");
    lc.config.toggles.disable_audio = true;
    lc.config.toggles.follow_remote_cursor = true;
    let m = lc.get_option_message(&PeerConfig::new(), true, true, false).unwrap();
    assert_eq!(
        m,
        OptionMessage {
            image_quality: ImageQuality::Low,
            disable_audio: BoolOption::Yes,
            follow_remote_cursor: BoolOption::Yes,
            supported_decoding: true,
            ..OptionMessage::new()
        }
    );
    assert_eq!(lc.custom_fps, None);
}

#[test]
fn option_message_leaves_out_default_quality_at_login() {
    let mut lc = handler();
    lc.config.image_quality = s("balanced");
    let m = lc.get_option_message(&PeerConfig::new(), true, true, true).unwrap();
    assert_eq!(m.image_quality, ImageQuality::NotSet);
    assert_eq!(m.custom_image_quality, 0);
    let m = lc.get_option_message(&PeerConfig::new(), true, true, false).unwrap();
    assert_eq!(m.image_quality, ImageQuality::Balanced);
}

#[test]
fn option_message_by_custom_quality() {
    let mut lc = handler();
    lc.config.image_quality = s("custom");
    lc.config.options.insert(s("custom-fps"), s("45"));
    let mut stored = PeerConfig::new();
    stored.custom_image_quality = vec![150];
    // On the public servers and relayed: capped.
    lc.direct = Some(false);
    let m = lc.get_option_message(&stored, true, true, true).unwrap();
    assert_eq!(m.custom_image_quality, 100 << 8);
    assert_eq!(m.custom_fps, 30);
    assert_eq!(lc.custom_fps, Some(30));
    // On the public servers but direct: as stored.
    lc.direct = Some(true);
    let m = lc.get_option_message(&stored, true, true, true).unwrap();
    assert_eq!(m.custom_image_quality, 150 << 8);
    assert_eq!(m.custom_fps, 45);
    assert_eq!(lc.custom_fps, Some(45));
    // On another server: as stored.
    lc.direct = None;
    let m = lc.get_option_message(&stored, false, true, true).unwrap();
    assert_eq!(m.custom_image_quality, 150 << 8);
    assert_eq!(m.custom_fps, 45);
    // Nothing stored: 50.
    let m = lc.get_option_message(&PeerConfig::new(), true, true, true).unwrap();
    assert_eq!(m.custom_image_quality, 50 << 8);
    // An interface without a rate setting sends none.
    lc.custom_fps = None;
    let m = lc.get_option_message(&stored, false, false, true).unwrap();
    assert_eq!(m.custom_fps, 0);
    assert_eq!(lc.custom_fps, None);
}

#[test]
fn option_message_under_view_only() {
    let t = Toggles { view_only: true, enable_file_transfer: true, lock_after_session_end: true, ..Toggles::new() };
    assert_eq!(
        switch_options(t),
        OptionMessage {
            disable_keyboard: BoolOption::Yes,
            show_remote_cursor: BoolOption::Yes,
            disable_clipboard: BoolOption::Yes,
            supported_decoding: true,
            ..OptionMessage::new()
        }
    );
    let t = Toggles { view_only: false, ..t };
    assert_eq!(
        switch_options(t),
        OptionMessage {
            enable_file_transfer: BoolOption::Yes,
            lock_after_session_end: BoolOption::Yes,
            supported_decoding: true,
            ..OptionMessage::new()
        }
    );
}

#[test]
fn privacy_mode_is_repeated_for_old_peers() {
    let mut lc = handler();
    lc.version = 1_002_003;
    assert_eq!(lc.get_option_message_after_login(1_002_040), None);
    lc.config.toggles.privacy_mode = true;
    assert_eq!(
        lc.get_option_message_after_login(1_002_040),
        Some(OptionMessage { privacy_mode: BoolOption::Yes, ..OptionMessage::new() })
    );
    lc.version = 1_002_040;
    assert_eq!(lc.get_option_message_after_login(1_002_040), None);
}

#[test]
fn privacy_mode_support_comes_from_the_peer() {
    let mut lc = handler();
    assert!(!lc.is_privacy_mode_supported());
    lc.features = Some(Features { privacy_mode: false });
    assert!(!lc.is_privacy_mode_supported());
    lc.features = Some(Features { privacy_mode: true });
    assert!(lc.is_privacy_mode_supported());
}

#[test]
fn username_falls_back_on_the_remembered_one() {
    let mut lc = handler();
    lc.config.info.username = s("remembered");
    let mut pi = peer_info();
    assert_eq!(lc.get_username(&pi), "bob");
    pi.username = s("");
    assert_eq!(lc.get_username(&pi), "remembered");
}

#[test]
fn auto_login_needs_password_lock_and_option() {
    let mut lc = handler();
    assert_eq!(lc.should_auto_login(), "");
    lc.config.options.insert(s("os-password"), s("pw"));
    lc.config.options.insert(s("auto-login"), s("Y"));
    assert_eq!(lc.should_auto_login(), "");
    lc.config.toggles.lock_after_session_end = true;
    assert_eq!(lc.should_auto_login(), "pw");
    lc.config.options.remove("auto-login");
    assert_eq!(lc.should_auto_login(), "");
}

#[test]
fn direct_and_received_flags() {
    let mut lc = handler();
    lc.update_direct(Some(true));
    lc.update_received(true);
    assert_eq!(lc.direct, Some(true));
    assert!(lc.received);
    lc.update_direct(None);
    lc.update_received(false);
    assert_eq!(lc.direct, None);
    assert!(!lc.received);
}

#[test]
fn session_id_is_never_zero() {
    assert_eq!(session_id_from(0), 1);
    assert_eq!(session_id_from(1), 1);
    assert_eq!(session_id_from(u64::MAX), u64::MAX);
    let mut seen = Vec::new();
    for _ in 0..64 {
        let id = fresh_session_id();
        assert_ne!(id, 0);
        seen.push(id);
    }
    seen.sort();
    seen.dedup();
    assert!(seen.len() > 1);
}

#[test]
fn remote_dir_is_kept_per_user() {
    let mut lc = handler();
    lc.config.info.username = s("bob");
    assert_eq!(lc.get_remote_dir(), "");
    lc.config.options.insert(s("remote_dir"), s(r#"{"alice":"/home/alice","bob":"/srv/data"}"#));
    assert_eq!(lc.get_remote_dir(), "/srv/data");
    lc.config.info.username = s("carol");
    assert_eq!(lc.get_remote_dir(), "");
    lc.config.options.insert(s("remote_dir"), s("not json"));
    assert_eq!(lc.get_remote_dir(), "");
    lc.config.options.insert(s("remote_dir"), s(r#"{"carol":7}"#));
    assert_eq!(lc.get_remote_dir(), "");
    lc.config.options.insert(s("remote_dir"), s(r#"{"carol":"a","carol":"b"}"#));
    assert_eq!(lc.get_remote_dir(), "b");
}

#[test]
fn all_remote_dirs_after_a_change() {
    let mut lc = handler();
    lc.config.info.username = s("bob");
    assert_eq!(lc.get_all_remote_dir(s("/tmp")), r#"{"bob":"/tmp"}"#);
    assert_eq!(lc.get_all_remote_dir(s("")), "{}");
    lc.config.options.insert(s("remote_dir"), s(r#"{"carol":"/c","alice":"/a"}"#));
    assert_eq!(lc.get_all_remote_dir(s("/tmp")), r#"{"alice":"/a","bob":"/tmp","carol":"/c"}"#);
    lc.config.info.username = s("alice");
    assert_eq!(lc.get_all_remote_dir(s("/new \"dir\"")), r#"{"alice":"/new \"dir\"","carol":"/c"}"#);
    assert_eq!(lc.get_all_remote_dir(s("")), r#"{"carol":"/c"}"#);
    lc.config.options.insert(s("remote_dir"), s("[1,2]"));
    assert_eq!(lc.get_all_remote_dir(s("/x")), r#"{"alice":"/x"}"#);
}

#[test]
fn members_of_an_object() {
    let members = vec![(s("a"), s("1")), (s("b"), s("2"))];
    assert_eq!(member_of(members.clone(), "b"), "2");
    assert_eq!(member_of(members.clone(), "c"), "");
    assert_eq!(members_with(members.clone(), s("a"), s("9")), vec![(s("a"), s("9")), (s("b"), s("2"))]);
    assert_eq!(members_with(members.clone(), s("c"), s("3")), vec![(s("a"), s("1")), (s("b"), s("2")), (s("c"), s("3"))]);
    assert_eq!(members_with(members.clone(), s("a"), s("")), vec![(s("b"), s("2"))]);
    assert_eq!(members_with(members.clone(), s("z"), s("")), members);
}

#[test]
fn login_request_for_a_desktop_session() {
    let mut lc = handler();
    lc.config.image_quality = s("best");
    let lr = lc.create_login_msg(&local(), &PeerConfig::new(), s("root"), s("toor"), vec![1, 2, 3]);
    assert_eq!(lr.username, "123");
    assert_eq!(lr.my_id, "me");
    assert_eq!(lr.my_name, "alice");
    assert_eq!(lr.password, vec![1, 2, 3]);
    assert_eq!(lr.session_id, 42);
    assert_eq!(lr.version, "1.2.6");
    assert_eq!(lr.os_login.username, "root");
    assert_eq!(lr.os_login.password, "toor");
    assert_eq!(lr.option.unwrap().image_quality, ImageQuality::Best);
    assert!(matches!(lr.purpose, LoginPurpose::Desktop));
}

#[test]
fn login_request_through_a_named_server() {
    let mut lc = handler();
    lc.id = s("123@rs.example");
    lc.other_server = Some((s("123"), s("rs.example"), s("key")));
    let lr = lc.create_login_msg(&local(), &PeerConfig::new(), s(""), s(""), vec![]);
    assert_eq!(lr.username, "123");
    assert_eq!(lr.my_id, "me@rs.local");
}

#[test]
fn login_request_for_file_transfer() {
    let mut lc = handler();
    lc.conn_type = ConnType::FileTransfer;
    lc.config.info.username = s("bob");
    lc.config.options.insert(s("remote_dir"), s(r#"{"bob":"/srv"}"#));
    let lr = lc.create_login_msg(&local(), &PeerConfig::new(), s(""), s(""), vec![]);
    assert_eq!(lr.option, None);
    assert!(matches!(lr.purpose, LoginPurpose::FileTransfer { ref dir, show_hidden: false } if dir == "/srv"));
    lc.config.options.insert(s("remote_show_hidden"), s("Y"));
    assert!(matches!(lc.login_purpose(), LoginPurpose::FileTransfer { show_hidden: true, .. }));
}

#[test]
fn login_request_for_port_forward() {
    for conn_type in [ConnType::PortForward, ConnType::Rdp] {
        let mut lc = handler();
        lc.conn_type = conn_type;
        lc.port_forward = (s("10.0.0.2"), 3389);
        let lr = lc.create_login_msg(&local(), &PeerConfig::new(), s(""), s(""), vec![]);
        assert_eq!(lr.option, None);
        assert!(matches!(lr.purpose, LoginPurpose::PortForward { ref host, port: 3389 } if host == "10.0.0.2"));
    }
}

#[test]
fn initialize_starts_a_session() {
    let mut lc = LoginConfigHandler::new();
    lc.direct = Some(true);
    lc.received = true;
    lc.restarting_remote_device = true;
    lc.selected_windows_session_id = Some(3);
    let mut config = PeerConfig::new();
    config.password = vec![5; 32];
    config.view_style = s("adaptive");
    let target = session_target(parse_peer_id("123", ""), s("123"), false);
    lc.initialize(target, ConnType::FileTransfer, Some(s("uuid")), Some(7), Some(s("shared")), config);
    assert_eq!(lc.id, "123");
    assert_eq!(lc.conn_type, ConnType::FileTransfer);
    assert!(lc.remember);
    assert_eq!(lc.config.view_style, "adaptive");
    assert_ne!(lc.session_id, 0);
    assert!(!lc.force_relay);
    assert_eq!(lc.other_server, None);
    assert_eq!(lc.direct, None);
    assert!(!lc.received);
    assert!(!lc.restarting_remote_device);
    assert_eq!(lc.switch_uuid, Some(s("uuid")));
    assert_eq!(lc.adapter_luid, Some(7));
    assert_eq!(lc.selected_windows_session_id, None);
    assert_eq!(lc.shared_password, Some(s("shared")));
}

#[test]
fn initialize_without_stored_password_does_not_remember() {
    let mut lc = LoginConfigHandler::new();
    lc.remember = true;
    let target = session_target(parse_peer_id("123", ""), s("123"), false);
    lc.initialize(target, ConnType::DefaultConn, None, None, None, PeerConfig::new());
    assert!(!lc.remember);
}

#[test]
fn initialize_forces_relay_by_id_or_option() {
    let mut lc = LoginConfigHandler::new();
    let target = session_target(parse_peer_id("123/r", ""), s("123"), false);
    lc.initialize(target, ConnType::DefaultConn, None, None, None, PeerConfig::new());
    assert!(lc.force_relay);
    assert_eq!(lc.id, "123");
    let mut lc = LoginConfigHandler::new();
    let mut config = PeerConfig::new();
    config.options.insert(s("force-always-relay"), s("Y"));
    let target = session_target(parse_peer_id("123", ""), s("123"), false);
    lc.initialize(target, ConnType::DefaultConn, None, None, None, config);
    assert!(lc.force_relay);
}

#[test]
fn initialize_fills_in_the_stored_server_key() {
    let mut config = PeerConfig::new();
    config.options.insert(s("other-server-key"), s("stored-key"));
    let mut lc = LoginConfigHandler::new();
    let target = session_target(parse_peer_id("123@rs", ""), s("123"), false);
    lc.initialize(target, ConnType::DefaultConn, None, None, None, config.clone());
    assert_eq!(lc.id, "123@rs");
    assert_eq!(lc.other_server, Some((s("123"), s("rs"), s("stored-key"))));
    // A key in the id wins.
    let mut lc = LoginConfigHandler::new();
    let target = session_target(parse_peer_id("123@rs?key=given", ""), s("123"), false);
    lc.initialize(target, ConnType::DefaultConn, None, None, None, config);
    assert_eq!(lc.other_server, Some((s("123"), s("rs"), s("given"))));
}

#[test]
fn peer_info_is_recorded() {
    let mut lc = handler();
    let event = lc.handle_peer_info(&peer_info(), PeerConfig::new(), 1_002_030, BOTH);
    assert_eq!(event, None);
    assert_eq!(lc.version, 1_002_030);
    assert_eq!(lc.features, Some(Features { privacy_mode: true }));
    assert_eq!(lc.config.info.username, "bob");
    assert_eq!(lc.config.info.hostname, "box");
    assert_eq!(lc.config.info.platform, "Linux");
    assert_eq!(lc.supported_encoding, SupportedEncoding { h264: true, h265: false, vp8: true, av1: false });
    assert_eq!(lc.config.keyboard_mode, "map");
    let mut pi = peer_info();
    pi.version = s("");
    pi.encoding = None;
    pi.features = None;
    lc.handle_peer_info(&pi, PeerConfig::new(), 999, BOTH);
    assert_eq!(lc.version, 1_002_030);
    assert_eq!(lc.features, None);
    assert_eq!(lc.supported_encoding, SupportedEncoding { h264: false, h265: false, vp8: false, av1: false });
}

#[test]
fn peer_info_chooses_keyboard_mode() {
    let mut lc = handler();
    lc.handle_peer_info(&peer_info(), PeerConfig::new(), 1, KeyboardSupport { map: false, stored: true });
    assert_eq!(lc.config.keyboard_mode, "legacy");
    let mut stored = PeerConfig::new();
    stored.keyboard_mode = s("translate");
    lc.handle_peer_info(&peer_info(), stored.clone(), 1, KeyboardSupport { map: true, stored: true });
    assert_eq!(lc.config.keyboard_mode, "translate");
    lc.handle_peer_info(&peer_info(), stored, 1, KeyboardSupport { map: true, stored: false });
    assert_eq!(lc.config.keyboard_mode, "legacy");
}

#[test]
fn peer_info_remembers_a_new_password() {
    let mut lc = handler();
    lc.remember = true;
    lc.password = vec![1; 32];
    let mut stored = PeerConfig::new();
    stored.password = vec![2; 32];
    let event = lc.handle_peer_info(&peer_info(), stored, 1, BOTH);
    assert_eq!(lc.config.password, vec![1; 32]);
    // The password comes from no address book: it is to be copied there.
    assert_eq!(
        event,
        Some(s(r#"{"hash":"AQEBAQEBAQEBAQEBAQEBAQEBAQEBAQEBAQEBAQEBAQE=","id":"123","name":"sync_peer_hash_password_to_personal_ab"}"#))
    );
}

#[test]
fn peer_info_keeps_the_stored_password_without_a_new_one() {
    let mut lc = handler();
    lc.remember = true;
    let mut stored = PeerConfig::new();
    stored.password = vec![2; 32];
    lc.handle_peer_info(&peer_info(), stored, 1, BOTH);
    assert_eq!(lc.config.password, vec![2; 32]);
}

#[test]
fn peer_info_does_not_store_a_shared_password() {
    let mut lc = handler();
    lc.remember = true;
    lc.hash.salt = s("salt");
    lc.password = salted("shared-pw", "salt");
    lc.password_source = PasswordSource::SharedAb(s("shared-pw"));
    let mut stored = PeerConfig::new();
    stored.password = vec![2; 32];
    let event = lc.handle_peer_info(&peer_info(), stored, 1, BOTH);
    assert_eq!(lc.config.password, vec![2; 32]);
    assert_eq!(event, None);
}

#[test]
fn peer_info_forgets_the_password_when_not_remembering() {
    let mut lc = handler();
    lc.remember = false;
    lc.password = vec![1; 32];
    let mut stored = PeerConfig::new();
    stored.password = vec![2; 32];
    let event = lc.handle_peer_info(&peer_info(), stored, 1, BOTH);
    assert!(lc.config.password.is_empty());
    assert_eq!(event, None);
}

#[test]
fn peer_info_stores_a_personal_address_book_password() {
    let mut lc = handler();
    lc.remember = false;
    lc.password = vec![1; 32];
    lc.password_source = PasswordSource::PersonalAb(vec![1; 32]);
    let event = lc.handle_peer_info(&peer_info(), PeerConfig::new(), 1, BOTH);
    assert_eq!(lc.config.password, vec![1; 32]);
    assert_eq!(event, None);
}

#[test]
fn peer_info_stores_server_key_and_relay() {
    let mut lc = handler();
    lc.other_server = Some((s("123"), s("rs"), s("key")));
    lc.force_relay = true;
    lc.handle_peer_info(&peer_info(), PeerConfig::new(), 1, BOTH);
    assert_eq!(lc.get_option("other-server-key"), "key");
    assert_eq!(lc.get_option("force-always-relay"), "Y");
    let mut lc = handler();
    lc.other_server = Some((s("123"), s("public"), s("key")));
    lc.handle_peer_info(&peer_info(), PeerConfig::new(), 1, BOTH);
    assert_eq!(lc.get_option("other-server-key"), "");
    assert_eq!(lc.get_option("force-always-relay"), "");
}

#[test]
fn sync_event_is_json_with_base64() {
    assert_eq!(
        sync_event("9", b"hello"),
        r#"{"hash":"aGVsbG8=","id":"9","name":"sync_peer_hash_password_to_personal_ab"}"#
    );
}

#[test]
fn configuration_can_be_changed_in_place() {
    let mut lc = handler();
    lc.get_config().view_style = s("adaptive");
    lc.get_config().toggles.disable_audio = true;
    assert_eq!(lc.config.view_style, "adaptive");
    assert!(lc.get_toggle_option("disable-audio"));
}

#[test]
fn initialize_keeps_an_earlier_server_for_a_plain_id() {
    let mut config = PeerConfig::new();
    config.options.insert(s("other-server-key"), s("stored-key"));
    let mut lc = LoginConfigHandler::new();
    lc.other_server = Some((s("123"), s("rs"), s("")));
    let target = session_target(parse_peer_id("123", ""), s("123"), false);
    lc.initialize(target, ConnType::DefaultConn, None, None, None, config);
    assert_eq!(lc.id, "123");
    assert_eq!(lc.other_server, Some((s("123"), s("rs"), s("stored-key"))));
}
