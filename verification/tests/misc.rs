use remote_client::audio::{
    decode_buffer_len, decoder_channels, drain_count, AudioBuffer, AudioFormat, AudioHandler,
    ChannelCounts, Channels, Playback, Rates, SinkPlan, AUDIO_BUFFER_SAMPLES,
};
use remote_client::clipboard::{get_current_text_clipboard_msg, Poll, TextClipboardState, CLIPBOARD_INTERVAL};
use remote_client::config::{PeerConfig, Toggles};
use remote_client::message::{handle_test_delay, BoolOption, ImageQuality, Message, OptionMessage, TestDelay};

fn format(sample_rate: u32, channels: u32) -> AudioFormat {
    AudioFormat { sample_rate, channels }
}

#[test]
fn test_delay_from_the_peer_is_echoed() {
    let t = TestDelay { time: 12, from_client: false, last_delay: 3, target_bitrate: 4 };
    assert!(matches!(handle_test_delay(t), Some(Message::TestDelay(echo)) if echo == t));
    let t = TestDelay { from_client: true, ..t };
    assert!(handle_test_delay(t).is_none());
}

#[test]
fn bool_options() {
    assert_eq!(BoolOption::of(true), BoolOption::Yes);
    assert_eq!(BoolOption::of(false), BoolOption::No);
    assert_eq!(BoolOption::yes_if(true), BoolOption::Yes);
    assert_eq!(BoolOption::yes_if(false), BoolOption::NotSet);
}

#[test]
fn empty_option_message_asks_for_nothing() {
    let m = OptionMessage::new();
    assert_eq!(m.image_quality, ImageQuality::NotSet);
    assert_eq!(m.custom_image_quality, 0);
    assert_eq!(m.custom_fps, 0);
    assert!(!m.supported_decoding);
    for b in [
        m.lock_after_session_end,
        m.show_remote_cursor,
        m.privacy_mode,
        m.block_input,
        m.disable_audio,
        m.disable_clipboard,
        m.enable_file_transfer,
        m.disable_keyboard,
        m.follow_remote_cursor,
        m.follow_remote_window,
    ] {
        assert_eq!(b, BoolOption::NotSet);
    }
}

#[test]
fn new_configuration_is_empty() {
    let c = PeerConfig::new();
    assert!(c.password.is_empty());
    assert_eq!(c.image_quality, "");
    assert_eq!(c.direct_failures, 0);
    assert_eq!(c.toggles, Toggles::new());
    assert!(!c.toggles.view_only);
    assert_eq!(c.options.len(), 0);
    assert_eq!(c.ui_flutter.len(), 0);
    assert!(c.custom_resolutions.is_empty());
    assert_eq!(c.info.username, "");
}

#[test]
fn clipboard_loop_is_started_once() {
    let mut state = TextClipboardState::new();
    assert!(state.is_required);
    assert!(!state.running);
    assert_eq!(state.poll(), Poll::Exit);
    assert!(state.try_start_clipboard());
    assert!(state.running);
    assert!(!state.try_start_clipboard());
    assert!(!state.try_start_clipboard());
    assert!(state.running);
    assert_eq!(state.poll(), Poll::Check);
}

#[test]
fn clipboard_loop_stops_after_the_last_session() {
    let mut state = TextClipboardState::new();
    state.try_start_clipboard();
    state.try_stop_clipboard(true);
    assert!(state.running);
    state.try_stop_clipboard(false);
    assert!(!state.running);
    assert_eq!(state.poll(), Poll::Exit);
    assert!(state.try_start_clipboard());
}

#[test]
fn clipboard_loop_idles_when_not_required() {
    let mut state = TextClipboardState::new();
    state.try_start_clipboard();
    state.set_is_text_clipboard_required(false);
    assert_eq!(state.poll(), Poll::Skip);
    state.set_is_text_clipboard_required(true);
    assert_eq!(state.poll(), Poll::Check);
    assert_eq!(CLIPBOARD_INTERVAL, 333);
}

#[test]
fn current_clipboard_text() {
    assert_eq!(get_current_text_clipboard_msg(""), None);
    assert_eq!(get_current_text_clipboard_msg("copied"), Some("copied".to_owned()));
}

#[test]
fn decoder_layout_by_channels() {
    assert_eq!(decoder_channels(format(48000, 0)), Channels::Mono);
    assert_eq!(decoder_channels(format(48000, 1)), Channels::Mono);
    assert_eq!(decoder_channels(format(48000, 2)), Channels::Stereo);
    assert_eq!(decoder_channels(format(48000, 6)), Channels::Stereo);
}

#[test]
fn decode_buffer_holds_a_second() {
    assert_eq!(decode_buffer_len(format(48000, 2)), 96000);
    assert_eq!(decode_buffer_len(format(44100, 1)), 44100);
    assert_eq!(decode_buffer_len(format(u32::MAX, u32::MAX)), (u32::MAX as u64) * (u32::MAX as u64));
    assert_eq!(AUDIO_BUFFER_SAMPLES, 48000 * 2);
}

#[test]
fn device_gets_what_the_buffer_holds() {
    assert_eq!(drain_count(100, 480), 100);
    assert_eq!(drain_count(480, 480), 480);
    assert_eq!(drain_count(1000, 480), 480);
    assert_eq!(drain_count(0, 480), 0);
    assert_eq!(drain_count(5, 0), 0);
}

#[test]
fn sink_plan_avoids_rechannelling() {
    assert_eq!(AudioHandler::sink_plan(format(48000, 1), 2), SinkPlan::FormatChannelsFirst { channels: 1 });
    assert_eq!(AudioHandler::sink_plan(format(48000, 2), 2), SinkPlan::FormatChannelsFirst { channels: 2 });
    assert_eq!(AudioHandler::sink_plan(format(48000, 6), 2), SinkPlan::DeviceOnly);
}

#[test]
fn frames_play_once_the_device_asks() {
    let mut audio = AudioHandler::new();
    assert_eq!(audio.handle_frame(480), None);
    assert!(audio.handle_format(format(48000, 2), true));
    assert!(audio.decoder_ready);
    assert_eq!(audio.channels, 2);
    assert_eq!(audio.handle_frame(480), None);
    audio.sink_opened(format(48000, 2), 48000, 2);
    assert_eq!(audio.sample_rate, Rates { source: 48000, device: 48000 });
    assert_eq!(audio.handle_frame(480), None);
    audio.device_called();
    assert_eq!(audio.handle_frame(480), Some(Playback { samples: 960, resample: None, rechannel: None }));
}

#[test]
fn frames_are_resampled_and_rechannelled_where_needed() {
    let mut audio = AudioHandler::new();
    audio.handle_format(format(48000, 1), true);
    audio.sink_opened(format(48000, 1), 44100, 2);
    audio.device_called();
    assert_eq!(
        audio.handle_frame(480),
        Some(Playback {
            samples: 480,
            resample: Some(Rates { source: 48000, device: 44100 }),
            rechannel: Some(ChannelCounts { source: 1, device: 2 }),
        })
    );
}

#[test]
fn failed_decoder_opens_no_output() {
    let mut audio = AudioHandler::new();
    assert!(!audio.handle_format(format(48000, 2), false));
    assert_eq!(audio, AudioHandler::new());
}

#[test]
fn audio_buffer_hands_out_oldest_samples_first() {
    let mut buffer = AudioBuffer::new();
    assert_eq!(buffer.len(), 0);
    buffer.push(&[1, 2, 3]);
    buffer.push(&[4, 5]);
    assert_eq!(buffer.len(), 5);
    assert_eq!(buffer.fill(2), vec![1, 2]);
    assert_eq!(buffer.len(), 3);
    assert_eq!(buffer.fill(0), Vec::<u32>::new());
    assert_eq!(buffer.fill(3), vec![3, 4, 5]);
    assert_eq!(buffer.len(), 0);
}

#[test]
fn audio_buffer_pads_with_silence() {
    let mut buffer = AudioBuffer::new();
    assert_eq!(buffer.fill(4), vec![0, 0, 0, 0]);
    let one = 1.0f32.to_bits();
    buffer.push(&[one, one]);
    assert_eq!(buffer.fill(5), vec![one, one, 0, 0, 0]);
    assert_eq!(buffer.len(), 0);
    assert_eq!(f32::from_bits(0), 0.0);
}

#[test]
fn audio_buffer_keeps_the_latest_second() {
    let mut buffer = AudioBuffer::new();
    let first: Vec<u32> = (0..AUDIO_BUFFER_SAMPLES as u32).collect();
    buffer.push(&first);
    assert_eq!(buffer.len(), AUDIO_BUFFER_SAMPLES);
    buffer.push(&[7, 8, 9]);
    assert_eq!(buffer.len(), AUDIO_BUFFER_SAMPLES);
    // The three oldest samples gave way.
    assert_eq!(buffer.fill(2), vec![3, 4]);
    let rest = buffer.fill(AUDIO_BUFFER_SAMPLES);
    assert_eq!(rest.len(), AUDIO_BUFFER_SAMPLES);
    assert_eq!(&rest[AUDIO_BUFFER_SAMPLES - 5..], &[7, 8, 9, 0, 0][..]);
    assert_eq!(rest[0], 5);
}

#[test]
fn audio_buffer_takes_the_end_of_a_long_push() {
    let mut buffer = AudioBuffer::new();
    buffer.push(&[1, 2, 3]);
    let long: Vec<u32> = (0..(AUDIO_BUFFER_SAMPLES as u32 + 10)).collect();
    buffer.push(&long);
    assert_eq!(buffer.len(), AUDIO_BUFFER_SAMPLES);
    assert_eq!(buffer.fill(3), vec![10, 11, 12]);
}
