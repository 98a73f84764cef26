//! Request classification, the status document, server state, and the
//! control-surface decisions.

use rustcast::capture::capture_transition;
use rustcast::capture::CaptureCommand;
use rustcast::capture::CaptureQueue;
use rustcast::config::Config;
use rustcast::control::apply_gui_action;
use rustcast::control::parse_tray_command;
use rustcast::control::ControlEffect;
use rustcast::control::ControlFlags;
use rustcast::control::GuiAction;
use rustcast::control::TrayAction;
use rustcast::encoder::mp3_bitrate_setting;
use rustcast::server::build_status_json;
use rustcast::server::classify_path;
use rustcast::server::u64_to_dec;
use rustcast::server::Route;
use rustcast::server::StreamServer;

#[test]
fn paths_classify_per_table() {
    assert_eq!(classify_path(b"/"), Route::Player);
    assert_eq!(classify_path(b"/stream"), Route::Progressive);
    assert_eq!(classify_path(b"/stream.mp3"), Route::Progressive);
    assert_eq!(classify_path(b"/stream.opus"), Route::OggHttp);
    assert_eq!(classify_path(b"/stream.ogg"), Route::OggHttp);
    assert_eq!(classify_path(b"/ws"), Route::WebSocket);
    assert_eq!(classify_path(b"/status"), Route::Status);
    assert_eq!(classify_path(b"/nope"), Route::NotFound);
    assert_eq!(classify_path(b""), Route::NotFound);
}

#[test]
fn query_string_is_stripped_before_matching() {
    assert_eq!(classify_path(b"/stream.opus?1699999999"), Route::OggHttp);
    assert_eq!(classify_path(b"/?autoplay=1"), Route::Player);
    assert_eq!(classify_path(b"/status?x"), Route::Status);
    assert_eq!(classify_path(b"/stream.opusx?y"), Route::NotFound);
}

#[test]
fn decimal_rendering() {
    assert_eq!(u64_to_dec(0), b"0".to_vec());
    assert_eq!(u64_to_dec(7), b"7".to_vec());
    assert_eq!(u64_to_dec(12345), b"12345".to_vec());
    assert_eq!(u64_to_dec(u64::MAX), b"18446744073709551615".to_vec());
}

#[test]
fn status_document_exact_bytes() {
    assert_eq!(
        build_status_json(3, true),
        br#"{"clients": 3, "running": true}"#.to_vec()
    );
    assert_eq!(
        build_status_json(0, false),
        br#"{"clients": 0, "running": false}"#.to_vec()
    );
}

#[test]
fn server_state_transitions() {
    let mut s = StreamServer::new(3000);
    assert_eq!(s.port, 3000);
    assert!(!s.is_running());
    assert_eq!(s.client_count(), 0);
    s.mark_running();
    assert!(s.is_running());
    s.client_connected();
    s.client_connected();
    assert_eq!(s.client_count(), 2);
    s.client_disconnected();
    assert_eq!(s.client_count(), 1);
    s.stop();
    assert!(!s.is_running());
    assert_eq!(s.status_body(), br#"{"clients": 1, "running": false}"#.to_vec());

    let s2 = StreamServer::with_client_count(8080, 5);
    assert_eq!(s2.client_count(), 5);
    assert_eq!(s2.port, 8080);
}

#[test]
fn default_config_values() {
    let c = Config::default();
    assert_eq!(c.port, 3000);
    assert_eq!(c.bitrate, 192);
    assert!(c.auto_start);
}

#[test]
fn bitrate_mapping_keeps_supported_values() {
    assert_eq!(mp3_bitrate_setting(128), 128);
    assert_eq!(mp3_bitrate_setting(320), 320);
    assert_eq!(mp3_bitrate_setting(100), 192);
    assert_eq!(mp3_bitrate_setting(0), 192);
}

#[test]
fn capture_transitions() {
    assert_eq!(capture_transition(true, false), CaptureCommand::Start);
    assert_eq!(capture_transition(false, true), CaptureCommand::Stop);
    assert_eq!(capture_transition(true, true), CaptureCommand::Keep);
    assert_eq!(capture_transition(false, false), CaptureCommand::Keep);
}

#[test]
fn capture_queue_sheds_oldest_when_full() {
    let mut q = CaptureQueue::new(2);
    assert!(!q.offer(vec![1i16]));
    assert!(!q.offer(vec![2i16]));
    assert!(q.offer(vec![3i16]));
    assert_eq!(q.dropped_count(), 1);
    assert_eq!(q.poll(), Some(vec![2i16]));
    assert_eq!(q.poll(), Some(vec![3i16]));
    assert_eq!(q.poll(), None);
}

#[test]
fn gui_actions_drive_the_flags() {
    let mut flags = ControlFlags { should_stream: false, app_quit: false };
    assert_eq!(
        apply_gui_action(&mut flags, &GuiAction::ToggleStream),
        ControlEffect::Nothing
    );
    assert!(flags.should_stream);
    assert_eq!(
        apply_gui_action(&mut flags, &GuiAction::ToggleStream),
        ControlEffect::Nothing
    );
    assert!(!flags.should_stream);
    let c = Config::default();
    assert_eq!(
        apply_gui_action(&mut flags, &GuiAction::SaveConfig(c)),
        ControlEffect::Save(c)
    );
    assert_eq!(
        apply_gui_action(&mut flags, &GuiAction::OpenBrowser),
        ControlEffect::Browse
    );
    assert!(!flags.app_quit);
    assert_eq!(apply_gui_action(&mut flags, &GuiAction::Quit), ControlEffect::Nothing);
    assert!(flags.app_quit);
}

#[test]
fn console_lines_parse_to_tray_actions() {
    assert_eq!(parse_tray_command(b"o"), Some(TrayAction::OpenBrowser));
    assert_eq!(parse_tray_command(b"open"), Some(TrayAction::OpenBrowser));
    assert_eq!(parse_tray_command(b"  T \n"), Some(TrayAction::ToggleStream));
    assert_eq!(parse_tray_command(b"toggle"), Some(TrayAction::ToggleStream));
    assert_eq!(parse_tray_command(b"Settings"), Some(TrayAction::Settings));
    assert_eq!(parse_tray_command(b"q"), Some(TrayAction::Quit));
    assert_eq!(parse_tray_command(b"QUIT\r\n"), Some(TrayAction::Quit));
    assert_eq!(parse_tray_command(b"exit"), Some(TrayAction::Quit));
    assert_eq!(parse_tray_command(b"help"), None);
    assert_eq!(parse_tray_command(b""), None);
}
