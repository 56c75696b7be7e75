use thunder_mirror::shell::{
    button_from_id, classify_log_line, plan_click, point_in_rect, rgb_to_colorref, Button,
    ButtonPlan, ConnectionStatus, LogLineEvent, Rect, COLOR_ACCENT_BLUE, COLOR_GREEN, COLOR_RED,
    COLOR_TEXT_SECONDARY,
};

fn connection(line: &str) -> Option<ConnectionStatus> {
    match classify_log_line(line) {
        Some(LogLineEvent::Connection(status)) => Some(status),
        _ => None,
    }
}

fn stats(line: &str) -> Option<String> {
    match classify_log_line(line) {
        Some(LogLineEvent::Stats(text)) => Some(text),
        _ => None,
    }
}

#[test]
fn colours_change_red_and_blue() {
    assert_eq!(rgb_to_colorref(0x112233), 0x332211);
    assert_eq!(rgb_to_colorref(0xFF0000), 0x0000FF);
    assert_eq!(rgb_to_colorref(0x0000FF), 0xFF0000);
    assert_eq!(rgb_to_colorref(0x00FF00), 0x00FF00);
    assert_eq!(rgb_to_colorref(0), 0);
    assert_eq!(rgb_to_colorref(0xFFFFFF), 0xFFFFFF);
    assert_eq!(rgb_to_colorref(0xAB112233), 0x332211);
    assert_eq!(rgb_to_colorref(0x0D1117), 0x17110D);
}

#[test]
fn points_and_rectangles() {
    let rect = Rect { left: 24, top: 340, right: 180, bottom: 385 };
    assert!(point_in_rect(24, 340, &rect));
    assert!(point_in_rect(179, 384, &rect));
    assert!(point_in_rect(100, 360, &rect));
    assert!(!point_in_rect(23, 340, &rect));
    assert!(!point_in_rect(24, 339, &rect));
    assert!(!point_in_rect(180, 360, &rect));
    assert!(!point_in_rect(100, 385, &rect));
    let empty = Rect { left: 5, top: 5, right: 5, bottom: 9 };
    assert!(!point_in_rect(5, 6, &empty));
    let negative = Rect { left: -10, top: -10, right: 0, bottom: 0 };
    assert!(point_in_rect(-1, -10, &negative));
    assert!(!point_in_rect(0, 0, &negative));
}

#[test]
fn connection_lines() {
    assert_eq!(
        connection("INFO Connection accepted from 192.168.50.1:50000"),
        Some(ConnectionStatus::Connected)
    );
    assert_eq!(
        connection("INFO Connection closed (bi accept): closed"),
        Some(ConnectionStatus::Disconnected)
    );
    assert_eq!(
        connection("INFO QUIC server listening on 0.0.0.0:9999"),
        Some(ConnectionStatus::Listening)
    );
    assert_eq!(connection("ERROR QUIC server error: bind"), Some(ConnectionStatus::Error));
    assert_eq!(connection("ERROR Connection error: reset"), Some(ConnectionStatus::Error));
    assert_eq!(connection("INFO Window created, waiting for frames..."), None);
    assert_eq!(connection(""), None);
    assert_eq!(connection("connection accepted from"), None);
}

#[test]
fn the_first_rule_that_holds_decides() {
    assert_eq!(
        connection("Connection closed; Connection accepted from x"),
        Some(ConnectionStatus::Connected)
    );
    assert_eq!(
        connection("Stats: 1 FPS Connection closed"),
        Some(ConnectionStatus::Disconnected)
    );
    assert_eq!(stats("QUIC server listening Stats: 5 FPS"), Some("5 FPS".to_string()));
    assert_eq!(
        connection("Connection error while QUIC server listening"),
        Some(ConnectionStatus::Listening)
    );
}

#[test]
fn statistics_lines() {
    assert_eq!(
        stats("2024-01-01 INFO Stats: 60.0 FPS, 12.5 Mbps, H.264 (h264:60, raw:0)"),
        Some("60.0 FPS, 12.5 Mbps, H.264 (h264:60, raw:0)".to_string())
    );
    assert_eq!(stats("Stats:    padded   "), Some("padded".to_string()));
    assert_eq!(stats("Stats: "), Some("".to_string()));
    assert_eq!(stats("Stats: first Stats: second"), Some("first".to_string()));
    assert_eq!(stats("Stats: Stats: second"), Some("".to_string()));
    assert_eq!(stats("Stats:no space"), None);
    assert_eq!(stats("stats: lower"), None);
}

#[test]
fn status_labels_and_colours() {
    assert_eq!(ConnectionStatus::Disconnected.label(), "Disconnected");
    assert_eq!(ConnectionStatus::Listening.label(), "Listening");
    assert_eq!(ConnectionStatus::Connected.label(), "Connected");
    assert_eq!(ConnectionStatus::Error.label(), "Error");
    assert_eq!(ConnectionStatus::Connected.color(), COLOR_GREEN);
    assert_eq!(ConnectionStatus::Listening.color(), COLOR_ACCENT_BLUE);
    assert_eq!(ConnectionStatus::Error.color(), COLOR_RED);
    assert_eq!(ConnectionStatus::Disconnected.color(), COLOR_TEXT_SECONDARY);
    assert_eq!(COLOR_GREEN, 0x3FB950);
}

#[test]
fn buttons_by_identifier() {
    assert_eq!(button_from_id(1001), Some(Button::Start));
    assert_eq!(button_from_id(1002), Some(Button::Stop));
    assert_eq!(button_from_id(1003), Some(Button::Fullscreen));
    assert_eq!(button_from_id(1000), None);
    assert_eq!(button_from_id(1004), None);
    assert_eq!(button_from_id(0), None);
}

#[test]
fn start_starts_unless_running() {
    assert_eq!(
        plan_click(Button::Start, false, false),
        ButtonPlan { stop: false, start: true, fullscreen: false }
    );
    assert_eq!(
        plan_click(Button::Start, false, true),
        ButtonPlan { stop: false, start: true, fullscreen: true }
    );
    assert_eq!(
        plan_click(Button::Start, true, true),
        ButtonPlan { stop: false, start: false, fullscreen: true }
    );
}

#[test]
fn stop_stops_what_runs() {
    assert_eq!(
        plan_click(Button::Stop, true, false),
        ButtonPlan { stop: true, start: false, fullscreen: false }
    );
    assert_eq!(
        plan_click(Button::Stop, false, true),
        ButtonPlan { stop: false, start: false, fullscreen: true }
    );
}

#[test]
fn fullscreen_switches_over_and_restarts() {
    assert_eq!(
        plan_click(Button::Fullscreen, false, false),
        ButtonPlan { stop: false, start: false, fullscreen: true }
    );
    assert_eq!(
        plan_click(Button::Fullscreen, true, false),
        ButtonPlan { stop: true, start: true, fullscreen: true }
    );
    assert_eq!(
        plan_click(Button::Fullscreen, true, true),
        ButtonPlan { stop: true, start: true, fullscreen: false }
    );
}
