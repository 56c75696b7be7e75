use thunder_mirror::cli::{get_screen_dimensions, plan_window, Args, WindowPlan};

#[test]
fn test_args_defaults() {
    let args = Args::default();
    assert_eq!(args.mac_ip, "192.168.50.1");
    assert_eq!(args.port, 9999);
    assert!(!args.fullscreen);
}

#[test]
fn default_log_level_is_info() {
    assert_eq!(Args::default().log_level, "info");
}

#[test]
fn windowed_receiver_gets_a_resizable_window() {
    let plan = plan_window(false, None, 1920, 1080);
    let expected =
        WindowPlan { width: 1920, height: 1080, resize: true, borderless: false, topmost: false };
    assert_eq!(plan, expected);
    assert_eq!(plan_window(false, Some((800, 600)), 1920, 1080), expected);
}

#[test]
fn fullscreen_receiver_covers_the_screen() {
    assert_eq!(
        plan_window(true, Some((2560, 1440)), 1920, 1080),
        WindowPlan { width: 2560, height: 1440, resize: false, borderless: true, topmost: true }
    );
    assert_eq!(
        plan_window(true, None, 1920, 1080),
        WindowPlan { width: 1920, height: 1080, resize: false, borderless: true, topmost: true }
    );
}

#[test]
fn screen_size_is_known_when_both_numbers_are_above_zero() {
    assert_eq!(get_screen_dimensions(1920, 1080), Some((1920, 1080)));
    assert_eq!(get_screen_dimensions(1, 1), Some((1, 1)));
    assert_eq!(get_screen_dimensions(0, 1080), None);
    assert_eq!(get_screen_dimensions(1920, 0), None);
    assert_eq!(get_screen_dimensions(0, 0), None);
    assert_eq!(get_screen_dimensions(-1, 1080), None);
    assert_eq!(get_screen_dimensions(i32::MAX, i32::MAX), Some((2147483647, 2147483647)));
}
