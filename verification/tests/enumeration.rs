use framefit::window_manager::{
    check_accessibility_permissions, copy_window, first_eligible, get_frontmost_window,
    hidden_owner,
    list_windows, listable_window, parse_window_info, passed_over, Platform, RawBounds, RawWindow,
    WindowError, WindowInfo,
};

fn bounds(x: f64, y: f64, width: f64, height: f64) -> RawBounds {
    RawBounds {
        x: Some(x.to_bits()),
        y: Some(y.to_bits()),
        width: Some(width.to_bits()),
        height: Some(height.to_bits()),
    }
}

fn record(number: i32, name: &str, owner: &str, width: f64, height: f64) -> RawWindow {
    RawWindow {
        number: Some(number),
        name: Some(name.to_string()),
        owner_name: Some(owner.to_string()),
        bounds: Some(bounds(10.0, 20.0, width, height)),
    }
}

fn window(id: u32, owner: &str) -> WindowInfo {
    WindowInfo {
        id,
        title: format!("window {}", id),
        app_name: owner.to_string(),
        x: 0,
        y: 0,
        width: 800,
        height: 600,
    }
}

#[test]
fn permission_needs_a_native_platform_and_a_handle() {
    assert!(check_accessibility_permissions(Platform::Native, true));
    assert!(!check_accessibility_permissions(Platform::Native, false));
    assert!(!check_accessibility_permissions(Platform::Unsupported, true));
    assert!(!check_accessibility_permissions(Platform::Unsupported, false));
}

#[test]
fn a_full_record_is_decoded_field_by_field() {
    let raw = RawWindow {
        number: Some(4711),
        name: Some("Inbox".to_string()),
        owner_name: Some("Mail".to_string()),
        bounds: Some(bounds(100.9, -20.5, 1280.99, 720.0)),
    };
    assert_eq!(
        parse_window_info(&raw),
        WindowInfo {
            id: 4711,
            title: "Inbox".to_string(),
            app_name: "Mail".to_string(),
            x: 100,
            y: -20,
            width: 1280,
            height: 720,
        }
    );
}

#[test]
fn an_empty_record_decodes_to_defaults() {
    let raw = RawWindow { number: None, name: None, owner_name: None, bounds: None };
    assert_eq!(
        parse_window_info(&raw),
        WindowInfo {
            id: 0,
            title: String::new(),
            app_name: String::new(),
            x: 0,
            y: 0,
            width: 0,
            height: 0,
        }
    );
}

#[test]
fn missing_bounds_fields_decode_to_zero() {
    let raw = RawWindow {
        number: Some(1),
        name: None,
        owner_name: Some("Notes".to_string()),
        bounds: Some(RawBounds {
            x: None,
            y: Some(33.3f64.to_bits()),
            width: Some(640.0f64.to_bits()),
            height: None,
        }),
    };
    let decoded = parse_window_info(&raw);
    assert_eq!((decoded.x, decoded.y, decoded.width, decoded.height), (0, 33, 640, 0));
    assert_eq!(decoded.title, "");
    assert_eq!(decoded.app_name, "Notes");
}

#[test]
fn a_negative_window_number_keeps_its_bits() {
    let raw = RawWindow { number: Some(-1), name: None, owner_name: None, bounds: None };
    assert_eq!(parse_window_info(&raw).id, 0xffff_ffff);
}

#[test]
fn long_names_are_cut_when_decoded() {
    let raw = RawWindow {
        number: Some(9),
        name: Some("t".repeat(400)),
        owner_name: Some("o".repeat(255)),
        bounds: None,
    };
    let decoded = parse_window_info(&raw);
    assert_eq!(decoded.title, "t".repeat(255));
    assert_eq!(decoded.app_name, "o".repeat(255));
}

#[test]
fn hidden_owners_are_matched_without_regard_to_case() {
    for owner in ["Dock", "dock", "DOCK", "Window Server", "window server", "FrameFit", "framefit", "FRAMEFIT"] {
        assert!(hidden_owner(owner));
    }
    for owner in ["Safari", "", "Docker", "WindowServer", "Frame Fit", "Window Server "] {
        assert!(!hidden_owner(owner));
    }
}

#[test]
fn windows_must_exceed_fifty_pixels_both_ways() {
    let mut w = window(1, "Safari");
    assert!(listable_window(&w));
    w.width = 50;
    assert!(!listable_window(&w));
    w.width = 51;
    w.height = 50;
    assert!(!listable_window(&w));
    w.height = 51;
    assert!(listable_window(&w));
    w.width = -800;
    assert!(!listable_window(&w));
}

#[test]
fn list_windows_is_not_supported_without_a_window_server() {
    assert_eq!(list_windows(Platform::Unsupported, &None), Err(WindowError::NotSupported));
    assert_eq!(
        list_windows(Platform::Unsupported, &Some(vec![record(1, "a", "Safari", 800.0, 600.0)])),
        Err(WindowError::NotSupported)
    );
}

#[test]
fn list_windows_fails_when_the_server_returns_no_list() {
    assert_eq!(list_windows(Platform::Native, &None), Err(WindowError::EnumerationFailed));
}

#[test]
fn list_windows_gives_an_empty_list_for_no_records() {
    assert_eq!(list_windows(Platform::Native, &Some(Vec::new())), Ok(Vec::new()));
}

#[test]
fn list_windows_keeps_order_and_drops_small_and_hidden_windows() {
    let records = vec![
        record(1, "menu", "Window Server", 1920.0, 24.0),
        record(2, "Inbox", "Mail", 1000.0, 700.0),
        record(3, "strip", "Mail", 1000.0, 50.0),
        record(4, "", "Dock", 1920.0, 1080.0),
        record(5, "Docs", "Safari", 1200.5, 800.5),
        record(6, "self", "FRAMEFIT", 600.0, 850.0),
        record(7, "edge", "Notes", 50.9, 400.0),
        record(8, "fine", "Notes", 51.0, 51.0),
    ];
    let listed = list_windows(Platform::Native, &Some(records)).unwrap();
    let ids: Vec<u32> = listed.iter().map(|w| w.id).collect();
    assert_eq!(ids, vec![2, 5, 8]);
    assert_eq!(listed[1].title, "Docs");
    assert_eq!(listed[1].app_name, "Safari");
    assert_eq!((listed[1].x, listed[1].y, listed[1].width, listed[1].height), (10, 20, 1200, 800));
}

#[test]
fn every_listed_window_is_large_and_not_hidden() {
    let owners = ["Safari", "dock", "Mail", "WINDOW SERVER", "Framefit", "Terminal", ""];
    let sizes = [0.0, 49.0, 50.0, 50.5, 51.0, 300.0, -500.0, f64::NAN, f64::INFINITY];
    let mut records = Vec::new();
    let mut number = 0;
    for owner in owners {
        for width in sizes {
            for height in sizes {
                number += 1;
                records.push(record(number, "t", owner, width, height));
            }
        }
    }
    let listed = list_windows(Platform::Native, &Some(records)).unwrap();
    assert!(!listed.is_empty());
    for w in &listed {
        assert!(w.width > 50 && w.height > 50);
        for hidden in ["Dock", "Window Server", "FrameFit"] {
            assert!(!w.app_name.eq_ignore_ascii_case(hidden));
        }
    }
    assert_eq!(listed.len(), 4 * 3 * 3);
}

#[test]
fn a_window_without_a_title_is_listed() {
    let raw = RawWindow {
        number: Some(12),
        name: None,
        owner_name: Some("Pages".to_string()),
        bounds: Some(bounds(0.0, 0.0, 640.0, 480.0)),
    };
    let listed = list_windows(Platform::Native, &Some(vec![raw])).unwrap();
    assert_eq!(listed.len(), 1);
    assert_eq!(listed[0].title, "");
}

#[test]
fn a_window_without_bounds_is_too_small_to_list() {
    let raw = RawWindow {
        number: Some(12),
        name: Some("x".to_string()),
        owner_name: Some("Pages".to_string()),
        bounds: None,
    };
    assert_eq!(list_windows(Platform::Native, &Some(vec![raw])), Ok(Vec::new()));
}

#[test]
fn passed_over_owners_are_matched_exactly() {
    for owner in ["framefit", "Dock", "Window Server"] {
        assert!(passed_over(owner));
    }
    for owner in ["FrameFit", "dock", "window server", "Safari", ""] {
        assert!(!passed_over(owner));
    }
}

#[test]
fn frontmost_skips_excluded_windows_at_the_front() {
    let windows = vec![window(1, "Dock"), window(2, "Safari"), window(3, "Mail")];
    assert_eq!(first_eligible(&windows), Ok(window(2, "Safari")));
    let own = vec![window(1, "framefit"), window(2, "Window Server"), window(3, "Mail")];
    assert_eq!(first_eligible(&own), Ok(window(3, "Mail")));
}

#[test]
fn frontmost_takes_the_first_window_when_it_is_eligible() {
    let windows = vec![window(7, "Terminal"), window(8, "Dock"), window(9, "Safari")];
    assert_eq!(first_eligible(&windows), Ok(window(7, "Terminal")));
}

#[test]
fn frontmost_compares_names_exactly() {
    let windows = vec![window(1, "dock"), window(2, "Safari")];
    assert_eq!(first_eligible(&windows), Ok(window(1, "dock")));
    let shouting = vec![window(1, "FrameFit"), window(2, "Safari")];
    assert_eq!(first_eligible(&shouting), Ok(window(1, "FrameFit")));
}

#[test]
fn frontmost_fails_when_every_window_is_excluded() {
    let windows = vec![window(1, "Dock"), window(2, "framefit"), window(3, "Window Server")];
    assert_eq!(first_eligible(&windows), Err(WindowError::NoEligibleWindow));
}

#[test]
fn frontmost_fails_on_an_empty_list() {
    assert_eq!(first_eligible(&Vec::new()), Err(WindowError::NoEligibleWindow));
    assert_eq!(
        get_frontmost_window(Platform::Native, &Some(Vec::new())),
        Err(WindowError::NoEligibleWindow)
    );
}

#[test]
fn get_frontmost_window_returns_the_topmost_eligible_window() {
    let records = vec![
        record(1, "", "Dock", 1920.0, 1080.0),
        record(2, "Docs", "Safari", 1200.0, 800.0),
        record(3, "Inbox", "Mail", 1000.0, 700.0),
    ];
    let found = get_frontmost_window(Platform::Native, &Some(records)).unwrap();
    assert_eq!(found.id, 2);
    assert_eq!(found.app_name, "Safari");
    assert_eq!(found.title, "Docs");
}

#[test]
fn get_frontmost_window_fails_when_all_windows_are_excluded() {
    let records = vec![
        record(1, "", "Dock", 1920.0, 1080.0),
        record(2, "", "Window Server", 1920.0, 1080.0),
        record(3, "FrameFit", "framefit", 600.0, 850.0),
        record(4, "tiny", "Safari", 20.0, 20.0),
    ];
    assert_eq!(
        get_frontmost_window(Platform::Native, &Some(records)),
        Err(WindowError::NoEligibleWindow)
    );
}

#[test]
fn get_frontmost_window_passes_enumeration_errors_on() {
    assert_eq!(get_frontmost_window(Platform::Native, &None), Err(WindowError::EnumerationFailed));
    assert_eq!(get_frontmost_window(Platform::Unsupported, &None), Err(WindowError::NotSupported));
}

#[test]
fn a_copied_window_equals_its_source() {
    let source = window(42, "Terminal");
    assert_eq!(copy_window(&source), source);
}

#[test]
fn the_frontmost_of_an_enumeration_is_its_first_window() {
    let records = vec![
        record(1, "", "dock", 1920.0, 1080.0),
        record(2, "a", "Notes", 300.0, 300.0),
        record(3, "b", "Mail", 300.0, 300.0),
    ];
    let listed = list_windows(Platform::Native, &Some(records.clone())).unwrap();
    let front = get_frontmost_window(Platform::Native, &Some(records)).unwrap();
    assert_eq!(front, listed[0]);
}
