use framefit::script::{write_centering_script, write_resize_script};
use framefit::window_manager::{
    conclude_script, display_needed, exit_result, get_window_by_id, resize_window,
    resize_window_by_id, Platform, RawBounds, RawDisplay, RawWindow, ResizeRequest, ScriptRun,
    WindowError, WindowInfo,
};

fn window(id: u32, owner: &str) -> WindowInfo {
    WindowInfo {
        id,
        title: String::new(),
        app_name: owner.to_string(),
        x: 0,
        y: 0,
        width: 800,
        height: 600,
    }
}

fn record(number: i32, owner: &str) -> RawWindow {
    RawWindow {
        number: Some(number),
        name: Some(String::new()),
        owner_name: Some(owner.to_string()),
        bounds: Some(RawBounds {
            x: Some(0f64.to_bits()),
            y: Some(0f64.to_bits()),
            width: Some(800f64.to_bits()),
            height: Some(600f64.to_bits()),
        }),
    }
}

fn display(width: f64, height: f64) -> Option<RawDisplay> {
    Some(RawDisplay { width: width.to_bits(), height: height.to_bits() })
}

fn plain_script(app: &str, width: i32, height: i32) -> String {
    format!(
        r#"
            activate application "{}"
            tell application "System Events"
                tell application process "{}"
                    if (count of windows) > 0 then
                        set frontWindow to first window
                        set size of frontWindow to {{{}, {}}}
                    else
                        error "No windows found"
                    end if
                end tell
            end tell
            "#,
        app, app, width, height
    )
}

fn centred_script(app: &str, width: i32, height: i32, screen_width: i32, screen_height: i32) -> String {
    format!(
        r#"
            activate application "{}"
            tell application "System Events"
                tell application process "{}"
                    if (count of windows) > 0 then
                        set frontWindow to first window
                        -- First resize the window
                        set size of frontWindow to {{{}, {}}}
                        
                        -- Then center it
                        -- Use actual screen dimensions from Rust
                        set screenWidth to {}
                        set screenHeight to {}

                        -- Add a pause to ensure the window has resized
                        delay 0.1
                        
                        -- Try again to ensure correct screen dimensions
                        set screenWidth to {}
                        set screenHeight to {}
                        
                        -- Calculate center position
                        set xPos to (screenWidth - {}) / 2
                        set yPos to (screenHeight - {}) / 2 + 50
                        
                        -- Ensure positive coordinates
                        if xPos < 0 then set xPos to 50
                        if yPos < 0 then set yPos to 100
                        
                        set position of frontWindow to {{xPos, yPos}}
                    else
                        error "No windows found"
                    end if
                end tell
            end tell
            "#,
        app, app, width, height, screen_width, screen_height, screen_width, screen_height, width, height
    )
}

#[test]
fn the_resize_script_names_the_application_and_the_size() {
    assert_eq!(write_resize_script("Safari", 800, 600), plain_script("Safari", 800, 600));
    assert_eq!(write_resize_script("Google Chrome", 375, 667), plain_script("Google Chrome", 375, 667));
}

#[test]
fn the_centering_script_names_the_screen_too() {
    assert_eq!(
        write_centering_script("Safari", 800, 600, 1920, 1080),
        centred_script("Safari", 800, 600, 1920, 1080)
    );
    assert_eq!(
        write_centering_script("Notes", 1280, 720, 2560, 1440),
        centred_script("Notes", 1280, 720, 2560, 1440)
    );
}

#[test]
fn the_scripts_escape_quotes_in_the_application_name() {
    let script = write_resize_script("My \"Quoted\" App", 800, 600);
    assert_eq!(script, plain_script("My \\\"Quoted\\\" App", 800, 600));
    assert!(script.contains("activate application \"My \\\"Quoted\\\" App\"\n"));
    assert!(script.contains("tell application process \"My \\\"Quoted\\\" App\"\n"));
    let centred = write_centering_script("a\"b", 1, 2, 3, 4);
    assert_eq!(centred, centred_script("a\\\"b", 1, 2, 3, 4));
}

/// Reads a string literal as the script language does, from just behind its
/// opening quote to its closing quote, and returns the text it stands for
/// and what follows the closing quote.
fn read_literal(from: &str) -> (String, String) {
    let written: Vec<char> = from.chars().collect();
    let mut read = String::new();
    let mut i = 0;
    while written[i] != '"' {
        if written[i] == '\\' {
            read.push(written[i + 1]);
            i += 2;
        } else {
            read.push(written[i]);
            i += 1;
        }
    }
    (read, written[i + 1..].iter().collect())
}

fn hostile_names() -> Vec<&'static str> {
    vec![
        "evil\" & (do shell script \"true\") & \"",
        "\"",
        "a\"b\"c",
        // A backslash before a quote.
        "\\\"",
        "evil\\\" & (do shell script \"true\") & \"",
        // A name that ends in a backslash.
        "a\\",
        "\\",
        "two\\\\",
        "\\\\\"",
        "C:\\Apps\\\"Quoted\"\\",
    ]
}

#[test]
fn a_quote_in_the_name_does_not_end_the_activation_string() {
    for name in hostile_names() {
        let script = write_resize_script(name, 800, 600);
        let opening = "activate application \"";
        let start = script.find(opening).unwrap() + opening.len();
        let (read, rest) = read_literal(&script[start..]);
        assert_eq!(read, name);
        assert!(rest.starts_with("\n            tell application \"System Events\"\n"));
    }
}

#[test]
fn both_literals_of_both_scripts_stand_for_the_name() {
    for name in hostile_names() {
        let scripts = [
            resize_window(Platform::Native, &window(1, name), 800, 600, false, None).unwrap(),
            resize_window(Platform::Native, &window(1, name), 800, 600, true, None).unwrap(),
        ];
        for script in scripts {
            let opening = "\n            activate application \"";
            assert!(script.starts_with(opening));
            let (first, rest) = read_literal(&script[opening.len()..]);
            assert_eq!(first, name);
            let process = "\n            tell application \"System Events\"\n                tell application process \"";
            assert!(rest.starts_with(process));
            let (second, rest) = read_literal(&rest[process.len()..]);
            assert_eq!(second, name);
            assert!(rest.starts_with("\n                    if (count of windows) > 0 then\n"));
        }
    }
}

#[test]
fn the_scripts_escape_backslashes_in_the_application_name() {
    assert_eq!(write_resize_script("a\\", 800, 600), plain_script("a\\\\", 800, 600));
    assert_eq!(write_resize_script("\\\"", 800, 600), plain_script("\\\\\\\"", 800, 600));
    assert_eq!(
        write_centering_script("a\\b", 1, 2, 3, 4),
        centred_script("a\\\\b", 1, 2, 3, 4)
    );
}

#[test]
fn the_scripts_pass_sizes_on_unexamined() {
    assert_eq!(write_resize_script("Safari", 0, -600), plain_script("Safari", 0, -600));
    assert_eq!(
        write_resize_script("Safari", i32::MIN, i32::MAX),
        plain_script("Safari", i32::MIN, i32::MAX)
    );
}

#[test]
fn resize_window_refuses_the_application_itself() {
    let own = window(1, "framefit");
    assert_eq!(
        resize_window(Platform::Native, &own, 800, 600, false, None),
        Err(WindowError::SelfResizeForbidden)
    );
    assert_eq!(
        resize_window(Platform::Native, &own, 800, 600, true, display(1920.0, 1080.0)),
        Err(WindowError::SelfResizeForbidden)
    );
}

#[test]
fn resize_window_knows_itself_by_the_exact_name_only() {
    let shouting = window(1, "FrameFit");
    assert_eq!(
        resize_window(Platform::Native, &shouting, 800, 600, false, None),
        Ok(plain_script("FrameFit", 800, 600))
    );
}

#[test]
fn resize_window_is_not_supported_without_an_automation_bridge() {
    assert_eq!(
        resize_window(Platform::Unsupported, &window(1, "Safari"), 800, 600, false, None),
        Err(WindowError::NotSupported)
    );
    assert_eq!(
        resize_window(Platform::Unsupported, &window(1, "framefit"), 800, 600, true, None),
        Err(WindowError::NotSupported)
    );
}

#[test]
fn resize_window_writes_the_plain_script_without_centering() {
    assert_eq!(
        resize_window(Platform::Native, &window(1, "Safari"), 1024, 768, false, display(1920.0, 1080.0)),
        Ok(plain_script("Safari", 1024, 768))
    );
}

#[test]
fn resize_window_centres_on_the_reported_display() {
    assert_eq!(
        resize_window(Platform::Native, &window(1, "Safari"), 800, 600, true, display(2560.0, 1440.0)),
        Ok(centred_script("Safari", 800, 600, 2560, 1440))
    );
}

#[test]
fn resize_window_truncates_the_reported_display_size() {
    assert_eq!(
        resize_window(Platform::Native, &window(1, "Safari"), 800, 600, true, display(1727.9, 1116.5)),
        Ok(centred_script("Safari", 800, 600, 1727, 1116))
    );
}

#[test]
fn resize_window_falls_back_to_full_hd_without_a_display() {
    assert_eq!(
        resize_window(Platform::Native, &window(1, "Safari"), 800, 600, true, None),
        Ok(centred_script("Safari", 800, 600, 1920, 1080))
    );
}

#[test]
fn resize_window_by_id_fails_for_an_absent_identifier() {
    let listing = Some(vec![record(1, "Safari"), record(2, "Mail")]);
    let request = ResizeRequest { window_id: 3, width: 800, height: 600 };
    assert_eq!(
        resize_window_by_id(Platform::Native, &listing, &request, false, None),
        Err(WindowError::WindowNotFound)
    );
    assert_eq!(
        resize_window_by_id(Platform::Native, &Some(Vec::new()), &request, true, None),
        Err(WindowError::WindowNotFound)
    );
}

#[test]
fn resize_window_by_id_does_not_find_unlisted_windows() {
    // The identifier exists, but its window is hidden from the list.
    let listing = Some(vec![record(1, "Dock"), record(2, "framefit"), record(3, "Mail")]);
    for id in [1, 2] {
        let request = ResizeRequest { window_id: id, width: 800, height: 600 };
        assert_eq!(
            resize_window_by_id(Platform::Native, &listing, &request, false, None),
            Err(WindowError::WindowNotFound)
        );
    }
}

#[test]
fn resize_window_by_id_resizes_the_window_found() {
    let listing = Some(vec![record(1, "Safari"), record(2, "Mail"), record(3, "Notes")]);
    let request = ResizeRequest { window_id: 2, width: 1280, height: 720 };
    assert_eq!(
        resize_window_by_id(Platform::Native, &listing, &request, false, None),
        Ok(plain_script("Mail", 1280, 720))
    );
    assert_eq!(
        resize_window_by_id(Platform::Native, &listing, &request, true, display(1920.0, 1080.0)),
        Ok(centred_script("Mail", 1280, 720, 1920, 1080))
    );
}

#[test]
fn resize_window_by_id_takes_the_first_of_equal_identifiers() {
    let listing = Some(vec![record(5, "Safari"), record(5, "Mail")]);
    let request = ResizeRequest { window_id: 5, width: 640, height: 480 };
    assert_eq!(
        resize_window_by_id(Platform::Native, &listing, &request, false, None),
        Ok(plain_script("Safari", 640, 480))
    );
}

#[test]
fn resize_window_by_id_passes_enumeration_errors_on() {
    let request = ResizeRequest { window_id: 1, width: 800, height: 600 };
    assert_eq!(
        resize_window_by_id(Platform::Native, &None, &request, false, None),
        Err(WindowError::EnumerationFailed)
    );
    assert_eq!(
        resize_window_by_id(Platform::Unsupported, &Some(vec![record(1, "Safari")]), &request, false, None),
        Err(WindowError::NotSupported)
    );
}

#[test]
fn a_script_that_succeeded_concludes_the_resize() {
    assert_eq!(conclude_script(ScriptRun::Finished { success: true, stderr: Vec::new() }), Ok(()));
    assert_eq!(
        conclude_script(ScriptRun::Finished { success: true, stderr: b"warning".to_vec() }),
        Ok(())
    );
    assert_eq!(exit_result(true, "ignored".to_string()), Ok(()));
}

#[test]
fn a_script_that_failed_reports_its_error_stream() {
    let stderr = b"execution error: No windows found (-2700)\n".to_vec();
    assert_eq!(
        conclude_script(ScriptRun::Finished { success: false, stderr }),
        Err(WindowError::ScriptExecutionFailed(
            "execution error: No windows found (-2700)\n".to_string()
        ))
    );
    assert_eq!(
        exit_result(false, "boom".to_string()),
        Err(WindowError::ScriptExecutionFailed("boom".to_string()))
    );
}

#[test]
fn an_error_stream_that_is_not_utf8_is_read_with_replacements() {
    let stderr = vec![b'a', 0xff, b'b', 0xc3];
    assert_eq!(
        conclude_script(ScriptRun::Finished { success: false, stderr }),
        Err(WindowError::ScriptExecutionFailed("a\u{fffd}b\u{fffd}".to_string()))
    );
}

#[test]
fn an_interpreter_that_did_not_start_is_a_spawn_failure() {
    assert_eq!(
        conclude_script(ScriptRun::NotStarted("No such file or directory (os error 2)".to_string())),
        Err(WindowError::ScriptSpawnFailed("No such file or directory (os error 2)".to_string()))
    );
}

#[test]
fn every_error_has_its_message() {
    assert_eq!(WindowError::NotSupported.message(), "Not supported on this platform");
    assert_eq!(WindowError::EnumerationFailed.message(), "Failed to get window list");
    assert_eq!(
        WindowError::NoEligibleWindow.message(),
        "No suitable window found. Please open another application."
    );
    assert_eq!(WindowError::WindowNotFound.message(), "Window not found");
    assert_eq!(WindowError::SelfResizeForbidden.message(), "Cannot resize the FrameFit app itself");
    assert_eq!(
        WindowError::ScriptSpawnFailed("denied".to_string()).message(),
        "Failed to execute AppleScript: denied"
    );
    assert_eq!(
        WindowError::ScriptExecutionFailed("syntax error".to_string()).message(),
        "AppleScript error: syntax error"
    );
}

#[test]
fn a_window_is_found_by_its_identifier() {
    let listing = Some(vec![record(1, "Safari"), record(2, "Mail"), record(2, "Notes")]);
    let found = get_window_by_id(Platform::Native, &listing, 2).unwrap();
    assert_eq!(found.id, 2);
    assert_eq!(found.app_name, "Mail");
    assert_eq!(
        get_window_by_id(Platform::Native, &listing, 7),
        Err(WindowError::WindowNotFound)
    );
    assert_eq!(get_window_by_id(Platform::Native, &None, 1), Err(WindowError::EnumerationFailed));
    assert_eq!(
        get_window_by_id(Platform::Unsupported, &listing, 1),
        Err(WindowError::NotSupported)
    );
}

#[test]
fn the_display_is_needed_only_for_a_window_that_will_be_centred() {
    assert!(display_needed(Platform::Native, &window(1, "Safari"), true));
    assert!(!display_needed(Platform::Native, &window(1, "Safari"), false));
    assert!(!display_needed(Platform::Native, &window(1, "framefit"), true));
    assert!(display_needed(Platform::Native, &window(1, "FrameFit"), true));
    assert!(!display_needed(Platform::Unsupported, &window(1, "Safari"), true));
}
