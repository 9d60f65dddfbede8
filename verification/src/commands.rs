//! The operations that the shell calls. They are the operations of
//! [`crate::window_manager`] with every error turned into the message that
//! the user is shown: across this boundary an error is text and nothing else.

use crate::window_manager::{
    check_accessibility_permissions, conclude_script, display_needed, enumerated,
    frontmost_window, get_frontmost_window, get_window_by_id, lemma_frontmost_of_listed,
    lemma_listed_window_is_not_self, list_windows, message_of, planned_resize,
    planned_resize_by_id, resize_window, resize_window_by_id, views, wants_display, window_by_id,
    Platform, RawDisplay, RawWindow, ResizeRequest, ScriptRun, WindowError, WindowInfo,
};
use crate::text::lossy_text;
use vstd::prelude::*;

verus! {

/// Whether `result` is the text that `expected` names, or the message of the
/// error that it names.
pub open spec fn is_text_or_message(
    result: Result<String, String>,
    expected: Result<Seq<char>, WindowError>,
) -> bool {
    match expected {
        Ok(text) => result matches Ok(written) && written@ == text,
        Err(error) => result matches Err(message) && message@ == message_of(error),
    }
}

/// What the resize of the window in front comes to: the error of the lookup,
/// or what the resize of the window found comes to.
pub open spec fn planned_frontmost_resize(
    platform: Platform,
    listing: Option<Vec<RawWindow>>,
    width: int,
    height: int,
    center: bool,
    display: Option<RawDisplay>,
) -> Result<Seq<char>, WindowError> {
    match frontmost_window(platform, listing) {
        Err(error) => Err(error),
        Ok(window) => planned_resize(platform, window, width, height, center, display),
    }
}

/// The resize of the window in front never ends in
/// [`WindowError::SelfResizeForbidden`]: the windows of this application are
/// not listed, so none of them is ever found in front.
pub proof fn lemma_frontmost_resize_never_meets_self(
    platform: Platform,
    listing: Option<Vec<RawWindow>>,
    width: int,
    height: int,
    center: bool,
    display: Option<RawDisplay>,
)
    ensures
        planned_frontmost_resize(platform, listing, width, height, center, display) != Err::<
            Seq<char>,
            WindowError,
        >(WindowError::SelfResizeForbidden),
{
    match enumerated(platform, listing) {
        Err(_) => {},
        Ok(shown) => {
            lemma_frontmost_of_listed(listing->0@);
            if shown.len() > 0 {
                lemma_listed_window_is_not_self(listing->0@, shown.first());
            }
        },
    }
}

/// Reports whether windows of other applications can be observed and
/// controlled.
pub fn check_permissions(platform: Platform, handle_made: bool) -> (granted: bool)
    ensures
        granted == (platform is Native && handle_made),
{
    check_accessibility_permissions(platform, handle_made)
}

/// Lists the windows on the screen, given what the window server returned.
/// A server that returned a list without records gives an empty list, which
/// is no error.
pub fn get_windows(platform: Platform, listing: &Option<Vec<RawWindow>>) -> (result: Result<
    Vec<WindowInfo>,
    String,
>)
    ensures
        match enumerated(platform, *listing) {
            Ok(shown) => result matches Ok(windows) && views(windows@) == shown,
            Err(error) => result matches Err(message) && message@ == message_of(error),
        },
        platform is Native && (*listing matches Some(records) && records@.len() == 0) ==> (
        result matches Ok(windows) && windows@.len() == 0),
{
    match list_windows(platform, listing) {
        Ok(windows) => {
            proof {
                if listing->0@.len() == 0 {
                    reveal(Seq::filter);
                }
            }
            Ok(windows)
        },
        Err(error) => Err(error.message()),
    }
}

/// Plans the resize of the window in front and returns the script that
/// carries it out, or the message of what stands against it.
///
/// `display` is what the main display reported. It is looked at only where
/// [`frontmost_resize_needs_display`] says that it is needed, so a caller may
/// put that question first and leave the display alone otherwise.
pub fn resize_frontmost_window(
    platform: Platform,
    listing: &Option<Vec<RawWindow>>,
    width: i32,
    height: i32,
    center: bool,
    display: Option<RawDisplay>,
) -> (result: Result<String, String>)
    ensures
        is_text_or_message(
            result,
            planned_frontmost_resize(
                platform,
                *listing,
                width as int,
                height as int,
                center,
                display,
            ),
        ),
{
    let window = match get_frontmost_window(platform, listing) {
        Ok(window) => window,
        Err(error) => {
            return Err(error.message());
        },
    };
    match resize_window(platform, &window, width, height, center, display) {
        Ok(script) => Ok(script),
        Err(error) => Err(error.message()),
    }
}

/// Plans the resize of the window with the identifier `window_id` and
/// returns the script that carries it out, or the message of what stands
/// against it.
///
/// `display` is what the main display reported. It is looked at only where
/// [`specific_resize_needs_display`] says that it is needed.
pub fn resize_specific_window(
    platform: Platform,
    listing: &Option<Vec<RawWindow>>,
    window_id: u32,
    width: i32,
    height: i32,
    center: bool,
    display: Option<RawDisplay>,
) -> (result: Result<String, String>)
    ensures
        is_text_or_message(
            result,
            planned_resize_by_id(
                platform,
                *listing,
                (ResizeRequest { window_id, width, height }),
                center,
                display,
            ),
        ),
{
    let request = ResizeRequest { window_id, width, height };
    match resize_window_by_id(platform, listing, &request, center, display) {
        Ok(script) => Ok(script),
        Err(error) => Err(error.message()),
    }
}

/// Whether the resize of the window in front looks at the display: a window
/// is found, it is to be centred, and its resize is not refused.
pub open spec fn frontmost_wants_display(
    platform: Platform,
    listing: Option<Vec<RawWindow>>,
    center: bool,
) -> bool {
    match frontmost_window(platform, listing) {
        Ok(window) => wants_display(platform, window, center),
        Err(_) => false,
    }
}

/// Whether the resize of the window with the identifier `id` looks at the
/// display: the window is found, it is to be centred, and its resize is not
/// refused.
pub open spec fn specific_wants_display(
    platform: Platform,
    listing: Option<Vec<RawWindow>>,
    id: int,
    center: bool,
) -> bool {
    match window_by_id(platform, listing, id) {
        Ok(window) => wants_display(platform, window, center),
        Err(_) => false,
    }
}

/// The display is wanted exactly when a centring script will be written,
/// whatever the size asked for and whatever the display then reports.
pub proof fn lemma_display_wanted_for_a_script(
    platform: Platform,
    listing: Option<Vec<RawWindow>>,
    window_id: u32,
    width: i32,
    height: i32,
    center: bool,
    display: Option<RawDisplay>,
)
    ensures
        frontmost_wants_display(platform, listing, center) <==> center
            && planned_frontmost_resize(
            platform,
            listing,
            width as int,
            height as int,
            center,
            display,
        ) is Ok,
        specific_wants_display(platform, listing, window_id as int, center) <==> center
            && planned_resize_by_id(
            platform,
            listing,
            (ResizeRequest { window_id, width, height }),
            center,
            display,
        ) is Ok,
{
}

/// Tells whether the main display has to be asked before
/// [`resize_frontmost_window`] is called: only if a centring script will be
/// written. Where the resize ends in an error, the display is left alone.
pub fn frontmost_resize_needs_display(
    platform: Platform,
    listing: &Option<Vec<RawWindow>>,
    center: bool,
) -> (needed: bool)
    ensures
        needed == frontmost_wants_display(platform, *listing, center),
{
    if !center {
        return false;
    }
    match get_frontmost_window(platform, listing) {
        Ok(window) => display_needed(platform, &window, center),
        Err(_) => false,
    }
}

/// Tells whether the main display has to be asked before
/// [`resize_specific_window`] is called: only if a centring script will be
/// written. Where the resize ends in an error, the display is left alone.
pub fn specific_resize_needs_display(
    platform: Platform,
    listing: &Option<Vec<RawWindow>>,
    window_id: u32,
    center: bool,
) -> (needed: bool)
    ensures
        needed == specific_wants_display(platform, *listing, window_id as int, center),
{
    if !center {
        return false;
    }
    match get_window_by_id(platform, listing, window_id) {
        Ok(window) => display_needed(platform, &window, center),
        Err(_) => false,
    }
}

/// Turns a run of the script into the outcome that the shell is told: `Ok`
/// for success, and otherwise the message of the failure.
pub fn finish_resize(run: ScriptRun) -> (result: Result<(), String>)
    ensures
        match run {
            ScriptRun::NotStarted(reason) => result matches Err(message) && message@ == message_of(
                WindowError::ScriptSpawnFailed(reason),
            ),
            ScriptRun::Finished { success, stderr } => if success {
                result is Ok
            } else {
                result matches Err(message) && message@ == "AppleScript error: "@ + lossy_text(
                    stderr@,
                )
            },
        },
{
    match conclude_script(run) {
        Ok(()) => Ok(()),
        Err(error) => Err(error.message()),
    }
}

} // verus!
