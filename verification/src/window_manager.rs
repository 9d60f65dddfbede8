//! Windows of other applications: decoding what the window server reports,
//! choosing the window in front, and planning the script that resizes one.
//!
//! Nothing here talks to the operating system. The caller asks the window
//! server, the display and the script interpreter, and hands over what they
//! answered; the functions of this module decide what follows from it.

use crate::geometry::{
    truncate_to_i32, truncated, unsigned_word, window_id_from_number, FALLBACK_SCREEN_HEIGHT,
    FALLBACK_SCREEN_WIDTH,
};
use crate::script::{centering_script, resize_script, write_centering_script, write_resize_script};
use crate::text::{
    buffer_text, buffered, eq_ignore_ascii_case, equal_ignoring_ascii_case, lossy_text, same_text,
    text_from_bytes,
};
use vstd::prelude::*;
use vstd::string::StringExecFns;

verus! {

/// Whether the platform has the native window server and automation bridge.
#[derive(Debug, Clone, Copy, PartialEq, Eq)]
pub enum Platform {
    /// Window server, display and script interpreter can be asked.
    Native,
    /// None of them exists; every operation says so.
    Unsupported,
}

/// Why an operation did not succeed.
#[derive(Debug, Clone, PartialEq, Eq)]
pub enum WindowError {
    /// The platform has no window server or automation bridge.
    NotSupported,
    /// The window server returned no list at all.
    EnumerationFailed,
    /// No listed window belongs to an application that may be chosen.
    NoEligibleWindow,
    /// No listed window has the identifier asked for.
    WindowNotFound,
    /// The window belongs to this application itself.
    SelfResizeForbidden,
    /// The script interpreter could not be started; the text says why.
    ScriptSpawnFailed(String),
    /// The script interpreter ended with a failure; the text is what it wrote
    /// to its error stream.
    ScriptExecutionFailed(String),
}

/// One window on the screen.
#[derive(Debug, Clone, PartialEq, Eq)]
pub struct WindowInfo {
    /// Identifier given by the window server; it lasts as long as the window.
    pub id: u32,
    /// Title of the window; may be empty.
    pub title: String,
    /// Name of the application that owns the window.
    pub app_name: String,
    /// Left edge, in screen coordinates.
    pub x: i32,
    /// Top edge, in screen coordinates.
    pub y: i32,
    /// Width in pixels.
    pub width: i32,
    /// Height in pixels.
    pub height: i32,
}

/// A window as the contracts speak of it.
pub struct WindowView {
    pub id: int,
    pub title: Seq<char>,
    pub app_name: Seq<char>,
    pub x: int,
    pub y: int,
    pub width: int,
    pub height: int,
}

impl View for WindowInfo {
    type V = WindowView;

    open spec fn view(&self) -> WindowView {
        WindowView {
            id: self.id as int,
            title: self.title@,
            app_name: self.app_name@,
            x: self.x as int,
            y: self.y as int,
            width: self.width as int,
            height: self.height as int,
        }
    }
}

/// A request to give the window with the identifier `window_id` a new size.
/// The numbers are passed on as they are: nothing asks that they be positive.
#[derive(Debug, Clone, Copy, PartialEq, Eq)]
pub struct ResizeRequest {
    pub window_id: u32,
    pub width: i32,
    pub height: i32,
}

/// The bounds of a window as the window server reports them: four numbers,
/// each of which may be missing, as binary64 encodings.
#[derive(Debug, Clone, Copy, PartialEq, Eq)]
pub struct RawBounds {
    pub x: Option<u64>,
    pub y: Option<u64>,
    pub width: Option<u64>,
    pub height: Option<u64>,
}

/// One record of the window server's list. Every field may be missing.
#[derive(Debug, Clone, PartialEq, Eq)]
pub struct RawWindow {
    /// The window number, a signed 32-bit integer.
    pub number: Option<i32>,
    /// The window's name.
    pub name: Option<String>,
    /// The name of the owning application.
    pub owner_name: Option<String>,
    /// The window's bounds.
    pub bounds: Option<RawBounds>,
}

/// The pixel size of the main display, as binary64 encodings.
#[derive(Debug, Clone, Copy, PartialEq, Eq)]
pub struct RawDisplay {
    pub width: u64,
    pub height: u64,
}

/// Windows must be larger than this in both directions to be listed.
pub const SMALLEST_EXTENT: i32 = 50;

/// The text of a name field: what the name buffer holds of it, or nothing
/// where the field is missing.
pub open spec fn name_text(field: Option<String>) -> Seq<char> {
    match field {
        Some(text) => buffered(text@),
        None => Seq::empty(),
    }
}

/// The value of a bounds field: the number truncated, or zero where the field
/// is missing.
pub open spec fn bound_value(field: Option<u64>) -> int {
    match field {
        Some(bits) => truncated(bits),
        None => 0,
    }
}

/// The window that a record of the window server describes. A missing field
/// gives zero or the empty text; no record is turned away.
pub open spec fn decoded(record: RawWindow) -> WindowView {
    WindowView {
        id: match record.number {
            Some(number) => unsigned_word(number as int),
            None => 0,
        },
        title: name_text(record.name),
        app_name: name_text(record.owner_name),
        x: match record.bounds {
            Some(bounds) => bound_value(bounds.x),
            None => 0,
        },
        y: match record.bounds {
            Some(bounds) => bound_value(bounds.y),
            None => 0,
        },
        width: match record.bounds {
            Some(bounds) => bound_value(bounds.width),
            None => 0,
        },
        height: match record.bounds {
            Some(bounds) => bound_value(bounds.height),
            None => 0,
        },
    }
}

/// Whether windows of the application `owner` are left out of the list: the
/// dock, the window server and this application itself, whatever the case of
/// their ASCII letters.
pub open spec fn is_hidden_owner(owner: Seq<char>) -> bool {
    ||| equal_ignoring_ascii_case("Dock"@, owner)
    ||| equal_ignoring_ascii_case("Window Server"@, owner)
    ||| equal_ignoring_ascii_case("FrameFit"@, owner)
    ||| equal_ignoring_ascii_case("framefit"@, owner)
}

/// Whether a window is listed: it is more than [`SMALLEST_EXTENT`] wide and
/// high, and its owner is not hidden.
pub open spec fn is_listable(window: WindowView) -> bool {
    &&& window.width > SMALLEST_EXTENT
    &&& window.height > SMALLEST_EXTENT
    &&& !is_hidden_owner(window.app_name)
}

/// [`decoded`] as a function value.
pub open spec fn decoding() -> spec_fn(RawWindow) -> WindowView {
    |record: RawWindow| decoded(record)
}

/// [`is_listable`] as a function value.
pub open spec fn listable() -> spec_fn(WindowView) -> bool {
    |window: WindowView| is_listable(window)
}

/// The windows that are listed for the given records: every record decoded,
/// the listable ones kept, in the order of the records.
pub open spec fn listed(records: Seq<RawWindow>) -> Seq<WindowView> {
    records.map_values(decoding()).filter(listable())
}

/// The views of a sequence of windows.
pub open spec fn views(windows: Seq<WindowInfo>) -> Seq<WindowView> {
    windows.map_values(|window: WindowInfo| window@)
}

/// What an enumeration gives: no support on a platform without a window
/// server, a failure where the server returned no list, and otherwise the
/// listed windows, of which there may be none.
pub open spec fn enumerated(platform: Platform, listing: Option<Vec<RawWindow>>) -> Result<
    Seq<WindowView>,
    WindowError,
> {
    match platform {
        Platform::Unsupported => Err(WindowError::NotSupported),
        Platform::Native => match listing {
            None => Err(WindowError::EnumerationFailed),
            Some(records) => Ok(listed(records@)),
        },
    }
}

/// Whether `result` is the window, or the error, that `expected` names.
pub open spec fn is_window_result(
    result: Result<WindowInfo, WindowError>,
    expected: Result<WindowView, WindowError>,
) -> bool {
    match expected {
        Ok(window) => result matches Ok(found) && found@ == window,
        Err(error) => result matches Err(given) && given == error,
    }
}

/// Whether `result` is the text, or the error, that `expected` names.
pub open spec fn is_text_result(
    result: Result<String, WindowError>,
    expected: Result<Seq<char>, WindowError>,
) -> bool {
    match expected {
        Ok(text) => result matches Ok(written) && written@ == text,
        Err(error) => result matches Err(given) && given == error,
    }
}

/// Reports whether windows of other applications can be observed and
/// controlled: the platform is native and a session event handle could be
/// made. A missing capability is an answer, not an error.
pub fn check_accessibility_permissions(platform: Platform, handle_made: bool) -> (granted: bool)
    ensures
        granted == (platform is Native && handle_made),
{
    match platform {
        Platform::Native => handle_made,
        Platform::Unsupported => false,
    }
}

/// Decodes a name field.
fn decode_name(field: &Option<String>) -> (text: String)
    ensures
        text@ == name_text(*field),
{
    match field {
        Some(name) => buffer_text(name.as_str()),
        None => String::new(),
    }
}

/// Decodes a bounds field.
fn decode_bound(field: Option<u64>) -> (value: i32)
    ensures
        value as int == bound_value(field),
{
    match field {
        Some(bits) => truncate_to_i32(bits),
        None => 0,
    }
}

/// Decodes one record of the window server's list.
///
/// The window number is read as an unsigned identifier. The names are cut to
/// what the name buffer holds. The bounds are truncated toward zero. A field
/// that the record lacks becomes zero or the empty text.
pub fn parse_window_info(record: &RawWindow) -> (window: WindowInfo)
    ensures
        window@ == decoded(*record),
{
    let id: u32 = match record.number {
        Some(number) => window_id_from_number(number),
        None => 0,
    };
    let title = decode_name(&record.name);
    let app_name = decode_name(&record.owner_name);
    let mut x: i32 = 0;
    let mut y: i32 = 0;
    let mut width: i32 = 0;
    let mut height: i32 = 0;
    match record.bounds {
        Some(bounds) => {
            x = decode_bound(bounds.x);
            y = decode_bound(bounds.y);
            width = decode_bound(bounds.width);
            height = decode_bound(bounds.height);
        },
        None => {},
    }
    WindowInfo { id, title, app_name, x, y, width, height }
}

/// Decides whether windows of the application `owner` are left out of the list.
pub fn hidden_owner(owner: &str) -> (hidden: bool)
    ensures
        hidden == is_hidden_owner(owner@),
{
    eq_ignore_ascii_case("Dock", owner) || eq_ignore_ascii_case("Window Server", owner)
        || eq_ignore_ascii_case("FrameFit", owner) || eq_ignore_ascii_case("framefit", owner)
}

/// Decides whether a window is listed.
pub fn listable_window(window: &WindowInfo) -> (keep: bool)
    ensures
        keep == is_listable(window@),
{
    window.width > SMALLEST_EXTENT && window.height > SMALLEST_EXTENT && !hidden_owner(
        window.app_name.as_str(),
    )
}

/// One more record adds its window to the list if the window is listable, and
/// nothing otherwise.
proof fn lemma_listed_push(records: Seq<RawWindow>, record: RawWindow)
    ensures
        listed(records.push(record)) == if is_listable(decoded(record)) {
            listed(records).push(decoded(record))
        } else {
            listed(records)
        },
{
    records.lemma_push_map_commute(decoding(), record);
    records.map_values(decoding()).lemma_filter_push(decoded(record), listable());
}

/// Every listed window is listable.
pub proof fn lemma_listed_are_listable(records: Seq<RawWindow>)
    ensures
        forall|i: int| 0 <= i < listed(records).len() ==> is_listable(#[trigger] listed(records)[i]),
{
    let all = records.map_values(decoding());
    assert forall|i: int| 0 <= i < listed(records).len() implies is_listable(
        #[trigger] listed(records)[i],
    ) by {
        all.lemma_filter_pred(listable(), i);
    }
}

/// Lists the windows on the screen, given what the window server returned:
/// `None` for no list at all, or its records from the topmost window down.
///
/// Every record is decoded, and the windows that are large enough and do not
/// belong to a hidden application are returned in the order of the records.
/// An empty list of records gives an empty list of windows.
pub fn list_windows(platform: Platform, listing: &Option<Vec<RawWindow>>) -> (result: Result<
    Vec<WindowInfo>,
    WindowError,
>)
    ensures
        platform is Unsupported ==> result == Err::<Vec<WindowInfo>, WindowError>(
            WindowError::NotSupported,
        ),
        platform is Native && *listing is None ==> result == Err::<Vec<WindowInfo>, WindowError>(
            WindowError::EnumerationFailed,
        ),
        platform is Native && *listing is Some ==> (result matches Ok(windows) && views(windows@)
            == listed(listing->0@)),
        result matches Ok(windows) ==> forall|i: int|
            0 <= i < windows.len() ==> is_listable(#[trigger] windows[i]@),
{
    match platform {
        Platform::Unsupported => {
            return Err(WindowError::NotSupported);
        },
        Platform::Native => {},
    }
    let records = match listing {
        None => {
            return Err(WindowError::EnumerationFailed);
        },
        Some(records) => records,
    };
    let mut windows: Vec<WindowInfo> = Vec::new();
    let mut i: usize = 0;
    assert(views(windows@) == listed(records@.take(0))) by {
        reveal(Seq::filter);
    }
    while i < records.len()
        invariant
            i <= records.len(),
            views(windows@) == listed(records@.take(i as int)),
        decreases records.len() - i,
    {
        let window = parse_window_info(&records[i]);
        proof {
            lemma_listed_push(records@.take(i as int), records@[i as int]);
            assert(records@.take(i as int).push(records@[i as int]) == records@.take(i as int + 1));
        }
        if listable_window(&window) {
            proof {
                windows@.lemma_push_map_commute(|window: WindowInfo| window@, window);
            }
            windows.push(window);
        }
        i = i + 1;
    }
    proof {
        assert(records@.take(records@.len() as int) == records@);
        lemma_listed_are_listable(records@);
        assert forall|i: int| 0 <= i < windows.len() implies is_listable(#[trigger] windows[i]@) by {
            assert(views(windows@)[i] == windows[i]@);
        }
    }
    Ok(windows)
}

/// Whether windows of the application `owner` are passed over when the
/// window in front is looked for: this application itself, the dock and the
/// window server, by their exact names.
pub open spec fn is_passed_over(owner: Seq<char>) -> bool {
    owner == "framefit"@ || owner == "Dock"@ || owner == "Window Server"@
}

/// The first window of a list, taken from the front, whose owner is not
/// passed over.
pub open spec fn frontmost(windows: Seq<WindowView>) -> Option<WindowView>
    decreases windows.len(),
{
    if windows.len() == 0 {
        None
    } else if !is_passed_over(windows.first().app_name) {
        Some(windows.first())
    } else {
        frontmost(windows.drop_first())
    }
}

/// The window chosen from a list is its first window that is not passed
/// over; there is none exactly when every window is passed over.
pub proof fn lemma_frontmost_is_first_eligible(windows: Seq<WindowView>)
    ensures
        match frontmost(windows) {
            Some(window) => exists|i: int|
                {
                    &&& 0 <= i < windows.len()
                    &&& #[trigger] windows[i] == window
                    &&& !is_passed_over(windows[i].app_name)
                    &&& forall|j: int| 0 <= j < i ==> is_passed_over(#[trigger] windows[j].app_name)
                },
            None => forall|j: int|
                0 <= j < windows.len() ==> is_passed_over(#[trigger] windows[j].app_name),
        },
    decreases windows.len(),
{
    if windows.len() > 0 && is_passed_over(windows.first().app_name) {
        let rest = windows.drop_first();
        lemma_frontmost_is_first_eligible(rest);
        match frontmost(rest) {
            Some(window) => {
                let k = choose|k: int|
                    {
                        &&& 0 <= k < rest.len()
                        &&& #[trigger] rest[k] == window
                        &&& !is_passed_over(rest[k].app_name)
                        &&& forall|j: int| 0 <= j < k ==> is_passed_over(#[trigger] rest[j].app_name)
                    };
                assert forall|j: int| 0 <= j < k + 1 implies is_passed_over(
                    #[trigger] windows[j].app_name,
                ) by {
                    if j > 0 {
                        assert(windows[j] == rest[j - 1]);
                    }
                }
                assert(windows[k + 1] == window);
            },
            None => {
                assert forall|j: int| 0 <= j < windows.len() implies is_passed_over(
                    #[trigger] windows[j].app_name,
                ) by {
                    if j > 0 {
                        assert(windows[j] == rest[j - 1]);
                    }
                }
            },
        }
    }
}

/// An application that is passed over is hidden from the list as well.
pub proof fn lemma_passed_over_is_hidden(owner: Seq<char>)
    requires
        is_passed_over(owner),
    ensures
        is_hidden_owner(owner),
{
}

/// No listed window is passed over, so the window in front of a list that
/// came from an enumeration is simply its first window.
pub proof fn lemma_frontmost_of_listed(records: Seq<RawWindow>)
    ensures
        frontmost(listed(records)) == if listed(records).len() == 0 {
            None
        } else {
            Some(listed(records).first())
        },
{
    lemma_listed_are_listable(records);
    if listed(records).len() > 0 {
        let first = listed(records)[0];
        assert(is_listable(first));
        if is_passed_over(first.app_name) {
            lemma_passed_over_is_hidden(first.app_name);
        }
    }
}

/// Decides whether windows of the application `owner` are passed over.
pub fn passed_over(owner: &str) -> (skip: bool)
    ensures
        skip == is_passed_over(owner@),
{
    same_text(owner, "framefit") || same_text(owner, "Dock") || same_text(owner, "Window Server")
}

/// Copies a window.
pub fn copy_window(window: &WindowInfo) -> (copy: WindowInfo)
    ensures
        copy == *window,
{
    WindowInfo {
        id: window.id,
        title: window.title.clone(),
        app_name: window.app_name.clone(),
        x: window.x,
        y: window.y,
        width: window.width,
        height: window.height,
    }
}

/// Chooses the window in front from a list that runs from the topmost window
/// down: the first one whose owner is not passed over.
pub fn first_eligible(windows: &Vec<WindowInfo>) -> (result: Result<WindowInfo, WindowError>)
    ensures
        is_window_result(
            result,
            match frontmost(views(windows@)) {
                Some(window) => Ok(window),
                None => Err(WindowError::NoEligibleWindow),
            },
        ),
        result matches Ok(found) ==> exists|i: int|
            0 <= i < windows.len() && found == #[trigger] windows[i],
{
    let mut i: usize = 0;
    assert(views(windows@).skip(0) == views(windows@));
    while i < windows.len()
        invariant
            i <= windows.len(),
            frontmost(views(windows@).skip(i as int)) == frontmost(views(windows@)),
        decreases windows.len() - i,
    {
        let ghost rest = views(windows@).skip(i as int);
        assert(rest.drop_first() == views(windows@).skip(i as int + 1));
        if !passed_over(windows[i].app_name.as_str()) {
            return Ok(copy_window(&windows[i]));
        }
        i = i + 1;
    }
    Err(WindowError::NoEligibleWindow)
}

/// What the lookup of the window in front gives: the error of the
/// enumeration if it fails, the first listed window that is not passed over,
/// or [`WindowError::NoEligibleWindow`] where there is none.
pub open spec fn frontmost_window(platform: Platform, listing: Option<Vec<RawWindow>>) -> Result<
    WindowView,
    WindowError,
> {
    match enumerated(platform, listing) {
        Err(error) => Err(error),
        Ok(shown) => match frontmost(shown) {
            Some(window) => Ok(window),
            None => Err(WindowError::NoEligibleWindow),
        },
    }
}

/// Finds the window that the user is looking at, given what the window
/// server returned: the topmost listed window that belongs to neither this
/// application, the dock nor the window server.
pub fn get_frontmost_window(platform: Platform, listing: &Option<Vec<RawWindow>>) -> (result:
    Result<WindowInfo, WindowError>)
    ensures
        is_window_result(result, frontmost_window(platform, *listing)),
{
    match list_windows(platform, listing) {
        Err(error) => Err(error),
        Ok(windows) => first_eligible(&windows),
    }
}

/// Whether the application `owner` is this application itself.
pub open spec fn is_self(owner: Seq<char>) -> bool {
    owner == "framefit"@
}

/// The size of the screen on which a window is centred: what the main display
/// reports, truncated, or the fallback size where the display cannot be asked.
pub open spec fn screen_size(display: Option<RawDisplay>) -> (int, int) {
    match display {
        Some(size) => (truncated(size.width), truncated(size.height)),
        None => (FALLBACK_SCREEN_WIDTH as int, FALLBACK_SCREEN_HEIGHT as int),
    }
}

/// What a resize of `window` comes to: no support on a platform without an
/// automation bridge; a refusal for a window of this application itself; and
/// otherwise the script to run, which also centres the window if `center` is
/// set.
pub open spec fn planned_resize(
    platform: Platform,
    window: WindowView,
    width: int,
    height: int,
    center: bool,
    display: Option<RawDisplay>,
) -> Result<Seq<char>, WindowError> {
    if platform is Unsupported {
        Err(WindowError::NotSupported)
    } else if is_self(window.app_name) {
        Err(WindowError::SelfResizeForbidden)
    } else if center {
        Ok(
            centering_script(
                window.app_name,
                width,
                height,
                screen_size(display).0,
                screen_size(display).1,
            ),
        )
    } else {
        Ok(resize_script(window.app_name, width, height))
    }
}

/// Whether the resize of `window` looks at the display: the window is to be
/// centred, and the resize is not refused.
pub open spec fn wants_display(platform: Platform, window: WindowView, center: bool) -> bool {
    center && platform is Native && !is_self(window.app_name)
}

/// The display is wanted exactly when a centring script will be written, so
/// a caller that asks first never asks the display in vain.
pub proof fn lemma_display_wanted_for_a_centring_script(
    platform: Platform,
    window: WindowView,
    width: int,
    height: int,
    center: bool,
    display: Option<RawDisplay>,
)
    ensures
        wants_display(platform, window, center) <==> center && planned_resize(
            platform,
            window,
            width,
            height,
            center,
            display,
        ) is Ok,
{
}

/// Tells whether the main display has to be asked before [`resize_window`]
/// is called for `window`: only if the window is to be centred and the
/// resize will not be refused.
pub fn display_needed(platform: Platform, window: &WindowInfo, center: bool) -> (needed: bool)
    ensures
        needed == wants_display(platform, window@, center),
{
    match platform {
        Platform::Unsupported => false,
        Platform::Native => center && !same_text(window.app_name.as_str(), "framefit"),
    }
}

/// Plans the resize of a window to `width` by `height` and returns the script
/// that carries it out; the caller runs the script and hands the outcome to
/// [`conclude_script`].
///
/// `display` is what the main display reported, and is looked at only when
/// [`display_needed`] says so. A window of this application itself is refused before
/// any script is written. The numbers are not examined.
pub fn resize_window(
    platform: Platform,
    window: &WindowInfo,
    width: i32,
    height: i32,
    center: bool,
    display: Option<RawDisplay>,
) -> (result: Result<String, WindowError>)
    ensures
        is_text_result(
            result,
            planned_resize(platform, window@, width as int, height as int, center, display),
        ),
        platform is Native && is_self(window.app_name@) ==> result == Err::<String, WindowError>(
            WindowError::SelfResizeForbidden,
        ),
{
    match platform {
        Platform::Unsupported => {
            return Err(WindowError::NotSupported);
        },
        Platform::Native => {},
    }
    if same_text(window.app_name.as_str(), "framefit") {
        return Err(WindowError::SelfResizeForbidden);
    }
    if center {
        let (screen_width, screen_height): (i32, i32) = match display {
            Some(size) => (truncate_to_i32(size.width), truncate_to_i32(size.height)),
            None => (FALLBACK_SCREEN_WIDTH, FALLBACK_SCREEN_HEIGHT),
        };
        Ok(
            write_centering_script(
                window.app_name.as_str(),
                width,
                height,
                screen_width,
                screen_height,
            ),
        )
    } else {
        Ok(write_resize_script(window.app_name.as_str(), width, height))
    }
}

/// The first window of a list with the identifier `id`.
pub open spec fn found_by_id(windows: Seq<WindowView>, id: int) -> Option<WindowView>
    decreases windows.len(),
{
    if windows.len() == 0 {
        None
    } else if windows.first().id == id {
        Some(windows.first())
    } else {
        found_by_id(windows.drop_first(), id)
    }
}

/// A list holds no window with an identifier exactly when the search for
/// that identifier finds none.
pub proof fn lemma_found_by_id_none(windows: Seq<WindowView>, id: int)
    ensures
        found_by_id(windows, id) is None <==> forall|i: int|
            0 <= i < windows.len() ==> (#[trigger] windows[i]).id != id,
    decreases windows.len(),
{
    if windows.len() > 0 {
        let rest = windows.drop_first();
        lemma_found_by_id_none(rest, id);
        if windows.first().id != id {
            if found_by_id(rest, id) is None {
                assert forall|i: int| 0 <= i < windows.len() implies (#[trigger] windows[i]).id
                    != id by {
                    if i > 0 {
                        assert(windows[i] == rest[i - 1]);
                    }
                }
            } else {
                let k = choose|k: int| 0 <= k < rest.len() && (#[trigger] rest[k]).id == id;
                assert(windows[k + 1] == rest[k]);
            }
        }
    }
}

/// A window found by its identifier is one of the windows searched.
pub proof fn lemma_found_by_id_is_member(windows: Seq<WindowView>, id: int)
    ensures
        found_by_id(windows, id) matches Some(window) ==> window.id == id && windows.contains(
            window,
        ),
    decreases windows.len(),
{
    if windows.len() > 0 && windows.first().id != id {
        let rest = windows.drop_first();
        lemma_found_by_id_is_member(rest, id);
        if found_by_id(rest, id) is Some {
            let window = found_by_id(rest, id)->0;
            let k = choose|k: int| 0 <= k < rest.len() && rest[k] == window;
            assert(windows[k + 1] == window);
        }
    }
}

/// A listed window never belongs to this application itself, which is hidden
/// from the list.
pub proof fn lemma_listed_window_is_not_self(records: Seq<RawWindow>, window: WindowView)
    requires
        listed(records).contains(window),
    ensures
        !is_self(window.app_name),
{
    lemma_listed_are_listable(records);
    let i = choose|i: int| 0 <= i < listed(records).len() && listed(records)[i] == window;
    assert(is_listable(listed(records)[i]));
}

/// A resize by identifier never ends in [`WindowError::SelfResizeForbidden`]:
/// the windows of this application are not listed, so a request for one of
/// them ends in [`WindowError::WindowNotFound`].
pub proof fn lemma_resize_by_id_never_meets_self(
    platform: Platform,
    listing: Option<Vec<RawWindow>>,
    request: ResizeRequest,
    center: bool,
    display: Option<RawDisplay>,
)
    ensures
        planned_resize_by_id(platform, listing, request, center, display) != Err::<
            Seq<char>,
            WindowError,
        >(WindowError::SelfResizeForbidden),
{
    match enumerated(platform, listing) {
        Err(_) => {},
        Ok(shown) => {
            lemma_found_by_id_is_member(shown, request.window_id as int);
            match found_by_id(shown, request.window_id as int) {
                None => {},
                Some(window) => {
                    lemma_listed_window_is_not_self(listing->0@, window);
                },
            }
        },
    }
}

/// What the search for a window by its identifier gives: the error of the
/// enumeration if it fails, the first listed window with the identifier, or
/// [`WindowError::WindowNotFound`] where no listed window has it.
pub open spec fn window_by_id(platform: Platform, listing: Option<Vec<RawWindow>>, id: int) -> Result<
    WindowView,
    WindowError,
> {
    match enumerated(platform, listing) {
        Err(error) => Err(error),
        Ok(shown) => match found_by_id(shown, id) {
            None => Err(WindowError::WindowNotFound),
            Some(window) => Ok(window),
        },
    }
}

/// What a resize by identifier comes to: the error of the search if it
/// fails, and otherwise what the resize of the window found comes to.
pub open spec fn planned_resize_by_id(
    platform: Platform,
    listing: Option<Vec<RawWindow>>,
    request: ResizeRequest,
    center: bool,
    display: Option<RawDisplay>,
) -> Result<Seq<char>, WindowError> {
    match window_by_id(platform, listing, request.window_id as int) {
        Err(error) => Err(error),
        Ok(window) => planned_resize(
            platform,
            window,
            request.width as int,
            request.height as int,
            center,
            display,
        ),
    }
}

/// Finds the window with the identifier `window_id`, given what the window
/// server returned just now. The window is looked up in the fresh list, so
/// an identifier that the caller kept from an earlier list is checked again.
pub fn get_window_by_id(platform: Platform, listing: &Option<Vec<RawWindow>>, window_id: u32) -> (result:
    Result<WindowInfo, WindowError>)
    ensures
        is_window_result(result, window_by_id(platform, *listing, window_id as int)),
        enumerated(platform, *listing) matches Ok(shown) && (forall|i: int|
            0 <= i < shown.len() ==> (#[trigger] shown[i]).id != window_id) ==> result == Err::<
            WindowInfo,
            WindowError,
        >(WindowError::WindowNotFound),
{
    let windows = match list_windows(platform, listing) {
        Err(error) => {
            return Err(error);
        },
        Ok(windows) => windows,
    };
    let ghost shown = views(windows@);
    let ghost id = window_id as int;
    proof {
        lemma_found_by_id_none(shown, id);
    }
    let mut i: usize = 0;
    assert(shown.skip(0) == shown);
    while i < windows.len()
        invariant
            i <= windows.len(),
            shown == views(windows@),
            id == window_id as int,
            platform is Native,
            enumerated(platform, *listing) == Ok::<Seq<WindowView>, WindowError>(shown),
            found_by_id(shown.skip(i as int), id) == found_by_id(shown, id),
            found_by_id(shown, id) is None <==> forall|k: int|
                0 <= k < shown.len() ==> (#[trigger] shown[k]).id != id,
        decreases windows.len() - i,
    {
        let ghost rest = shown.skip(i as int);
        assert(rest.drop_first() == shown.skip(i as int + 1));
        if windows[i].id == window_id {
            assert(found_by_id(rest, id) == Some(rest.first()));
            return Ok(copy_window(&windows[i]));
        }
        i = i + 1;
    }
    Err(WindowError::WindowNotFound)
}

/// Plans the resize of the window that `request` names, given what the
/// window server returned just now, and returns the script that carries it
/// out. If no listed window has the identifier, the answer is
/// [`WindowError::WindowNotFound`] and there is no script to run.
pub fn resize_window_by_id(
    platform: Platform,
    listing: &Option<Vec<RawWindow>>,
    request: &ResizeRequest,
    center: bool,
    display: Option<RawDisplay>,
) -> (result: Result<String, WindowError>)
    ensures
        is_text_result(result, planned_resize_by_id(platform, *listing, *request, center, display)),
        enumerated(platform, *listing) matches Ok(shown) && (forall|i: int|
            0 <= i < shown.len() ==> (#[trigger] shown[i]).id != request.window_id) ==> result
            == Err::<String, WindowError>(WindowError::WindowNotFound),
{
    match get_window_by_id(platform, listing, request.window_id) {
        Err(error) => Err(error),
        Ok(window) => resize_window(
            platform,
            &window,
            request.width,
            request.height,
            center,
            display,
        ),
    }
}

/// How a run of a script ended.
#[derive(Debug, Clone, PartialEq, Eq)]
pub enum ScriptRun {
    /// The script interpreter could not be started; the text says why.
    NotStarted(String),
    /// The interpreter ran and ended, with success or without, and wrote
    /// `stderr` to its error stream.
    Finished { success: bool, stderr: Vec<u8> },
}

/// The outcome of a script whose interpreter ended: success, or a failure
/// that carries what the interpreter complained of.
pub open spec fn exit_outcome(success: bool, complaint: String) -> Result<(), WindowError> {
    if success {
        Ok(())
    } else {
        Err(WindowError::ScriptExecutionFailed(complaint))
    }
}

/// Turns the end of a script interpreter into the outcome of the resize:
/// an exit without success is a failure with the interpreter's complaint.
pub fn exit_result(success: bool, complaint: String) -> (result: Result<(), WindowError>)
    ensures
        result == exit_outcome(success, complaint),
{
    if success {
        Ok(())
    } else {
        Err(WindowError::ScriptExecutionFailed(complaint))
    }
}

/// Turns a run of the script into the outcome of the resize.
///
/// An interpreter that could not be started gives
/// [`WindowError::ScriptSpawnFailed`] with the reason. One that ended with
/// success gives `Ok`. One that ended without gives
/// [`WindowError::ScriptExecutionFailed`] with its error stream read as text.
pub fn conclude_script(run: ScriptRun) -> (result: Result<(), WindowError>)
    ensures
        match run {
            ScriptRun::NotStarted(reason) => result == Err::<(), WindowError>(
                WindowError::ScriptSpawnFailed(reason),
            ),
            ScriptRun::Finished { success, stderr } => if success {
                result == Ok::<(), WindowError>(())
            } else {
                result matches Err(WindowError::ScriptExecutionFailed(complaint)) && complaint@
                    == lossy_text(stderr@)
            },
        },
{
    match run {
        ScriptRun::NotStarted(reason) => Err(WindowError::ScriptSpawnFailed(reason)),
        ScriptRun::Finished { success, stderr } => {
            if success {
                Ok(())
            } else {
                let complaint = text_from_bytes(stderr.as_slice());
                exit_result(false, complaint)
            }
        },
    }
}

/// The message with which an error is shown to the user.
pub open spec fn message_of(error: WindowError) -> Seq<char> {
    match error {
        WindowError::NotSupported => "Not supported on this platform"@,
        WindowError::EnumerationFailed => "Failed to get window list"@,
        WindowError::NoEligibleWindow =>
            "No suitable window found. Please open another application."@,
        WindowError::WindowNotFound => "Window not found"@,
        WindowError::SelfResizeForbidden => "Cannot resize the FrameFit app itself"@,
        WindowError::ScriptSpawnFailed(reason) => "Failed to execute AppleScript: "@ + reason@,
        WindowError::ScriptExecutionFailed(complaint) => "AppleScript error: "@ + complaint@,
    }
}

impl WindowError {
    /// Writes the message with which the error is shown to the user.
    pub fn message(&self) -> (text: String)
        ensures
            text@ == message_of(*self),
    {
        match self {
            WindowError::NotSupported => String::from_str("Not supported on this platform"),
            WindowError::EnumerationFailed => String::from_str("Failed to get window list"),
            WindowError::NoEligibleWindow => String::from_str(
                "No suitable window found. Please open another application.",
            ),
            WindowError::WindowNotFound => String::from_str("Window not found"),
            WindowError::SelfResizeForbidden => String::from_str(
                "Cannot resize the FrameFit app itself",
            ),
            WindowError::ScriptSpawnFailed(reason) => {
                let mut text = String::from_str("Failed to execute AppleScript: ");
                text.append(reason.as_str());
                text
            },
            WindowError::ScriptExecutionFailed(complaint) => {
                let mut text = String::from_str("AppleScript error: ");
                text.append(complaint.as_str());
                text
            },
        }
    }
}

} // verus!
