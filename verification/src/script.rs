//! The automation script: its fixed parts, and how the application name and
//! the numbers are written into it.
//!
//! The script is AppleScript, run by the system's script interpreter. It
//! brings the application to the front, takes the first window of its process
//! and sets that window's size. The centring variant then computes a position
//! from the screen size and moves the window there.

use crate::text::{decimal, decimal_of, escape_quotes, escaped, lemma_escaped_reads_back, literal_text};
use vstd::prelude::*;
use vstd::string::StringExecFns;

verus! {

/// Opens the script: the target application is brought to the front. The
/// application name follows, inside a string literal.
pub const ACTIVATE: &'static str =
    "\n            activate application \"";

/// Closes the first string literal and addresses the application's process
/// through System Events. The application name follows a second time.
pub const TELL_PROCESS: &'static str =
    "\"\n            tell application \"System Events\"\n                tell application process \"";

/// Takes the first window of the process, when it has one, and begins the
/// assignment of its size. The width follows.
pub const SET_SIZE: &'static str =
    "\"\n                    if (count of windows) > 0 then\n                        set frontWindow to first window\n                        set size of frontWindow to {";

/// Stands between the two numbers of a pair.
pub const BETWEEN: &'static str =
    ", ";

/// Ends the size assignment and the script; a process without windows makes
/// the script fail with an error of its own.
pub const FINISH: &'static str =
    "}\n                    else\n                        error \"No windows found\"\n                    end if\n                end tell\n            end tell\n            ";

/// As [`SET_SIZE`], for the script that also centres the window.
pub const SET_SIZE_FIRST: &'static str =
    "\"\n                    if (count of windows) > 0 then\n                        set frontWindow to first window\n                        -- First resize the window\n                        set size of frontWindow to {";

/// Ends the size assignment and begins the centring: the screen width follows.
pub const READ_SCREEN_WIDTH: &'static str =
    "}\n                        \n                        -- Then center it\n                        -- Use actual screen dimensions from Rust\n                        set screenWidth to ";

/// The screen height follows.
pub const READ_SCREEN_HEIGHT: &'static str =
    "\n                        set screenHeight to ";

/// Waits a tenth of a second for the resize to settle, then takes the screen
/// width once more; it follows.
pub const PAUSE_AND_READ_AGAIN: &'static str =
    "\n\n                        -- Add a pause to ensure the window has resized\n                        delay 0.1\n                        \n                        -- Try again to ensure correct screen dimensions\n                        set screenWidth to ";

/// Begins the computation of the left coordinate; the window width follows.
pub const LEFT_FROM_WIDTH: &'static str =
    "\n                        \n                        -- Calculate center position\n                        set xPos to (screenWidth - ";

/// Halves the horizontal room and begins the computation of the top
/// coordinate; the window height follows.
pub const TOP_FROM_HEIGHT: &'static str =
    ") / 2\n                        set yPos to (screenHeight - ";

/// Halves the vertical room, adds the downward bias, replaces negative
/// coordinates by the safe ones, moves the window and ends the script.
pub const PLACE_AND_FINISH: &'static str =
    ") / 2 + 50\n                        \n                        -- Ensure positive coordinates\n                        if xPos < 0 then set xPos to 50\n                        if yPos < 0 then set yPos to 100\n                        \n                        set position of frontWindow to {xPos, yPos}\n                    else\n                        error \"No windows found\"\n                    end if\n                end tell\n            end tell\n            ";

/// The script that resizes the first window of `app` to `width` by `height`.
pub open spec fn resize_script(app: Seq<char>, width: int, height: int) -> Seq<char> {
    ACTIVATE@ + escaped(app) + TELL_PROCESS@ + escaped(app) + SET_SIZE@ + decimal_of(width)
        + BETWEEN@ + decimal_of(height) + FINISH@
}

/// The script that resizes the first window of `app` to `width` by `height`
/// and then centres it on a screen of `screen_width` by `screen_height`.
///
/// The script takes the screen size twice, before and after a short pause,
/// and computes the position itself: half of the horizontal room as the left
/// coordinate, half of the vertical room plus 50 as the top coordinate, and
/// 50 or 100 in place of a negative coordinate.
pub open spec fn centering_script(
    app: Seq<char>,
    width: int,
    height: int,
    screen_width: int,
    screen_height: int,
) -> Seq<char> {
    ACTIVATE@ + escaped(app) + TELL_PROCESS@ + escaped(app) + SET_SIZE_FIRST@ + decimal_of(width)
        + BETWEEN@ + decimal_of(height) + READ_SCREEN_WIDTH@ + decimal_of(screen_width)
        + READ_SCREEN_HEIGHT@ + decimal_of(screen_height) + PAUSE_AND_READ_AGAIN@ + decimal_of(
        screen_width,
    ) + READ_SCREEN_HEIGHT@ + decimal_of(screen_height) + LEFT_FROM_WIDTH@ + decimal_of(width)
        + TOP_FROM_HEIGHT@ + decimal_of(height) + PLACE_AND_FINISH@
}

/// Appends the escaped application name to a script.
fn append_name(script: &mut String, quoted: &String)
    ensures
        final(script)@ == old(script)@ + quoted@,
{
    script.append(quoted.as_str());
}

/// Appends a number to a script.
fn append_number(script: &mut String, n: i32)
    ensures
        final(script)@ == old(script)@ + decimal_of(n as int),
{
    let numeral = decimal(n);
    script.append(numeral.as_str());
}

/// Writes the script that resizes the first window of the application named
/// `app`. The name is escaped on the way in; the numbers are written as they
/// are, negative ones too.
pub fn write_resize_script(app: &str, width: i32, height: i32) -> (script: String)
    ensures
        script@ == resize_script(app@, width as int, height as int),
{
    let quoted = escape_quotes(app);
    let mut script = String::new();
    script.append(ACTIVATE);
    append_name(&mut script, &quoted);
    script.append(TELL_PROCESS);
    append_name(&mut script, &quoted);
    script.append(SET_SIZE);
    append_number(&mut script, width);
    script.append(BETWEEN);
    append_number(&mut script, height);
    script.append(FINISH);
    script
}

/// Writes the script that resizes the first window of the application named
/// `app` and centres it on a screen of the given size.
pub fn write_centering_script(
    app: &str,
    width: i32,
    height: i32,
    screen_width: i32,
    screen_height: i32,
) -> (script: String)
    ensures
        script@ == centering_script(
            app@,
            width as int,
            height as int,
            screen_width as int,
            screen_height as int,
        ),
{
    let quoted = escape_quotes(app);
    let mut script = String::new();
    script.append(ACTIVATE);
    append_name(&mut script, &quoted);
    script.append(TELL_PROCESS);
    append_name(&mut script, &quoted);
    script.append(SET_SIZE_FIRST);
    append_number(&mut script, width);
    script.append(BETWEEN);
    append_number(&mut script, height);
    script.append(READ_SCREEN_WIDTH);
    append_number(&mut script, screen_width);
    script.append(READ_SCREEN_HEIGHT);
    append_number(&mut script, screen_height);
    script.append(PAUSE_AND_READ_AGAIN);
    append_number(&mut script, screen_width);
    script.append(READ_SCREEN_HEIGHT);
    append_number(&mut script, screen_height);
    script.append(LEFT_FROM_WIDTH);
    append_number(&mut script, width);
    script.append(TOP_FROM_HEIGHT);
    append_number(&mut script, height);
    script.append(PLACE_AND_FINISH);
    script
}

/// Both scripts open with the activation of the application, whose name
/// stands escaped in a string literal. Whatever the name holds, that literal
/// is whole and stands for the name: a double quote in the name cannot end
/// it early, and a backslash at the end of the name cannot take the closing
/// double quote. The same escaped name stands in the literal that names the
/// application's process.
pub proof fn lemma_scripts_name_the_application(
    app: Seq<char>,
    width: int,
    height: int,
    screen_width: int,
    screen_height: int,
)
    ensures
        literal_text(escaped(app)) == Some(app),
        (ACTIVATE@ + escaped(app) + TELL_PROCESS@ + escaped(app)).is_prefix_of(
            resize_script(app, width, height),
        ),
        (ACTIVATE@ + escaped(app) + TELL_PROCESS@ + escaped(app)).is_prefix_of(
            centering_script(app, width, height, screen_width, screen_height),
        ),
{
    lemma_escaped_reads_back(app);
}

} // verus!
