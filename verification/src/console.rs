//! The stub firmware's text console output.

use crate::status::{Status, SUCCESS};
use vstd::prelude::*;

verus! {

/// The state of a text output device.
#[derive(Clone, Copy, Debug, PartialEq, Eq, Structural)]
pub struct OutputData {
    /// The number of modes.
    pub max_mode: i32,
    /// The current mode.
    pub mode: i32,
    /// The current attribute.
    pub attribute: i32,
    /// The cursor's column.
    pub cursor_column: i32,
    /// The cursor's row.
    pub cursor_row: i32,
    /// Whether the cursor is shown.
    pub cursor_visible: bool,
}

/// A text output device.
#[derive(Clone, Copy, Debug, PartialEq, Eq, Structural)]
pub struct Output {
    /// Its state.
    pub data: OutputData,
}

/// A text output device with one mode, the cursor at the top left and hidden.
pub fn make_output() -> (o: Output)
    ensures
        o.data == (OutputData {
            max_mode: 1,
            mode: 0,
            attribute: 0,
            cursor_column: 0,
            cursor_row: 0,
            cursor_visible: false,
        }),
{
    Output {
        data: OutputData {
            max_mode: 1,
            mode: 0,
            attribute: 0,
            cursor_column: 0,
            cursor_row: 0,
            cursor_visible: false,
        },
    }
}

/// The size of a text mode: every mode has 80 columns and 25 rows.
pub fn query_mode(output: &Output, mode: usize) -> (r: (Status, usize, usize))
    ensures
        r == (Status(SUCCESS), 80usize, 25usize),
{
    (Status(SUCCESS), 80, 25)
}


/// Resets the output device; the stub has nothing to reset.
pub fn reset(output: &mut Output, extended: bool) -> (status: Status)
    ensures
        status.0 == SUCCESS,
        *final(output) == *old(output),
{
    Status(SUCCESS)
}

/// Sets the text mode; the stub keeps its one mode.
pub fn set_mode(output: &mut Output, mode: usize) -> (status: Status)
    ensures
        status.0 == SUCCESS,
        *final(output) == *old(output),
{
    Status(SUCCESS)
}

/// Sets the text attribute; the stub ignores it.
pub fn set_attribute(output: &mut Output, attribute: usize) -> (status: Status)
    ensures
        status.0 == SUCCESS,
        *final(output) == *old(output),
{
    Status(SUCCESS)
}

/// Clears the screen; the stub has no screen.
pub fn clear_screen(output: &mut Output) -> (status: Status)
    ensures
        status.0 == SUCCESS,
        *final(output) == *old(output),
{
    Status(SUCCESS)
}

/// Moves the cursor; the stub keeps it where it is.
pub fn set_cursor_position(output: &mut Output, column: usize, row: usize) -> (status: Status)
    ensures
        status.0 == SUCCESS,
        *final(output) == *old(output),
{
    Status(SUCCESS)
}

/// Shows or hides the cursor; the stub leaves it as it is.
pub fn enable_cursor(output: &mut Output, visible: bool) -> (status: Status)
    ensures
        status.0 == SUCCESS,
        *final(output) == *old(output),
{
    Status(SUCCESS)
}

} // verus!
