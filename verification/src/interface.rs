//! The fixed interface facts of the shell: the naming contract for the
//! main window, the (empty) invocable command table, and the diagnostic
//! texts of the two fatal paths.

use vstd::prelude::*;

verus! {

/// The well-known identifier under which the main window must be
/// registered by the rest of the application.
pub fn main_window_label() -> (s: &'static str)
    ensures
        s@ == "main"@,
{
    "main"
}

/// The command table exposed to the front-end layer: empty, on every
/// platform.
pub fn invocable_commands() -> (v: Vec<&'static str>)
    ensures
        v@.len() == 0,
{
    Vec::new()
}

/// The diagnostic of the fatal path taken when a duplicate-launch report
/// finds no main window.
pub fn no_main_window_message() -> (s: &'static str)
    ensures
        s@ == "no main window"@,
{
    "no main window"
}

/// The diagnostic of the fatal path taken when the event loop fails to
/// start.
pub fn run_failure_message() -> (s: &'static str)
    ensures
        s@ == "error while running tauri application"@,
{
    "error while running tauri application"
}

} // verus!
