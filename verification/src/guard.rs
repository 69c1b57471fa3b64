//! The single-instance guard decision: what to do when a second launch of
//! the application is attempted while one instance is already running.

use vstd::prelude::*;

verus! {

/// The reaction to a duplicate launch attempt. `W` is whatever handle the
/// host runtime uses for the main window; the decision never inspects it.
#[derive(Clone, Copy, PartialEq, Eq, Debug)]
pub enum DuplicateLaunchAction<W> {
    /// Request input focus on exactly this window.
    FocusMainWindow(W),
    /// No main window exists: fail fatally. A duplicate-launch report
    /// arriving before the main window exists is an unrecoverable
    /// construction defect, not a race to recover from.
    FailNoMainWindow,
}

/// What the guard decides, as a function of the main-window lookup alone.
pub open spec fn guard_decision<W>(main_window: Option<W>) -> DuplicateLaunchAction<W> {
    match main_window {
        Option::Some(w) => DuplicateLaunchAction::FocusMainWindow(w),
        Option::None => DuplicateLaunchAction::FailNoMainWindow,
    }
}

/// Decide the reaction to a duplicate launch attempt, given the result of
/// a fresh lookup of the main window. The launch arguments and the working
/// directory of the second instance are received but deliberately ignored:
/// no argument-based routing exists.
pub fn duplicate_launch_action<W>(
    main_window: Option<W>,
    _launch_args: &Vec<String>,
    _working_dir: &str,
) -> (a: DuplicateLaunchAction<W>)
    ensures
        a == guard_decision(main_window),
        main_window matches Option::Some(w) ==> a == DuplicateLaunchAction::FocusMainWindow(w),
        main_window is None ==> a == DuplicateLaunchAction::<W>::FailNoMainWindow,
{
    match main_window {
        Option::Some(w) => DuplicateLaunchAction::FocusMainWindow(w),
        Option::None => DuplicateLaunchAction::FailNoMainWindow,
    }
}

} // verus!
