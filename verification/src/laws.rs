//! The ordering and outcome guarantees of the bootstrap machine, proved
//! once and for all over the trace of a run.

use vstd::prelude::*;

use crate::model::{
    desktop_trace, mobile_trace, settle_from, spec_init, trace_from, Action, Phase, Platform,
};

verus! {

/// On desktop, whenever the tray icon builds, startup instructs exactly
/// this order: network, single-instance, position memory, tray, accessory
/// policy, deep-link, opener, command table, event loop.
pub proof fn lemma_desktop_startup_order(loop_ok: bool)
    ensures
        trace_from(spec_init(Platform::Desktop), true, loop_ok) =~= desktop_trace(),
{
    reveal_with_fuel(trace_from, 10);
}

/// On mobile, whatever the tray or event-loop fortunes would have been,
/// startup instructs exactly network, deep-link, opener, command table,
/// event loop; the single-instance guard, the position memory, the tray
/// and the accessory policy are never instructed.
pub proof fn lemma_mobile_startup_order(tray_ok: bool, loop_ok: bool)
    ensures
        trace_from(spec_init(Platform::Mobile), tray_ok, loop_ok) =~= mobile_trace(),
        !trace_from(spec_init(Platform::Mobile), tray_ok, loop_ok).contains(
            Action::RegisterSingleInstance,
        ),
        !trace_from(spec_init(Platform::Mobile), tray_ok, loop_ok).contains(
            Action::InstallPositionMemory,
        ),
        !trace_from(spec_init(Platform::Mobile), tray_ok, loop_ok).contains(Action::BuildTrayIcon),
        !trace_from(spec_init(Platform::Mobile), tray_ok, loop_ok).contains(
            Action::ApplyAccessoryPolicy,
        ),
{
    reveal_with_fuel(trace_from, 6);
    let t = trace_from(spec_init(Platform::Mobile), tray_ok, loop_ok);
    assert(t =~= mobile_trace());
    assert forall|i: int| 0 <= i < t.len() implies t[i] != Action::RegisterSingleInstance
        && t[i] != Action::InstallPositionMemory && t[i] != Action::BuildTrayIcon && t[i]
        != Action::ApplyAccessoryPolicy by {}
}

/// On desktop, a tray construction failure aborts setup: the accessory
/// policy is never applied, the event loop is never started, and the run
/// settles on the fatal setup-failure path.
pub proof fn lemma_tray_failure_aborts_startup(loop_ok: bool)
    ensures
        trace_from(spec_init(Platform::Desktop), false, loop_ok) =~= seq![
            Action::RegisterNetwork,
            Action::RegisterSingleInstance,
            Action::InstallPositionMemory,
            Action::BuildTrayIcon,
        ],
        !trace_from(spec_init(Platform::Desktop), false, loop_ok).contains(
            Action::ApplyAccessoryPolicy,
        ),
        !trace_from(spec_init(Platform::Desktop), false, loop_ok).contains(Action::StartEventLoop),
        settle_from(spec_init(Platform::Desktop), false, loop_ok).phase == Phase::SetupFailed,
        settle_from(spec_init(Platform::Desktop), false, loop_ok).failed(),
{
    reveal_with_fuel(trace_from, 6);
    reveal_with_fuel(settle_from, 6);
    let t = trace_from(spec_init(Platform::Desktop), false, loop_ok);
    assert(t =~= seq![
        Action::RegisterNetwork,
        Action::RegisterSingleInstance,
        Action::InstallPositionMemory,
        Action::BuildTrayIcon,
    ]);
    assert forall|i: int| 0 <= i < t.len() implies t[i] != Action::ApplyAccessoryPolicy && t[i]
        != Action::StartEventLoop by {}
}

/// On a successful desktop startup, the accessory policy is applied
/// exactly once, after the tray icon is built and before the event loop
/// is started.
pub proof fn lemma_accessory_policy_once(loop_ok: bool)
    ensures
        ({
            let t = trace_from(spec_init(Platform::Desktop), true, loop_ok);
            &&& t[3] == Action::BuildTrayIcon
            &&& t[4] == Action::ApplyAccessoryPolicy
            &&& t[8] == Action::StartEventLoop
            &&& forall|i: int|
                0 <= i < t.len() && t[i] == Action::ApplyAccessoryPolicy ==> i == 4
        }),
{
    lemma_desktop_startup_order(loop_ok);
    let t = trace_from(spec_init(Platform::Desktop), true, loop_ok);
    assert(t =~= desktop_trace());
}

/// Where each run settles: the event loop running when everything
/// succeeds, the fatal setup path when the tray fails on desktop, the
/// fatal loop path when the event loop fails to start.
pub proof fn lemma_startup_outcomes(tray_ok: bool, loop_ok: bool)
    ensures
        settle_from(spec_init(Platform::Desktop), true, true).phase == Phase::Finished,
        settle_from(spec_init(Platform::Desktop), false, loop_ok).phase == Phase::SetupFailed,
        settle_from(spec_init(Platform::Desktop), true, false).phase == Phase::EventLoopFailed,
        settle_from(spec_init(Platform::Mobile), tray_ok, true).phase == Phase::Finished,
        settle_from(spec_init(Platform::Mobile), tray_ok, false).phase == Phase::EventLoopFailed,
{
    reveal_with_fuel(settle_from, 10);
}

} // verus!
