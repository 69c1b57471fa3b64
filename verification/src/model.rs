//! The mathematical model of the startup shell: the platform switch, the
//! externally observable startup actions, the events the host runtime
//! reports back, and the bootstrap state machine that fixes which actions
//! happen, in which order, under which platform.

use vstd::prelude::*;

verus! {

/// The build-time execution context of the application. Every conditional
/// branch of the composition is decided by this switch and nothing else.
#[derive(Clone, Copy, PartialEq, Eq, Debug, Structural)]
pub enum Platform {
    Desktop,
    Mobile,
}

/// One externally observable startup action, performed by the host runtime
/// on the bootstrapper's instruction.
#[derive(Clone, Copy, PartialEq, Eq, Debug, Structural)]
pub enum Action {
    /// Register the outbound network access integration.
    RegisterNetwork,
    /// Register the single-instance guard integration.
    RegisterSingleInstance,
    /// Install the window-position memory integration on the live handle.
    InstallPositionMemory,
    /// Construct the system tray icon and bind its event handler.
    BuildTrayIcon,
    /// Mark the application as an accessory (no foreground presence).
    ApplyAccessoryPolicy,
    /// Register the deep-link URL integration.
    RegisterDeepLink,
    /// Register the external link opener integration.
    RegisterOpener,
    /// Register the (empty) invocable command table.
    RegisterCommands,
    /// Hand control to the event loop, blocking for the process lifetime.
    StartEventLoop,
}

/// What the host runtime reports back after performing an action. Only the
/// tray construction and the event-loop start can fail; every other action
/// completes unconditionally.
#[derive(Clone, Copy, PartialEq, Eq, Debug, Structural)]
pub enum Event {
    /// An infallible action finished.
    Completed,
    /// The tray icon was built (`true`) or its construction failed (`false`).
    TrayResult(bool),
    /// The event loop started (`true`) or failed to start (`false`).
    EventLoopResult(bool),
}

/// How far startup has progressed. Each non-terminal phase has exactly one
/// pending action; the three terminal phases record how startup ended.
#[derive(Clone, Copy, PartialEq, Eq, Debug, Structural)]
pub enum Phase {
    /// Nothing has happened yet.
    Start,
    /// The network integration is registered.
    NetworkRegistered,
    /// The single-instance guard is registered (desktop only).
    GuardRegistered,
    /// The window-position memory integration is installed (desktop only).
    PositionMemoryInstalled,
    /// The tray icon exists and its handler is bound (desktop only).
    TrayBuilt,
    /// The accessory activation policy is in force (desktop only).
    PolicyApplied,
    /// The deep-link integration is registered.
    DeepLinkRegistered,
    /// The opener integration is registered.
    OpenerRegistered,
    /// The empty command table is registered.
    CommandsRegistered,
    /// The event loop is running; composition is complete.
    Finished,
    /// Tray construction failed; setup aborted and the failure is fatal.
    SetupFailed,
    /// The event loop failed to start, which is fatal.
    EventLoopFailed,
}

/// The bootstrap state machine: the platform it was composed for and how
/// far it has come. The driver repeatedly asks for the next action,
/// performs it, and reports the event back.
#[derive(Clone, Copy, PartialEq, Eq, Debug, Structural)]
pub struct Bootstrapper {
    pub platform: Platform,
    pub phase: Phase,
}

/// The state a bootstrapper starts in.
pub open spec fn spec_init(platform: Platform) -> Bootstrapper {
    Bootstrapper { platform, phase: Phase::Start }
}

/// A strictly decreasing measure along every transition, used to show that
/// startup takes finitely many steps.
pub open spec fn phase_rank(phase: Phase) -> nat {
    match phase {
        Phase::Start => 10,
        Phase::NetworkRegistered => 9,
        Phase::GuardRegistered => 8,
        Phase::PositionMemoryInstalled => 7,
        Phase::TrayBuilt => 6,
        Phase::PolicyApplied => 5,
        Phase::DeepLinkRegistered => 4,
        Phase::OpenerRegistered => 3,
        Phase::CommandsRegistered => 2,
        Phase::Finished => 0,
        Phase::SetupFailed => 0,
        Phase::EventLoopFailed => 0,
    }
}

impl Bootstrapper {
    /// Startup is over: either the event loop runs or a fatal path was hit.
    pub open spec fn terminal(self) -> bool {
        match self.phase {
            Phase::Finished | Phase::SetupFailed | Phase::EventLoopFailed => true,
            _ => false,
        }
    }

    /// Startup ended on one of the two fatal paths.
    pub open spec fn failed(self) -> bool {
        match self.phase {
            Phase::SetupFailed | Phase::EventLoopFailed => true,
            _ => false,
        }
    }

    /// The single action pending in the current phase. The desktop-only
    /// steps are skipped on mobile by jumping from the network registration
    /// straight to the deep-link registration.
    pub open spec fn spec_next(self) -> Action
        recommends
            !self.terminal(),
    {
        match self.phase {
            Phase::Start => Action::RegisterNetwork,
            Phase::NetworkRegistered => if self.platform is Desktop {
                Action::RegisterSingleInstance
            } else {
                Action::RegisterDeepLink
            },
            Phase::GuardRegistered => Action::InstallPositionMemory,
            Phase::PositionMemoryInstalled => Action::BuildTrayIcon,
            Phase::TrayBuilt => Action::ApplyAccessoryPolicy,
            Phase::PolicyApplied => Action::RegisterDeepLink,
            Phase::DeepLinkRegistered => Action::RegisterOpener,
            Phase::OpenerRegistered => Action::RegisterCommands,
            Phase::CommandsRegistered => Action::StartEventLoop,
            _ => Action::RegisterNetwork,
        }
    }

    /// The event kinds a step may be fed: exactly the kind of report the
    /// pending action can produce.
    pub open spec fn accepts(self, e: Event) -> bool {
        &&& !self.terminal()
        &&& match self.spec_next() {
            Action::BuildTrayIcon => e is TrayResult,
            Action::StartEventLoop => e is EventLoopResult,
            _ => e is Completed,
        }
    }

    /// The transition relation: where reporting `e` for the pending action
    /// leaves the machine.
    pub open spec fn spec_step(self, e: Event) -> Bootstrapper
        recommends
            self.accepts(e),
    {
        let phase = match self.phase {
            Phase::Start => Phase::NetworkRegistered,
            Phase::NetworkRegistered => if self.platform is Desktop {
                Phase::GuardRegistered
            } else {
                Phase::DeepLinkRegistered
            },
            Phase::GuardRegistered => Phase::PositionMemoryInstalled,
            Phase::PositionMemoryInstalled => match e {
                Event::TrayResult(true) => Phase::TrayBuilt,
                _ => Phase::SetupFailed,
            },
            Phase::TrayBuilt => Phase::PolicyApplied,
            Phase::PolicyApplied => Phase::DeepLinkRegistered,
            Phase::DeepLinkRegistered => Phase::OpenerRegistered,
            Phase::OpenerRegistered => Phase::CommandsRegistered,
            Phase::CommandsRegistered => match e {
                Event::EventLoopResult(true) => Phase::Finished,
                _ => Phase::EventLoopFailed,
            },
            _ => self.phase,
        };
        Bootstrapper { platform: self.platform, phase }
    }
}

/// The event the host runtime reports for an action, in a run where the
/// tray construction succeeds iff `tray_ok` and the event loop starts iff
/// `loop_ok`. Every other action is infallible.
pub open spec fn event_for(a: Action, tray_ok: bool, loop_ok: bool) -> Event {
    match a {
        Action::BuildTrayIcon => Event::TrayResult(tray_ok),
        Action::StartEventLoop => Event::EventLoopResult(loop_ok),
        _ => Event::Completed,
    }
}

/// The exact sequence of actions the machine instructs, from state `s` to
/// the end of startup, in a run governed by `tray_ok` and `loop_ok`.
pub open spec fn trace_from(s: Bootstrapper, tray_ok: bool, loop_ok: bool) -> Seq<Action>
    decreases phase_rank(s.phase),
{
    if s.terminal() {
        Seq::empty()
    } else {
        seq![s.spec_next()]
            + trace_from(s.spec_step(event_for(s.spec_next(), tray_ok, loop_ok)), tray_ok, loop_ok)
    }
}

/// The terminal state the machine reaches from `s` in a run governed by
/// `tray_ok` and `loop_ok`.
pub open spec fn settle_from(s: Bootstrapper, tray_ok: bool, loop_ok: bool) -> Bootstrapper
    decreases phase_rank(s.phase),
{
    if s.terminal() {
        s
    } else {
        settle_from(s.spec_step(event_for(s.spec_next(), tray_ok, loop_ok)), tray_ok, loop_ok)
    }
}

/// The full desktop startup order: network, single-instance, then the
/// three setup steps, then deep-link, opener, the empty command table and
/// the event loop.
pub open spec fn desktop_trace() -> Seq<Action> {
    seq![
        Action::RegisterNetwork,
        Action::RegisterSingleInstance,
        Action::InstallPositionMemory,
        Action::BuildTrayIcon,
        Action::ApplyAccessoryPolicy,
        Action::RegisterDeepLink,
        Action::RegisterOpener,
        Action::RegisterCommands,
        Action::StartEventLoop,
    ]
}

/// The mobile startup order: only network, deep-link, opener, the empty
/// command table and the event loop.
pub open spec fn mobile_trace() -> Seq<Action> {
    seq![
        Action::RegisterNetwork,
        Action::RegisterDeepLink,
        Action::RegisterOpener,
        Action::RegisterCommands,
        Action::StartEventLoop,
    ]
}

} // verus!
