//! The executable bootstrap machine: a thin, fully verified shell over the
//! transition relation in `model`, plus a driver that plays a whole run
//! and returns the exact action trace.

use vstd::prelude::*;

use crate::model::{
    phase_rank, settle_from, spec_init, trace_from, Action, Bootstrapper, Event, Phase, Platform,
};

verus! {

impl Bootstrapper {
    /// A fresh machine for the given platform, with nothing registered yet.
    pub fn new(platform: Platform) -> (m: Bootstrapper)
        ensures
            m == spec_init(platform),
    {
        Bootstrapper { platform, phase: Phase::Start }
    }

    /// Whether startup is over (event loop running, or a fatal path hit).
    pub fn is_terminal(&self) -> (b: bool)
        ensures
            b == self.terminal(),
    {
        match self.phase {
            Phase::Finished | Phase::SetupFailed | Phase::EventLoopFailed => true,
            _ => false,
        }
    }

    /// Whether startup ended on one of the two fatal paths.
    pub fn has_failed(&self) -> (b: bool)
        ensures
            b == self.failed(),
    {
        match self.phase {
            Phase::SetupFailed | Phase::EventLoopFailed => true,
            _ => false,
        }
    }

    /// The single action pending in the current phase.
    pub fn next_action(&self) -> (a: Action)
        requires
            !self.terminal(),
        ensures
            a == self.spec_next(),
    {
        match self.phase {
            Phase::Start => Action::RegisterNetwork,
            Phase::NetworkRegistered => match self.platform {
                Platform::Desktop => Action::RegisterSingleInstance,
                Platform::Mobile => Action::RegisterDeepLink,
            },
            Phase::GuardRegistered => Action::InstallPositionMemory,
            Phase::PositionMemoryInstalled => Action::BuildTrayIcon,
            Phase::TrayBuilt => Action::ApplyAccessoryPolicy,
            Phase::PolicyApplied => Action::RegisterDeepLink,
            Phase::DeepLinkRegistered => Action::RegisterOpener,
            Phase::OpenerRegistered => Action::RegisterCommands,
            Phase::CommandsRegistered => Action::StartEventLoop,
            // Unreachable: the precondition rules out terminal phases.
            Phase::Finished | Phase::SetupFailed | Phase::EventLoopFailed => {
                Action::RegisterNetwork
            },
        }
    }

    /// Advance by one step: the driver performed the pending action and
    /// reports how it went.
    pub fn step(&mut self, e: Event)
        requires
            old(self).accepts(e),
        ensures
            *final(self) == old(self).spec_step(e),
    {
        let phase = match self.phase {
            Phase::Start => Phase::NetworkRegistered,
            Phase::NetworkRegistered => match self.platform {
                Platform::Desktop => Phase::GuardRegistered,
                Platform::Mobile => Phase::DeepLinkRegistered,
            },
            Phase::GuardRegistered => Phase::PositionMemoryInstalled,
            Phase::PositionMemoryInstalled => match e {
                Event::TrayResult(true) => Phase::TrayBuilt,
                _ => Phase::SetupFailed,
            },
            Phase::TrayBuilt => Phase::PolicyApplied,
            Phase::PolicyApplied => Phase::DeepLinkRegistered,
            Phase::DeepLinkRegistered => Phase::OpenerRegistered,
            Phase::OpenerRegistered => Phase::CommandsRegistered,
            Phase::CommandsRegistered => match e {
                Event::EventLoopResult(true) => Phase::Finished,
                _ => Phase::EventLoopFailed,
            },
            // Unreachable: the precondition rules out terminal phases.
            Phase::Finished | Phase::SetupFailed | Phase::EventLoopFailed => self.phase,
        };
        self.phase = phase;
    }
}

/// Play a whole startup run for the given platform, with the tray
/// construction succeeding iff `tray_ok` and the event loop starting iff
/// `loop_ok`. Returns the actions in the exact order they were instructed
/// and the terminal state.
pub fn simulate(platform: Platform, tray_ok: bool, loop_ok: bool) -> (r: (Vec<Action>, Bootstrapper))
    ensures
        r.0@ == trace_from(spec_init(platform), tray_ok, loop_ok),
        r.1 == settle_from(spec_init(platform), tray_ok, loop_ok),
{
    let mut m = Bootstrapper::new(platform);
    let mut performed: Vec<Action> = Vec::new();
    while !m.is_terminal()
        invariant
            trace_from(spec_init(platform), tray_ok, loop_ok) == performed@ + trace_from(
                m,
                tray_ok,
                loop_ok,
            ),
            settle_from(spec_init(platform), tray_ok, loop_ok) == settle_from(
                m,
                tray_ok,
                loop_ok,
            ),
        decreases phase_rank(m.phase),
    {
        let ghost m0 = m;
        let ghost performed0 = performed@;
        let a = m.next_action();
        let e = match a {
            Action::BuildTrayIcon => Event::TrayResult(tray_ok),
            Action::StartEventLoop => Event::EventLoopResult(loop_ok),
            _ => Event::Completed,
        };
        performed.push(a);
        m.step(e);
        proof {
            assert(e == crate::model::event_for(a, tray_ok, loop_ok));
            assert(trace_from(m0, tray_ok, loop_ok) == seq![a] + trace_from(m, tray_ok, loop_ok));
            assert(performed0 + trace_from(m0, tray_ok, loop_ok) =~= performed@ + trace_from(
                m,
                tray_ok,
                loop_ok,
            ));
        }
    }
    proof {
        assert(trace_from(m, tray_ok, loop_ok) =~= Seq::<Action>::empty());
        assert(performed@ + Seq::<Action>::empty() =~= performed@);
    }
    (performed, m)
}

} // verus!
