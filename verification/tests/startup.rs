use bootstrapper::interface::{
    invocable_commands, main_window_label, no_main_window_message, run_failure_message,
};
use bootstrapper::machine::simulate;
use bootstrapper::model::{Action, Bootstrapper, Event, Phase, Platform};

#[test]
fn desktop_startup_order() {
    let (actions, end) = simulate(Platform::Desktop, true, true);
    assert_eq!(
        actions,
        vec![
            Action::RegisterNetwork,
            Action::RegisterSingleInstance,
            Action::InstallPositionMemory,
            Action::BuildTrayIcon,
            Action::ApplyAccessoryPolicy,
            Action::RegisterDeepLink,
            Action::RegisterOpener,
            Action::RegisterCommands,
            Action::StartEventLoop,
        ]
    );
    assert_eq!(end.phase, Phase::Finished);
    assert!(!end.has_failed());
    assert!(invocable_commands().is_empty());
}

#[test]
fn mobile_startup_order() {
    let (actions, end) = simulate(Platform::Mobile, true, true);
    assert_eq!(
        actions,
        vec![
            Action::RegisterNetwork,
            Action::RegisterDeepLink,
            Action::RegisterOpener,
            Action::RegisterCommands,
            Action::StartEventLoop,
        ]
    );
    assert_eq!(end.phase, Phase::Finished);
    assert!(!actions.contains(&Action::RegisterSingleInstance));
    assert!(!actions.contains(&Action::InstallPositionMemory));
    assert!(!actions.contains(&Action::BuildTrayIcon));
    assert!(!actions.contains(&Action::ApplyAccessoryPolicy));
    assert!(invocable_commands().is_empty());
}

#[test]
fn mobile_startup_ignores_tray_fortune() {
    let (with_tray, _) = simulate(Platform::Mobile, true, true);
    let (without_tray, end) = simulate(Platform::Mobile, false, true);
    assert_eq!(with_tray, without_tray);
    assert_eq!(end.phase, Phase::Finished);
}

#[test]
fn tray_failure_aborts_startup() {
    let (actions, end) = simulate(Platform::Desktop, false, true);
    assert_eq!(
        actions,
        vec![
            Action::RegisterNetwork,
            Action::RegisterSingleInstance,
            Action::InstallPositionMemory,
            Action::BuildTrayIcon,
        ]
    );
    assert_eq!(end.phase, Phase::SetupFailed);
    assert!(end.has_failed());
    assert!(!actions.contains(&Action::ApplyAccessoryPolicy));
    assert!(!actions.contains(&Action::StartEventLoop));
}

#[test]
fn accessory_policy_applied_once_between_tray_and_loop() {
    let (actions, _) = simulate(Platform::Desktop, true, true);
    let policy_positions: Vec<usize> = (0..actions.len())
        .filter(|i| actions[*i] == Action::ApplyAccessoryPolicy)
        .collect();
    assert_eq!(policy_positions, vec![4]);
    assert_eq!(actions[3], Action::BuildTrayIcon);
    assert_eq!(actions[8], Action::StartEventLoop);
}

#[test]
fn event_loop_failure_is_fatal() {
    let (actions, end) = simulate(Platform::Desktop, true, false);
    assert_eq!(end.phase, Phase::EventLoopFailed);
    assert!(end.has_failed());
    assert_eq!(actions.last(), Some(&Action::StartEventLoop));
    assert_eq!(run_failure_message(), "error while running tauri application");
}

#[test]
fn machine_steps_through_desktop_chain() {
    let mut m = Bootstrapper::new(Platform::Desktop);
    assert_eq!(m.phase, Phase::Start);
    assert!(!m.is_terminal());

    assert_eq!(m.next_action(), Action::RegisterNetwork);
    m.step(Event::Completed);
    assert_eq!(m.next_action(), Action::RegisterSingleInstance);
    m.step(Event::Completed);
    assert_eq!(m.next_action(), Action::InstallPositionMemory);
    m.step(Event::Completed);
    assert_eq!(m.next_action(), Action::BuildTrayIcon);
    m.step(Event::TrayResult(true));
    assert_eq!(m.next_action(), Action::ApplyAccessoryPolicy);
    m.step(Event::Completed);
    assert_eq!(m.next_action(), Action::RegisterDeepLink);
    m.step(Event::Completed);
    assert_eq!(m.next_action(), Action::RegisterOpener);
    m.step(Event::Completed);
    assert_eq!(m.next_action(), Action::RegisterCommands);
    m.step(Event::Completed);
    assert_eq!(m.next_action(), Action::StartEventLoop);
    m.step(Event::EventLoopResult(true));
    assert!(m.is_terminal());
    assert_eq!(m.phase, Phase::Finished);
}

#[test]
fn main_window_label_is_the_naming_contract() {
    assert_eq!(main_window_label(), "main");
}

#[test]
fn no_main_window_diagnostic_text() {
    assert!(no_main_window_message().contains("no main window"));
    assert_eq!(no_main_window_message(), "no main window");
}
