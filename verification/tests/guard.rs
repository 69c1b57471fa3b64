use bootstrapper::guard::{duplicate_launch_action, DuplicateLaunchAction};

#[test]
fn duplicate_launch_focuses_the_existing_main_window() {
    let args = vec![String::from("app"), String::from("--flag")];
    let action = duplicate_launch_action(Some(42u64), &args, "/tmp");
    assert_eq!(action, DuplicateLaunchAction::FocusMainWindow(42u64));
}

#[test]
fn duplicate_launch_without_main_window_is_fatal() {
    let args: Vec<String> = Vec::new();
    let action = duplicate_launch_action::<u64>(None, &args, "");
    assert_eq!(action, DuplicateLaunchAction::FailNoMainWindow);
}

#[test]
fn duplicate_launch_ignores_arguments_and_directory() {
    let none: Vec<String> = Vec::new();
    let some = vec![String::from("x"), String::from("y"), String::from("z")];
    assert_eq!(
        duplicate_launch_action(Some(7u64), &none, ""),
        duplicate_launch_action(Some(7u64), &some, "/elsewhere")
    );
    assert_eq!(
        duplicate_launch_action::<u64>(None, &none, ""),
        duplicate_launch_action::<u64>(None, &some, "/elsewhere")
    );
}
