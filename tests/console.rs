use basecamp::console::{decimal, ConsoleState, InputEvent, SERVER_INDEX, TASK_INDEX};

fn state() -> ConsoleState {
    ConsoleState::new(
        vec!["DELMAIN01".to_string(), "DELBACKUP01".to_string(), "HRMAIN01".to_string()],
        vec!["touch hey.txt".to_string(), "ls".to_string()],
    )
}

#[test]
fn starts_on_hosts_with_nothing_chosen() {
    let s = state();
    assert_eq!(s.active_listener_index(), SERVER_INDEX);
    assert!(s.is_rendering());
    assert!(s.selected_servers().is_empty());
    assert!(s.selected_jobs().is_empty());
    assert_eq!(s.console_text(), "");
}

#[test]
fn choose_host_and_job_then_dispatch() {
    let mut s = state();
    s.handle(InputEvent::MoveDown);
    s.handle(InputEvent::MoveDown);
    s.handle(InputEvent::Confirm);
    assert_eq!(s.selected_servers(), &vec!["DELBACKUP01".to_string()]);
    s.handle(InputEvent::FocusNext);
    assert_eq!(s.active_listener_index(), TASK_INDEX);
    assert_eq!(s.server_listener().selected_index(), None);
    s.handle(InputEvent::MoveUp);
    s.handle(InputEvent::Confirm);
    assert_eq!(s.selected_jobs(), &vec!["touch hey.txt".to_string()]);
    s.handle(InputEvent::BeginDispatch);
    assert!(!s.is_rendering());
    assert_eq!(
        s.console_text(),
        "Selected server: DELBACKUP01\nSelected job: touch hey.txt\nExecuting 1 jobs on 1 servers!\n"
    );
}

#[test]
fn dispatch_without_host_asks_for_one() {
    let mut s = state();
    s.handle(InputEvent::BeginDispatch);
    assert!(s.is_rendering());
    assert_eq!(s.console_text(), "Please select at least one server!\n");
}

#[test]
fn dispatch_without_job_asks_for_one() {
    let mut s = state();
    s.handle(InputEvent::MoveDown);
    s.handle(InputEvent::Confirm);
    s.clear();
    s.handle(InputEvent::BeginDispatch);
    assert!(s.is_rendering());
    assert_eq!(s.console_text(), "Please select at least one job!\n");
}

#[test]
fn confirm_with_nothing_highlighted_does_not_choose() {
    let mut s = state();
    s.handle(InputEvent::Confirm);
    assert!(s.selected_servers().is_empty());
    assert_eq!(s.console_text(), "Nothing is highlighted\n");
}

#[test]
fn focus_cycles_between_lists() {
    let mut s = state();
    s.handle(InputEvent::FocusNext);
    s.handle(InputEvent::MoveDown);
    assert_eq!(s.task_listener().selected_index(), Some(0));
    s.handle(InputEvent::FocusNext);
    assert_eq!(s.active_listener_index(), SERVER_INDEX);
    assert_eq!(s.task_listener().selected_index(), None);
    s.handle(InputEvent::Other);
    assert_eq!(s.active_listener_index(), SERVER_INDEX);
}

#[test]
fn print_appends_a_line() {
    let mut s = state();
    s.print("one");
    s.print("two");
    assert_eq!(s.console_text(), "one\ntwo\n");
    s.clear();
    assert_eq!(s.console_text(), "");
}

#[test]
fn decimal_digits() {
    assert_eq!(decimal(0), "0");
    assert_eq!(decimal(7), "7");
    assert_eq!(decimal(120), "120");
    assert_eq!(decimal(usize::MAX), usize::MAX.to_string());
}
