use burncloud_client::bootstrap::{startup_sequence, BootStep};
use burncloud_client::dispatcher::{dispatch, DispatchAction, EXIT_STATUS};
use burncloud_client::tray::{menu_message, next_tray_step, SimpleError, TrayMessage, TrayStep};
use burncloud_client::watcher::{Watcher, WindowCommand, POLL_INTERVAL_MS};

/// Feeds the queue to the dispatcher in order, as its thread would, and
/// returns how many messages it handled and the exit status, if it ended.
fn run_queue(cell: &mut bool, queue: &[TrayMessage]) -> (usize, Option<i32>) {
    let mut handled = 0;
    for msg in queue {
        handled += 1;
        if let DispatchAction::Terminate(code) = dispatch(cell, *msg) {
            return (handled, Some(code));
        }
    }
    (handled, None)
}

fn shows(commands: &[WindowCommand]) -> usize {
    commands.iter().filter(|c| **c == WindowCommand::SetVisible(true)).count()
}

#[test]
fn show_message_is_seen_after_one_poll() {
    let mut cell = false;
    let mut watcher = Watcher::new(false);
    let (handled, exit) = run_queue(&mut cell, &[TrayMessage::ShowWindow]);
    assert_eq!((handled, exit), (1, None));
    assert!(cell);
    assert!(!watcher.last_applied());
    let commands = watcher.tick(cell);
    assert!(watcher.last_applied());
    assert_eq!(commands, vec![WindowCommand::SetVisible(true), WindowCommand::SetFocus]);
    assert_eq!(shows(&commands), 1);
}

#[test]
fn tray_creation_failure_leaves_the_ui_running() {
    let t = next_tray_step(TrayStep::CreateApp, false);
    assert_eq!(t.next, TrayStep::Failed);
    assert!(!t.default_icon);
    assert_eq!(next_tray_step(TrayStep::Failed, true).next, TrayStep::Failed);
    let order = startup_sequence();
    let tray = order.iter().position(|s| *s == BootStep::StartTray).unwrap();
    let ui = order.iter().position(|s| *s == BootStep::StartUi).unwrap();
    assert!(tray < ui);
}

#[test]
fn two_shows_before_a_poll_give_one_command_pair() {
    let mut cell = false;
    let mut watcher = Watcher::new(false);
    run_queue(&mut cell, &[TrayMessage::ShowWindow, TrayMessage::ShowWindow]);
    let first = watcher.tick(cell);
    assert_eq!(first, vec![WindowCommand::SetVisible(true), WindowCommand::SetFocus]);
    let second = watcher.tick(cell);
    assert!(second.is_empty());
}

#[test]
fn exit_behind_an_unread_show_ends_the_process() {
    let mut cell = false;
    let (handled, exit) = run_queue(
        &mut cell,
        &[TrayMessage::ShowWindow, TrayMessage::Exit, TrayMessage::ShowWindow],
    );
    assert_eq!(handled, 2);
    assert_eq!(exit, Some(0));
}

#[test]
fn exit_first_stops_before_any_show() {
    let mut cell = false;
    let (handled, exit) = run_queue(&mut cell, &[TrayMessage::Exit, TrayMessage::ShowWindow]);
    assert_eq!((handled, exit), (1, Some(EXIT_STATUS)));
    assert!(!cell);
}

#[test]
fn interleaved_shows_and_polls_show_once() {
    let mut cell = false;
    let mut watcher = Watcher::new(true);
    let mut total = 0;
    total += shows(&watcher.tick(cell));
    for _ in 0..3 {
        dispatch(&mut cell, TrayMessage::ShowWindow);
        total += shows(&watcher.tick(cell));
        dispatch(&mut cell, TrayMessage::ShowWindow);
        dispatch(&mut cell, TrayMessage::ShowWindow);
        total += shows(&watcher.tick(cell));
    }
    assert_eq!(total, 1);
}

#[test]
fn many_producers_leave_the_flag_raised() {
    let mut cell = false;
    let queue = vec![TrayMessage::ShowWindow; 5];
    assert_eq!(run_queue(&mut cell, &queue), (5, None));
    assert!(cell);
    let mut raised = true;
    assert_eq!(dispatch(&mut raised, TrayMessage::ShowWindow), DispatchAction::Continue);
    assert!(raised);
}

#[test]
fn exit_leaves_the_flag_alone() {
    let mut cell = true;
    assert_eq!(dispatch(&mut cell, TrayMessage::Exit), DispatchAction::Terminate(0));
    assert!(cell);
    let mut lowered = false;
    assert_eq!(dispatch(&mut lowered, TrayMessage::Exit), DispatchAction::Terminate(0));
    assert!(!lowered);
}

#[test]
fn reraise_hides_before_showing() {
    let mut watcher = Watcher::new(true);
    assert!(watcher.force_reraise());
    assert!(watcher.tick(false).is_empty());
    assert_eq!(
        watcher.tick(true),
        vec![
            WindowCommand::SetVisible(false),
            WindowCommand::SetVisible(true),
            WindowCommand::SetFocus
        ]
    );
    assert!(watcher.tick(true).is_empty());
    assert!(watcher.tick(false).is_empty());
    assert!(watcher.last_applied());
}

#[test]
fn icon_failure_is_not_fatal() {
    let t = next_tray_step(TrayStep::SetIcon, false);
    assert_eq!(t.next, TrayStep::AddShowItem);
    assert!(t.default_icon);
    let t = next_tray_step(TrayStep::SetIcon, true);
    assert_eq!(t.next, TrayStep::AddShowItem);
    assert!(!t.default_icon);
}

#[test]
fn tray_bring_up_runs_in_order() {
    let mut step = TrayStep::CreateApp;
    let mut seen = vec![step];
    while step != TrayStep::Finished {
        step = next_tray_step(step, true).next;
        seen.push(step);
    }
    assert_eq!(
        seen,
        vec![
            TrayStep::CreateApp,
            TrayStep::SetIcon,
            TrayStep::AddShowItem,
            TrayStep::AddSeparator,
            TrayStep::AddExitItem,
            TrayStep::WaitForMessages,
            TrayStep::Finished
        ]
    );
    assert_eq!(next_tray_step(TrayStep::AddSeparator, false).next, TrayStep::Failed);
    assert_eq!(next_tray_step(TrayStep::WaitForMessages, false).next, TrayStep::Failed);
}

#[test]
fn menu_entries_send_their_messages() {
    assert_eq!(menu_message(TrayStep::AddShowItem), Some(TrayMessage::ShowWindow));
    assert_eq!(menu_message(TrayStep::AddExitItem), Some(TrayMessage::Exit));
    assert_eq!(menu_message(TrayStep::AddSeparator), None);
    assert_eq!(menu_message(TrayStep::CreateApp), None);
}

#[test]
fn startup_runs_in_fixed_order() {
    assert_eq!(
        startup_sequence(),
        vec![
            BootStep::CreateChannel,
            BootStep::RegisterSender,
            BootStep::StartDispatcher,
            BootStep::StartTray,
            BootStep::StartUi
        ]
    );
}

#[test]
fn simple_error_keeps_its_message() {
    let e = SimpleError::new(String::from("no tray"));
    assert_eq!(e.message(), "no tray");
}

#[test]
fn poll_interval_is_short() {
    assert_eq!(POLL_INTERVAL_MS, 100);
}
