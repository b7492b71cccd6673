use seedshotter::event::ChangeEvent;
use seedshotter::event::WatchTarget;
use seedshotter::manager::ManagerError;
use seedshotter::manager::RunState;
use seedshotter::manager::SessionManager;
use seedshotter::manager::StopAction;
use seedshotter::session::Action;
use seedshotter::session::Phase;
use seedshotter::trigger::default_trigger;

fn target(name: &str) -> WatchTarget {
    WatchTarget::new(format!("/logs/{name}"), "/logs".to_string())
}

#[test]
fn fresh_manager_runs_nothing() {
    let manager = SessionManager::new();
    assert!(!manager.is_running());
    assert_eq!(manager.state(), RunState::Idle);
}

#[test]
fn start_hands_out_a_starting_session() {
    let mut manager = SessionManager::new();
    let launch = manager.start(target("a.log"), default_trigger()).ok().unwrap();
    assert!(manager.is_running());
    assert!(!manager.is_finished(&launch.handle));
    assert_eq!(launch.session.phase(), Phase::Starting);
    assert_eq!(launch.session.target(), &target("a.log"));
    assert!(!launch.token.should_cancel());
}

#[test]
fn second_start_fails_while_the_first_is_active() {
    let mut manager = SessionManager::new();
    let first = manager.start(target("a.log"), default_trigger()).ok().unwrap();
    let second = manager.start(target("b.log"), default_trigger());
    assert_eq!(second.err(), Some(ManagerError::AlreadyRunning));
    assert!(manager.is_running());
    assert!(!manager.is_finished(&first.handle));
    assert!(!first.token.should_cancel());
    assert_eq!(manager.state(), RunState::Running);
}

#[test]
fn start_fails_while_the_first_is_still_stopping() {
    let mut manager = SessionManager::new();
    let first = manager.start(target("a.log"), default_trigger()).ok().unwrap();
    assert_eq!(manager.stop(&first.handle), StopAction::Wake);
    let second = manager.start(target("b.log"), default_trigger());
    assert_eq!(second.err(), Some(ManagerError::AlreadyRunning));
    manager.finished(&first.handle);
    assert!(manager.start(target("b.log"), default_trigger()).is_ok());
}

#[test]
fn stop_sets_the_flag_of_the_session() {
    let mut manager = SessionManager::new();
    let launch = manager.start(target("a.log"), default_trigger()).ok().unwrap();
    assert!(!launch.token.should_cancel());
    assert_eq!(manager.stop(&launch.handle), StopAction::Wake);
    assert!(launch.token.should_cancel());
    assert_eq!(manager.state(), RunState::Stopping);
    assert!(manager.is_running());
}

#[test]
fn stop_is_seen_by_the_session_on_its_next_event() {
    let mut manager = SessionManager::new();
    let launch = manager.start(target("a.log"), default_trigger()).ok().unwrap();
    let mut session = launch.session;
    assert_eq!(session.begin(0, launch.token.should_cancel()), Action::Wait);
    assert_eq!(manager.stop(&launch.handle), StopAction::Wake);
    let event = ChangeEvent::PathChanged("/logs/a.log".to_string());
    assert_eq!(session.on_event_with_token(&event, &launch.token), Action::Release);
    assert_eq!(session.phase(), Phase::Stopping);
    assert_eq!(session.finish(), Action::Halt);
    manager.finished(&launch.handle);
    assert!(!manager.is_running());
}

#[test]
fn token_that_is_not_set_lets_the_session_go_on() {
    let mut manager = SessionManager::new();
    let launch = manager.start(target("a.log"), default_trigger()).ok().unwrap();
    let mut session = launch.session;
    assert_eq!(session.begin(0, false), Action::Wait);
    let event = ChangeEvent::PathChanged("/logs/a.log".to_string());
    assert_eq!(session.on_event_with_token(&event, &launch.token), Action::Poll);
    let other = ChangeEvent::PathChanged("/logs/b.log".to_string());
    assert_eq!(session.on_event_with_token(&other, &launch.token), Action::Wait);
    assert_eq!(session.on_event_with_token(&ChangeEvent::ShutdownRequested, &launch.token), Action::Release);
}

#[test]
fn second_stop_is_a_no_op() {
    let mut manager = SessionManager::new();
    let launch = manager.start(target("a.log"), default_trigger()).ok().unwrap();
    assert_eq!(manager.stop(&launch.handle), StopAction::Wake);
    assert_eq!(manager.stop(&launch.handle), StopAction::Nothing);
    assert_eq!(manager.stop(&launch.handle), StopAction::Nothing);
    assert!(manager.is_running());
    assert_eq!(manager.state(), RunState::Stopping);
}

#[test]
fn stop_of_a_stopped_session_is_a_no_op() {
    let mut manager = SessionManager::new();
    let launch = manager.start(target("a.log"), default_trigger()).ok().unwrap();
    assert_eq!(manager.stop(&launch.handle), StopAction::Wake);
    manager.finished(&launch.handle);
    assert!(manager.is_finished(&launch.handle));
    assert_eq!(manager.stop(&launch.handle), StopAction::Nothing);
    assert!(!manager.is_running());
}

#[test]
fn stop_without_any_session_is_a_no_op() {
    let mut manager = SessionManager::new();
    let mut other = SessionManager::new();
    let foreign = other.start(target("a.log"), default_trigger()).ok().unwrap();
    assert_eq!(manager.stop(&foreign.handle), StopAction::Nothing);
    assert!(!manager.is_running());
}

#[test]
fn old_handle_does_not_stop_the_next_session() {
    let mut manager = SessionManager::new();
    let first = manager.start(target("a.log"), default_trigger()).ok().unwrap();
    manager.finished(&first.handle);
    let second = manager.start(target("b.log"), default_trigger()).ok().unwrap();
    assert_ne!(first.handle, second.handle);
    assert_eq!(manager.stop(&first.handle), StopAction::Nothing);
    assert!(!second.token.should_cancel());
    manager.finished(&first.handle);
    assert!(manager.is_running());
    assert!(manager.is_finished(&first.handle));
    assert!(!manager.is_finished(&second.handle));
    assert_eq!(manager.stop(&second.handle), StopAction::Wake);
    assert!(second.token.should_cancel());
    assert!(!first.token.should_cancel());
}

#[test]
fn each_session_gets_a_fresh_flag() {
    let mut manager = SessionManager::new();
    let first = manager.start(target("a.log"), default_trigger()).ok().unwrap();
    assert_eq!(manager.stop(&first.handle), StopAction::Wake);
    manager.finished(&first.handle);
    let second = manager.start(target("a.log"), default_trigger()).ok().unwrap();
    assert!(first.token.should_cancel());
    assert!(!second.token.should_cancel());
    assert_eq!(manager.state(), RunState::Running);
}

#[test]
fn state_follows_start_stop_and_end() {
    let mut manager = SessionManager::new();
    assert_eq!(manager.state(), RunState::Idle);
    let launch = manager.start(target("a.log"), default_trigger()).ok().unwrap();
    assert_eq!(manager.state(), RunState::Running);
    assert_eq!(manager.stop(&launch.handle), StopAction::Wake);
    assert_eq!(manager.state(), RunState::Stopping);
    manager.finished(&launch.handle);
    assert_eq!(manager.state(), RunState::Idle);
}

#[test]
fn session_that_ends_by_itself_frees_the_manager() {
    let mut manager = SessionManager::new();
    let launch = manager.start(target("a.log"), default_trigger()).ok().unwrap();
    manager.finished(&launch.handle);
    assert_eq!(manager.state(), RunState::Idle);
    assert!(manager.is_finished(&launch.handle));
    assert!(!launch.token.should_cancel());
}

#[test]
fn manager_that_cannot_count_further_refuses_to_start() {
    let mut manager = SessionManager::with_issued(u64::MAX);
    let refused = manager.start(target("a.log"), default_trigger());
    assert_eq!(refused.err(), Some(ManagerError::Exhausted));
    assert!(!manager.is_running());
    let mut last = SessionManager::with_issued(u64::MAX - 1);
    let launch = last.start(target("a.log"), default_trigger()).ok().unwrap();
    last.finished(&launch.handle);
    assert_eq!(last.start(target("a.log"), default_trigger()).err(), Some(ManagerError::Exhausted));
}

#[test]
fn default_manager_is_a_new_manager() {
    let manager = SessionManager::default();
    assert!(!manager.is_running());
    assert_eq!(manager.state(), RunState::Idle);
}
