use tww::application::{surface_created, window_created, window_event, WindowRequest};
use tww::runtime::{RuntimeAction, RuntimeCommand, RuntimeWorker};
use tww::worker::{WindowCommand, WindowEvent};
use tww::TwwError;

type Command = WindowCommand<u32, u32, char, u64>;
type Runtime = RuntimeCommand<&'static str, &'static str, Command>;

fn deliver(worker: &mut RuntimeWorker<&'static str>, window_id: u64, command: Command) -> &'static str {
    assert!(worker.is_registered(window_id));
    let command: Runtime = RuntimeCommand::WindowCommand { window_id, command };
    match worker.serve(command) {
        RuntimeAction::Deliver { commander, .. } => commander,
        RuntimeAction::OpenWindow { .. } => panic!("a command opened a window"),
    }
}

#[test]
fn commands_go_to_the_registered_worker() {
    let mut worker = RuntimeWorker::new();
    assert!(!worker.is_registered(1));
    worker.register(1, "one");
    worker.register(2, "two");
    assert_eq!(deliver(&mut worker, 1, WindowCommand::Close), "one");
    assert_eq!(deliver(&mut worker, 2, WindowCommand::Close), "two");
    assert!(worker.is_registered(1));
    worker.register(1, "other");
    assert_eq!(deliver(&mut worker, 1, WindowCommand::Close), "other");
}

#[test]
fn last_command_is_delivered_and_the_window_forgotten() {
    let mut worker = RuntimeWorker::new();
    worker.register(1, "one");
    worker.register(2, "two");
    let gone = WindowCommand::WinitWindowEvent { event: WindowEvent::Destroyed, full: 8 };
    assert_eq!(deliver(&mut worker, 1, gone), "one");
    assert!(!worker.is_registered(1));
    assert_eq!(deliver(&mut worker, 2, WindowCommand::Close), "two");
}

#[test]
fn delivered_command_is_the_one_that_came() {
    let mut worker = RuntimeWorker::new();
    worker.register(5, "five");
    let command: Runtime = RuntimeCommand::WindowCommand {
        window_id: 5,
        command: WindowCommand::WaitClose { responder: 77 },
    };
    match worker.serve(command) {
        RuntimeAction::Deliver { commander, command } => {
            assert_eq!(commander, "five");
            assert!(matches!(command, WindowCommand::WaitClose { responder: 77 }));
        }
        RuntimeAction::OpenWindow { .. } => panic!("a command opened a window"),
    }
}

#[test]
fn new_window_is_to_be_opened() {
    let mut worker: RuntimeWorker<&'static str> = RuntimeWorker::new();
    let command: Runtime = RuntimeCommand::RegisterWindow { responder: "asker", window: "window" };
    match worker.serve(command) {
        RuntimeAction::OpenWindow { responder, window } => {
            assert_eq!(responder, "asker");
            assert_eq!(window, "window");
        }
        RuntimeAction::Deliver { .. } => panic!("a new window got a command"),
    }
    assert!(worker.windows.is_empty());
}

#[test]
fn window_events_go_to_the_worker_of_the_window() {
    let command: Runtime = window_event(3, WindowEvent::KeyboardInput { event: 'q' }, 12);
    match command {
        RuntimeCommand::WindowCommand { window_id, command } => {
            assert_eq!(window_id, 3);
            assert!(matches!(
                command,
                WindowCommand::WinitWindowEvent {
                    event: WindowEvent::KeyboardInput { event: 'q' },
                    full: 12,
                }
            ));
        }
        RuntimeCommand::RegisterWindow { .. } => panic!("an event registered a window"),
    }
}

#[test]
fn created_window_is_registered() {
    let request: WindowRequest<&str, &str, Command, TwwError<&str, &str>> =
        window_created("asker", Ok("window"));
    assert!(matches!(
        request,
        WindowRequest::Register {
            command: RuntimeCommand::RegisterWindow { responder: "asker", window: "window" }
        }
    ));
}

#[test]
fn refused_window_is_an_error_of_the_operating_system() {
    let request: WindowRequest<&str, &str, Command, TwwError<&str, &str>> =
        window_created("asker", Err("no display"));
    assert!(matches!(
        request,
        WindowRequest::Refuse { responder: "asker", error: TwwError::Os { source: "no display" } }
    ));
}

#[test]
fn surface_or_its_error_is_the_answer() {
    let created: Result<&str, TwwError<(), &str>> = surface_created(Ok("surface"));
    assert!(matches!(created, Ok("surface")));
    let failed: Result<&str, TwwError<(), &str>> = surface_created(Err("no adapter"));
    assert!(matches!(failed, Err(TwwError::CreateWindowSurface { source: "no adapter" })));
}
