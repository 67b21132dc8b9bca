use tww::dimensions::PhysicalSize;
use tww::worker::{Publication, Reaction, WindowCommand, WindowEvent, WindowWorker, WorkerPhase};

type Command = WindowCommand<u32, &'static str, char, u64>;

fn event(event: WindowEvent<char>, full: u64) -> Command {
    WindowCommand::WinitWindowEvent { event, full }
}

fn wait(responder: u32) -> Command {
    WindowCommand::WaitClose { responder }
}

fn is_silent(reaction: &Reaction<u32, &'static str, char, u64>) -> bool {
    reaction.surface.is_none()
        && matches!(reaction.publication, Publication::Nothing)
        && reaction.event.is_none()
}

#[test]
fn new_worker_holds_its_window() {
    let mut worker: WindowWorker<u32> = WindowWorker::new();
    assert_eq!(worker.phase(), WorkerPhase::Open);
    assert!(worker.serve(Some(event(WindowEvent::Destroyed, 0))).answered.is_empty());
}

#[test]
fn waiters_are_told_in_order_when_the_window_is_gone() {
    let mut worker = WindowWorker::new();
    assert!(worker.serve(Some(wait(1))).answered.is_empty());
    assert!(worker.serve(Some(wait(2))).answered.is_empty());
    let reaction = worker.serve(Some(event(WindowEvent::Destroyed, 7)));
    assert_eq!(reaction.answered, vec![1, 2]);
    assert_eq!(reaction.event, Some(7));
    assert!(matches!(reaction.publication, Publication::Closed));
    assert!(reaction.release_window);
    assert_eq!(worker.phase(), WorkerPhase::Closing);
    let late = worker.serve(Some(wait(3)));
    assert_eq!(late.answered, vec![3]);
    assert!(worker.serve(Some(event(WindowEvent::Destroyed, 8))).answered.is_empty());
}

#[test]
fn closing_lets_go_of_the_window_and_waits() {
    let mut worker = WindowWorker::new();
    let close = worker.serve(Some(Command::Close));
    assert!(close.release_window);
    assert!(close.answered.is_empty());
    assert!(is_silent(&close));
    let waiting = worker.serve(Some(wait(9)));
    assert!(waiting.answered.is_empty());
    assert!(!waiting.release_window);
    let again = worker.serve(Some(Command::Close));
    assert!(!again.release_window);
    let gone = worker.serve(Some(event(WindowEvent::Destroyed, 1)));
    assert_eq!(gone.answered, vec![9]);
    assert_eq!(gone.event, Some(1));
    assert!(matches!(gone.publication, Publication::Closed));
    assert!(!gone.release_window);
}

#[test]
fn waiting_does_not_close_the_window() {
    let mut worker = WindowWorker::new();
    let reaction = worker.serve(Some(wait(4)));
    assert!(!reaction.release_window);
    assert_eq!(worker.phase(), WorkerPhase::Open);
    assert_eq!(worker.serve(Some(event(WindowEvent::Destroyed, 0))).answered, vec![4]);
}

#[test]
fn window_that_nobody_holds_is_let_go_of() {
    let mut worker: WindowWorker<u32> = WindowWorker::new();
    let first = worker.serve(None::<Command>);
    assert!(first.release_window);
    assert_eq!(worker.phase(), WorkerPhase::Closing);
    let second = worker.serve(None::<Command>);
    assert!(!second.release_window);
    assert_eq!(worker.phase(), WorkerPhase::Finished);
}

#[test]
fn events_of_an_open_window_are_published_and_heard() {
    let mut worker = WindowWorker::new();
    let redraw = worker.serve(Some(event(WindowEvent::RedrawRequested, 1)));
    assert!(matches!(redraw.publication, Publication::Redraw));
    assert_eq!(redraw.event, Some(1));
    let size = PhysicalSize { width: 3, height: 4 };
    let resized = worker.serve(Some(event(WindowEvent::Resized { dimensions: size }, 2)));
    assert!(matches!(resized.publication, Publication::Dimensions { dimensions } if dimensions == size));
    assert_eq!(resized.event, Some(2));
    let key = worker.serve(Some(event(WindowEvent::KeyboardInput { event: 'k' }, 3)));
    assert!(matches!(key.publication, Publication::Key { event: 'k' }));
    assert_eq!(key.event, Some(3));
    let close = worker.serve(Some(event(WindowEvent::CloseRequested, 4)));
    assert!(matches!(close.publication, Publication::CloseRequested));
    assert_eq!(close.event, Some(4));
    assert!(!close.release_window);
    let other = worker.serve(Some(event(WindowEvent::Other, 5)));
    assert!(matches!(other.publication, Publication::Nothing));
    assert_eq!(other.event, Some(5));
    assert_eq!(worker.phase(), WorkerPhase::Open);
}

#[test]
fn surface_is_created_for_an_open_window() {
    let mut worker: WindowWorker<u32> = WindowWorker::new();
    let command: Command = WindowCommand::CreateSurface { responder: "surface" };
    let reaction = worker.serve(Some(command));
    assert_eq!(reaction.surface, Some("surface"));
    assert_eq!(reaction.event, None);
}

#[test]
fn released_window_is_silent() {
    let mut worker = WindowWorker::new();
    worker.serve(Some(Command::Close));
    for command in [
        event(WindowEvent::RedrawRequested, 1),
        event(WindowEvent::Resized { dimensions: PhysicalSize { width: 1, height: 1 } }, 2),
        event(WindowEvent::KeyboardInput { event: 'k' }, 3),
        event(WindowEvent::CloseRequested, 4),
        event(WindowEvent::Other, 5),
        WindowCommand::CreateSurface { responder: "surface" },
    ] {
        let reaction = worker.serve(Some(command));
        assert!(is_silent(&reaction));
        assert!(reaction.answered.is_empty());
        assert!(!reaction.release_window);
    }
}

#[test]
fn nobody_is_told_twice() {
    let mut worker = WindowWorker::new();
    worker.serve(Some(wait(1)));
    assert_eq!(worker.serve(Some(event(WindowEvent::Destroyed, 1))).answered, vec![1]);
    assert!(worker.serve(Some(event(WindowEvent::Destroyed, 2))).answered.is_empty());
}

#[test]
fn closing_answers_the_one_that_waits_on_a_channel() {
    type Responder = tokio::sync::oneshot::Sender<Result<(), ()>>;
    let (responder, mut response) = tokio::sync::oneshot::channel();
    let mut worker: WindowWorker<Responder> = WindowWorker::new();
    let mut serve = |command: WindowCommand<Responder, (), (), ()>| {
        for responder in worker.serve(Some(command)).answered {
            responder.send(Ok(())).unwrap();
        }
    };
    serve(WindowCommand::Close);
    serve(WindowCommand::WaitClose { responder });
    assert!(response.try_recv().is_err());
    serve(WindowCommand::WinitWindowEvent { event: WindowEvent::Destroyed, full: () });
    assert_eq!(response.try_recv(), Ok(Ok(())));
}

#[test]
fn listeners_hear_that_the_window_is_gone() {
    let mut worker = WindowWorker::new();
    let focused = worker.serve(Some(event(WindowEvent::Other, 1)));
    let gone = worker.serve(Some(event(WindowEvent::Destroyed, 2)));
    let end = worker.serve(None::<Command>);
    assert_eq!([focused.event, gone.event, end.event], [Some(1), Some(2), None]);
    assert_eq!(worker.phase(), WorkerPhase::Finished);
}

#[test]
fn watchers_learn_from_the_worker_that_the_window_is_gone() {
    let size = PhysicalSize { width: 5, height: 6 };
    let (window, mut publisher) = tww::Window::<char, u64>::new_runtime(size);
    let mut watcher = window.dimensions_watcher();
    let mut listener = window.window_listener();
    let mut worker = WindowWorker::new();
    let mut changed = || -> Result<Option<PhysicalSize>, tww::TwwError<(), ()>> {
        watcher.changed_dimensions()
    };
    assert_eq!(changed().unwrap(), Some(size));
    for command in [Command::Close, event(WindowEvent::Destroyed, 3)] {
        assert_eq!(changed().unwrap(), None);
        let reaction = worker.serve(Some(command));
        publisher.tell(reaction.publication, reaction.event);
    }
    assert!(matches!(changed(), Err(tww::TwwError::TwwWindowClosed)));
    assert_eq!(listener.event(), Some(3));
    assert_eq!(listener.event(), None);
}

#[test]
fn channels_get_what_happens_while_the_window_is_held() {
    let resized = |width| event(
        WindowEvent::Resized { dimensions: PhysicalSize { width, height: 2 } },
        u64::from(width),
    );
    let key = |key, full| event(WindowEvent::KeyboardInput { event: key }, full);
    let size = PhysicalSize { width: 1, height: 2 };
    let (window, mut publisher) = tww::Window::<char, u64>::new_runtime(size);
    let mut watcher = window.dimensions_watcher();
    let mut keys = window.keyboard_listener();
    let mut all = window.window_listener();
    let mut worker: WindowWorker<u32> = WindowWorker::new();
    let mut surfaces = Vec::new();
    for command in [
        key('a', 10),
        WindowCommand::CreateSurface { responder: "held" },
        resized(3),
        event(WindowEvent::RedrawRequested, 11),
        event(WindowEvent::CloseRequested, 12),
        key('b', 13),
        Command::Close,
        key('c', 14),
        resized(4),
        event(WindowEvent::RedrawRequested, 15),
        WindowCommand::CreateSurface { responder: "gone" },
        event(WindowEvent::Destroyed, 16),
    ] {
        let reaction = worker.serve(Some(command));
        surfaces.extend(reaction.surface);
        publisher.tell(reaction.publication, reaction.event);
    }
    assert_eq!([keys.event(), keys.event(), keys.event()], [Some('a'), Some('b'), None]);
    let mut heard = Vec::new();
    while let Some(event) = all.event() {
        heard.push(event);
    }
    assert_eq!(heard, vec![10, 3, 11, 12, 13, 16]);
    assert_eq!(watcher.dimensions(), PhysicalSize { width: 3, height: 2 });
    assert!(*window.close_requested.borrow());
    assert!(window.is_redraw_requested());
    assert!(!window.is_redraw_requested());
    assert_eq!(surfaces, vec!["held"]);
}
