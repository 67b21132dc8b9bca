use tww::channels::{NotReceived, Polled};
use tww::dimensions::{update_dimensions, PhysicalSize};
use tww::window::{received, undelivered, Listening, WindowPublisher};
use tww::worker::Publication;
use tww::{TwwError, Window};

const SMALL: PhysicalSize = PhysicalSize { width: 640, height: 480 };
const LARGE: PhysicalSize = PhysicalSize { width: 1920, height: 1080 };

fn window() -> (Window<char, u32>, WindowPublisher<char, u32>) {
    Window::new_runtime(SMALL)
}

fn changed(
    watcher: &mut tww::dimensions::WindowDimensionsWatcher,
) -> Result<Option<PhysicalSize>, TwwError<(), ()>> {
    watcher.changed_dimensions()
}

#[test]
fn reported_size_is_taken_over_if_it_is_news() {
    let mut current = SMALL;
    assert!(!update_dimensions(&mut current, SMALL));
    assert_eq!(current, SMALL);
    assert!(update_dimensions(&mut current, LARGE));
    assert_eq!(current, LARGE);
    assert!(!update_dimensions(&mut current, LARGE));
    let wider = PhysicalSize { width: 1921, height: 1080 };
    assert!(update_dimensions(&mut current, wider));
    assert_eq!(current, wider);
}

#[test]
fn new_dimensions_watcher_reports_the_current_size() {
    let (window, mut worker) = window();
    let mut watcher = window.dimensions_watcher();
    assert_eq!(changed(&mut watcher).unwrap(), Some(SMALL));
    assert_eq!(changed(&mut watcher).unwrap(), None);
}

#[test]
fn reading_the_size_marks_it_as_seen() {
    let (window, mut worker) = window();
    let mut watcher = window.dimensions_watcher();
    assert_eq!(watcher.dimensions(), SMALL);
    assert_eq!(changed(&mut watcher).unwrap(), None);
}

#[test]
fn spurious_resize_is_not_reported() {
    let (window, mut worker) = window();
    let mut watcher = window.dimensions_watcher();
    assert_eq!(watcher.dimensions(), SMALL);
    assert_eq!(worker.publish(Publication::Dimensions { dimensions: SMALL }), None);
    assert_eq!(changed(&mut watcher).unwrap(), None);
    assert_eq!(worker.publish(Publication::Dimensions { dimensions: LARGE }), None);
    assert_eq!(worker.publish(Publication::Dimensions { dimensions: LARGE }), None);
    assert_eq!(changed(&mut watcher).unwrap(), Some(LARGE));
    assert_eq!(changed(&mut watcher).unwrap(), None);
}

#[test]
fn watcher_of_a_closed_window_says_so() {
    let (window, mut worker) = window();
    let mut late = window.dimensions_watcher();
    let mut watcher = window.dimensions_watcher();
    assert_eq!(watcher.dimensions(), SMALL);
    assert_eq!(changed(&mut watcher).unwrap(), None);
    assert_eq!(worker.publish(Publication::Closed), None);
    assert!(matches!(changed(&mut watcher), Err(TwwError::TwwWindowClosed)));
    assert!(matches!(changed(&mut watcher), Err(TwwError::TwwWindowClosed)));
    assert_eq!(watcher.dimensions(), SMALL);
    assert!(matches!(changed(&mut watcher), Err(TwwError::TwwWindowClosed)));
    assert_eq!(changed(&mut late).unwrap(), Some(SMALL));
    assert!(matches!(changed(&mut late), Err(TwwError::TwwWindowClosed)));
    assert!(worker.publish(Publication::Dimensions { dimensions: LARGE }).is_none());
    assert_eq!(window.dimensions_watcher().dimensions(), SMALL);
}

#[test]
fn watcher_of_a_window_without_a_worker_says_so() {
    let (window, worker) = window();
    let mut watcher = window.dimensions_watcher();
    drop(worker);
    assert_eq!(changed(&mut watcher).unwrap(), Some(SMALL));
    assert!(matches!(changed(&mut watcher), Err(TwwError::TwwWindowClosed)));
}

#[test]
fn watcher_made_late_reports_the_size_that_is_set() {
    let (window, mut worker) = window();
    worker.publish(Publication::Dimensions { dimensions: LARGE });
    let mut watcher = window.dimensions_watcher();
    assert_eq!(changed(&mut watcher).unwrap(), Some(LARGE));
    assert_eq!(changed(&mut watcher).unwrap(), None);
}

#[test]
fn poll_decides_what_a_dimensions_watcher_reports() {
    let (window, mut worker) = window();
    let mut watcher = window.dimensions_watcher();
    let pending: Result<Option<PhysicalSize>, TwwError<(), ()>> =
        watcher.dimensions_after(Polled::Pending);
    assert_eq!(pending.unwrap(), None);
    let closed: Result<Option<PhysicalSize>, TwwError<(), ()>> =
        watcher.dimensions_after(Polled::Closed);
    assert!(matches!(closed, Err(TwwError::TwwWindowClosed)));
    let news: Result<Option<PhysicalSize>, TwwError<(), ()>> =
        watcher.dimensions_after(Polled::Changed);
    assert_eq!(news.unwrap(), Some(SMALL));
}

#[test]
fn redraw_request_is_taken_up_once() {
    let (window, mut worker) = window();
    assert!(!window.is_redraw_requested());
    worker.publish(Publication::Redraw);
    worker.publish(Publication::Redraw);
    assert!(window.is_redraw_requested());
    assert!(!window.is_redraw_requested());
    worker.publish(Publication::Redraw);
    assert!(window.is_redraw_requested());
}

#[test]
fn listeners_get_the_events_sent_since_they_began() {
    let (window, mut worker) = window();
    assert_eq!(worker.publish(Publication::Key { event: 'a' }), Some('a'));
    assert_eq!(worker.announce(1), Some(1));
    let mut keys = window.keyboard_listener();
    let mut all = window.window_listener();
    assert_eq!(keys.event(), None);
    assert_eq!(worker.publish(Publication::Key { event: 'b' }), None);
    assert_eq!(worker.announce(2), None);
    assert_eq!(worker.announce(3), None);
    assert_eq!(keys.event(), Some('b'));
    assert_eq!(keys.event(), None);
    assert_eq!(all.event(), Some(2));
    assert_eq!(all.event(), Some(3));
    assert_eq!(all.event(), None);
}

#[test]
fn listener_that_lags_gets_the_oldest_event_that_is_left() {
    let (window, mut worker) = window();
    let mut all = window.window_listener();
    let mut keys = window.keyboard_listener();
    let depth = tww::COMMAND_CHANNEL_DEPTH as u32;
    assert_eq!(depth, 64);
    let key = |event: u32| char::from_u32(0x4e00 + event).unwrap();
    for event in 0..depth + 1 {
        assert_eq!(worker.announce(event), None);
        assert_eq!(worker.publish(Publication::Key { event: key(event) }), None);
    }
    for event in 1..depth + 1 {
        assert_eq!(all.event(), Some(event));
        assert_eq!(keys.event(), Some(key(event)));
    }
    assert_eq!(all.event(), None);
    assert_eq!(keys.event(), None);
}

#[test]
fn listener_of_a_window_that_is_dropped_gets_what_is_left() {
    let (window, mut worker) = window();
    let mut all = window.window_listener();
    assert_eq!(worker.announce(8), None);
    drop(worker);
    drop(window);
    assert_eq!(all.event(), Some(8));
    assert_eq!(all.event(), None);
}

#[test]
fn holders_of_a_window_share_its_channels() {
    let (window, mut worker) = window();
    let other = window.clone();
    let mut watcher = other.dimensions_watcher();
    let mut keys = other.keyboard_listener();
    worker.publish(Publication::Dimensions { dimensions: LARGE });
    worker.publish(Publication::Key { event: 'x' });
    worker.publish(Publication::Redraw);
    assert_eq!(watcher.dimensions(), LARGE);
    assert_eq!(keys.event(), Some('x'));
    assert!(other.is_redraw_requested());
    assert!(!window.is_redraw_requested());
}

#[test]
fn close_request_is_set_for_good() {
    let (window, mut worker) = window();
    assert!(!*window.close_requested.borrow());
    worker.publish(Publication::CloseRequested);
    assert!(*window.close_requested.borrow());
    worker.publish(Publication::Nothing);
    assert!(*window.close_requested.borrow());
}

#[test]
fn attempt_to_receive_decides_what_a_listener_does() {
    assert_eq!(received(Ok(5)), Listening::Event { event: 5 });
    assert_eq!(received::<u32>(Err(NotReceived::Empty)), Listening::Nothing);
    assert_eq!(received::<u32>(Err(NotReceived::Closed)), Listening::Nothing);
    let lagged: Result<u32, NotReceived> = Err(NotReceived::Lagged { missed: 3 });
    assert_eq!(received(lagged), Listening::Again { missed: 3 });
}

#[test]
fn an_event_is_left_only_if_it_comes_back() {
    assert_eq!(undelivered::<char>(Ok(2)), None);
    assert_eq!(undelivered(Err('q')), Some('q'));
}

#[test]
fn worker_tells_the_holders_and_the_listeners() {
    let (window, mut worker) = window();
    let mut keys = window.keyboard_listener();
    let mut all = window.window_listener();
    worker.tell(Publication::Key { event: 'z' }, Some(26));
    worker.tell(Publication::Nothing, Some(27));
    worker.tell(Publication::Redraw, None);
    assert_eq!([keys.event(), keys.event()], [Some('z'), None]);
    assert_eq!([all.event(), all.event(), all.event()], [Some(26), Some(27), None]);
    assert!(window.is_redraw_requested());
    assert!(!*window.close_requested.borrow());
}
