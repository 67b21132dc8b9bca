use tww::error::{event_loop_finished, user_main_finished};
use tww::{TwwError, TwwFinishError};

type Error = TwwError<u8, u8>;
type Finish = TwwFinishError<&'static str, u8, u8, &'static str, u32>;

#[test]
fn errors_have_messages() {
    assert_eq!(Error::Os { source: 1 }.message("refused"), "OS error: refused");
    assert_eq!(Error::TwwWindowClosed.message("ignored"), "tww window closed");
    assert_eq!(
        Error::CreateWindowSurface { source: 1 }.message("lost"),
        "create window surface error: lost"
    );
}

#[test]
fn failures_of_a_run_have_messages() {
    assert_eq!(
        Finish::Tww { source: Error::TwwWindowClosed }.message("tww window closed"),
        "tww error: tww window closed"
    );
    assert_eq!(
        Finish::WinitEventLoop { source: "x", main_result: 0 }.message("exit"),
        "winit event loop error: exit"
    );
    assert_eq!(Finish::UserMainError { source: "x" }.message("mine"), "user main error: mine");
    assert_eq!(Finish::UserMainPanic.message("ignored"), "user main panic");
}

#[test]
fn failed_event_loop_hands_on_the_result_to_come() {
    let failed: Result<u32, Finish> = event_loop_finished(Err("broken"), 42);
    assert!(matches!(
        failed,
        Err(TwwFinishError::WinitEventLoop { source: "broken", main_result: 42 })
    ));
    let ended: Result<u32, Finish> = event_loop_finished(Ok(()), 42);
    assert!(matches!(ended, Ok(42)));
}

#[test]
fn result_of_the_user_main_ends_the_run() {
    let value: Result<i64, Finish> = user_main_finished(Ok::<_, ()>(Ok(-3)));
    assert!(matches!(value, Ok(-3)));
    let error: Result<i64, Finish> = user_main_finished(Ok::<_, ()>(Err("mine")));
    assert!(matches!(error, Err(TwwFinishError::UserMainError { source: "mine" })));
    let panicked: Result<i64, Finish> = user_main_finished(Err(()));
    assert!(matches!(panicked, Err(TwwFinishError::UserMainPanic)));
}
