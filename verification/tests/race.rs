use fixerio::{race_outcome, FixerioError, Settled};
use futures::{Async, Future};

/// A branch of the race that settles as `event` at its poll number `polls`,
/// counted from zero.
fn after(polls: u32, event: Settled<u32>) -> Box<dyn Future<Item = Option<u32>, Error = FixerioError>> {
    let mut left = polls;
    let mut event = Some(event);
    Box::new(futures::future::poll_fn(move || {
        if left == 0 {
            match event.take() {
                Some(event) => race_outcome(event).map(Async::Ready),
                None => panic!("polled after it settled"),
            }
        } else {
            left -= 1;
            futures::task::current().notify();
            Ok(Async::NotReady)
        }
    }))
}

fn race(
    timer: Box<dyn Future<Item = Option<u32>, Error = FixerioError>>,
    fetch: Box<dyn Future<Item = Option<u32>, Error = FixerioError>>,
) -> Result<Option<u32>, FixerioError> {
    timer.select(fetch).map(|(item, _next)| item).map_err(|(item, _next)| item).wait()
}

#[test]
fn request_that_settles_first_gives_its_value() {
    let out = race(after(10, Settled::TimerFired), after(1, Settled::Fetched(7)));
    assert!(matches!(out, Ok(Some(7))));
}

#[test]
fn timer_that_fires_first_gives_nothing() {
    let out = race(after(1, Settled::TimerFired), after(10, Settled::Fetched(7)));
    assert!(matches!(out, Ok(None)));
}

#[test]
fn transport_failure_surfaces_during_a_race() {
    let refused = std::io::Error::from(std::io::ErrorKind::ConnectionRefused);
    let failure = FixerioError::from(hyper::Error::Io(refused));
    let out = race(after(10, Settled::TimerFired), after(1, Settled::FetchFailed(failure)));
    match out {
        Err(FixerioError::Transport(hyper::Error::Io(e))) => {
            assert_eq!(e.kind(), std::io::ErrorKind::ConnectionRefused)
        }
        other => panic!("{:?}", other),
    }
}

#[test]
fn timer_failure_surfaces_during_a_race() {
    let broken = std::io::Error::new(std::io::ErrorKind::Other, "timer wheel gone");
    let out = race(after(1, Settled::TimerFailed(broken)), after(10, Settled::Fetched(7)));
    match out {
        Err(FixerioError::Timer(e)) => assert_eq!(e.to_string(), "timer wheel gone"),
        other => panic!("{:?}", other),
    }
}

#[test]
fn race_outcome_of_each_settlement() {
    assert!(matches!(race_outcome::<u32>(Settled::TimerFired), Ok(None)));
    assert!(matches!(race_outcome(Settled::Fetched(42u32)), Ok(Some(42))));
    assert!(matches!(race_outcome(Settled::Fetched("rates")), Ok(Some("rates"))));
    let io = std::io::Error::from(std::io::ErrorKind::Interrupted);
    assert!(matches!(race_outcome::<u32>(Settled::TimerFailed(io)), Err(FixerioError::Timer(_))));
    let io = std::io::Error::from(std::io::ErrorKind::OutOfMemory);
    assert!(matches!(
        race_outcome::<u32>(Settled::FetchFailed(FixerioError::Setup(io))),
        Err(FixerioError::Setup(_))
    ));
    let bad = serde_json::from_str::<serde_json::Value>("{").unwrap_err();
    assert!(matches!(
        race_outcome::<u32>(Settled::FetchFailed(FixerioError::from(bad))),
        Err(FixerioError::Parse(_))
    ));
}

#[test]
fn timer_settlement_from_its_result() {
    assert!(matches!(Settled::<u32>::timer(Ok(())), Settled::TimerFired));
    let io = std::io::Error::from(std::io::ErrorKind::Interrupted);
    match Settled::<u32>::timer(Err(io)) {
        Settled::TimerFailed(e) => assert_eq!(e.kind(), std::io::ErrorKind::Interrupted),
        other => panic!("{:?}", other),
    }
}

#[test]
fn request_settlement_from_its_result() {
    assert!(matches!(Settled::fetch(Ok(5u32)), Settled::Fetched(5)));
    let failure = FixerioError::from(hyper::Error::Timeout);
    assert!(matches!(
        Settled::<u32>::fetch(Err(failure)),
        Settled::FetchFailed(FixerioError::Transport(hyper::Error::Timeout))
    ));
}

#[test]
fn race_of_real_results() {
    let timer = after(3, Settled::timer(Ok(())));
    let fetch = after(2, Settled::fetch(Ok(11)));
    assert!(matches!(race(timer, fetch), Ok(Some(11))));
    let timer = after(2, Settled::timer(Ok(())));
    let fetch = after(3, Settled::fetch(Ok(11)));
    assert!(matches!(race(timer, fetch), Ok(None)));
}
