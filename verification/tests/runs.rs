//! Whole runs against a scripted device and a virtual clock.

use injection_engine::engine::Engine;
use injection_engine::error::InjectionError;
use injection_engine::protocol::{Directive, Event};
use injection_engine::request::InjectionRequest;

/// What the scripted device does wrong, if anything.
#[derive(Debug, Clone, PartialEq, Eq)]
enum Fault {
    Sound,
    Acquire(String),
    Text(usize, String),
    Enter(usize, String),
}

/// One thing that reached the device, with the virtual time at which it did.
#[derive(Debug, Clone, PartialEq, Eq)]
enum Seen {
    Text(u64, String),
    Enter(u64),
}

#[derive(Debug)]
struct Report {
    outcome: Result<(), InjectionError>,
    seen: Vec<Seen>,
    suspensions: Vec<u64>,
    acquisitions: usize,
    directives: Vec<Directive>,
}

fn request(items: &[&str], initial_delay_ms: u64, item_delay_ms: u64) -> InjectionRequest {
    InjectionRequest::new(
        items.iter().map(|item| item.to_string()).collect(),
        initial_delay_ms,
        item_delay_ms,
    )
}

/// Runs the engine to its end the way a real driver would, but on a device
/// that only records and a clock that only counts.
fn drive(request: InjectionRequest, fault: Fault) -> Report {
    let mut engine = Engine::new(request);
    let mut clock: u64 = 0;
    let mut seen: Vec<Seen> = Vec::new();
    let mut suspensions: Vec<u64> = Vec::new();
    let mut acquisitions: usize = 0;
    let mut directives: Vec<Directive> = Vec::new();
    let mut event = Event::Start;
    loop {
        let directive = engine.step(event).expect("the engine ignored a proper report");
        directives.push(directive.clone());
        event = match directive {
            Directive::Finish => break,
            Directive::AcquireDevice => {
                assert!(!engine.holds_exclusive_access());
                acquisitions += 1;
                match &fault {
                    Fault::Acquire(cause) => Event::DeviceFailed { cause: cause.clone() },
                    _ => Event::DeviceAcquired,
                }
            }
            Directive::Suspend { millis } => {
                assert!(!engine.holds_exclusive_access());
                suspensions.push(millis);
                clock = clock.wrapping_add(millis);
                Event::DelayElapsed
            }
            Directive::EmitText { index, text } => {
                assert!(engine.holds_exclusive_access());
                assert_eq!(engine.request().items[index], text);
                seen.push(Seen::Text(clock, text));
                match &fault {
                    Fault::Text(at, cause) if *at == index => {
                        Event::TextFailed { cause: cause.clone() }
                    }
                    _ => Event::TextEmitted,
                }
            }
            Directive::EmitEnter { index } => {
                assert!(engine.holds_exclusive_access());
                seen.push(Seen::Enter(clock));
                match &fault {
                    Fault::Enter(at, cause) if *at == index => {
                        Event::EnterFailed { cause: cause.clone() }
                    }
                    _ => Event::EnterEmitted,
                }
            }
        };
    }
    assert!(engine.is_finished());
    assert!(!engine.holds_exclusive_access());
    let outcome = match engine.outcome().expect("a finished run has an outcome") {
        Ok(()) => Ok(()),
        Err(error) => Err(error.clone()),
    };
    Report { outcome, seen, suspensions, acquisitions, directives }
}

#[test]
fn two_items_are_emitted_after_their_delays() {
    let report = drive(request(&["A123", "B456"], 500, 200), Fault::Sound);
    assert_eq!(report.outcome, Ok(()));
    assert_eq!(
        report.seen,
        vec![
            Seen::Text(500, "A123".to_string()),
            Seen::Enter(500),
            Seen::Text(700, "B456".to_string()),
            Seen::Enter(700),
        ]
    );
    assert_eq!(report.suspensions, vec![500, 200]);
    assert_eq!(report.acquisitions, 1);
}

#[test]
fn two_items_give_the_whole_script() {
    let report = drive(request(&["A123", "B456"], 500, 200), Fault::Sound);
    assert_eq!(
        report.directives,
        vec![
            Directive::AcquireDevice,
            Directive::Suspend { millis: 500 },
            Directive::EmitText { index: 0, text: "A123".to_string() },
            Directive::EmitEnter { index: 0 },
            Directive::Suspend { millis: 200 },
            Directive::EmitText { index: 1, text: "B456".to_string() },
            Directive::EmitEnter { index: 1 },
            Directive::Finish,
        ]
    );
}

#[test]
fn empty_request_succeeds_at_once() {
    let report = drive(request(&[], 1000, 1000), Fault::Sound);
    assert_eq!(report.outcome, Ok(()));
    assert_eq!(report.acquisitions, 0);
    assert!(report.suspensions.is_empty());
    assert!(report.seen.is_empty());
    assert_eq!(report.directives, vec![Directive::Finish]);
}

#[test]
fn empty_request_never_meets_a_faulty_device() {
    let report = drive(request(&[], 0, 0), Fault::Acquire("no display".to_string()));
    assert_eq!(report.outcome, Ok(()));
    assert_eq!(report.acquisitions, 0);
}

#[test]
fn failed_acquisition_emits_nothing_and_does_not_wait() {
    let report = drive(
        request(&["A123", "B456"], 500, 200),
        Fault::Acquire("permission denied".to_string()),
    );
    assert_eq!(
        report.outcome,
        Err(InjectionError::InputInitialization { cause: "permission denied".to_string() })
    );
    assert!(report.seen.is_empty());
    assert!(report.suspensions.is_empty());
    assert_eq!(report.acquisitions, 1);
    assert_eq!(report.directives, vec![Directive::AcquireDevice, Directive::Finish]);
    let error = report.outcome.unwrap_err();
    assert_eq!(error.item_index(), None);
    assert_eq!(error.message(), "Input initialization failed: permission denied");
}

#[test]
fn one_suspension_per_item() {
    let mut count: usize = 1;
    while count <= 6 {
        let items: Vec<String> = (0..count).map(|i| format!("code-{}", i)).collect();
        let report = drive(InjectionRequest::new(items, 30, 7), Fault::Sound);
        assert_eq!(report.outcome, Ok(()));
        assert_eq!(report.suspensions.len(), count);
        assert_eq!(report.suspensions[0], 30);
        assert!(report.suspensions[1..].iter().all(|millis| *millis == 7));
        assert_eq!(report.directives.len(), 3 * count + 2);
        count += 1;
    }
}

#[test]
fn single_item_waits_only_initially() {
    let report = drive(request(&["only"], 40, 9000), Fault::Sound);
    assert_eq!(report.outcome, Ok(()));
    assert_eq!(report.suspensions, vec![40]);
    assert_eq!(report.seen, vec![Seen::Text(40, "only".to_string()), Seen::Enter(40)]);
}

#[test]
fn every_item_gets_its_text_then_enter_in_order() {
    let items = ["one", "two", "three", "four"];
    let report = drive(request(&items, 10, 5), Fault::Sound);
    assert_eq!(report.outcome, Ok(()));
    assert_eq!(report.seen.len(), 2 * items.len());
    let mut index: usize = 0;
    while index < items.len() {
        let at: u64 = 10 + 5 * (index as u64);
        assert_eq!(report.seen[2 * index], Seen::Text(at, items[index].to_string()));
        assert_eq!(report.seen[2 * index + 1], Seen::Enter(at));
        index += 1;
    }
}

#[test]
fn equal_items_are_each_emitted() {
    let report = drive(request(&["same", "same", "same"], 1, 1), Fault::Sound);
    assert_eq!(report.outcome, Ok(()));
    assert_eq!(
        report.seen,
        vec![
            Seen::Text(1, "same".to_string()),
            Seen::Enter(1),
            Seen::Text(2, "same".to_string()),
            Seen::Enter(2),
            Seen::Text(3, "same".to_string()),
            Seen::Enter(3),
        ]
    );
}

#[test]
fn empty_text_is_emitted_like_any_other() {
    let report = drive(request(&["", "x"], 0, 0), Fault::Sound);
    assert_eq!(report.outcome, Ok(()));
    assert_eq!(
        report.seen,
        vec![
            Seen::Text(0, String::new()),
            Seen::Enter(0),
            Seen::Text(0, "x".to_string()),
            Seen::Enter(0),
        ]
    );
    assert_eq!(report.suspensions, vec![0, 0]);
}

#[test]
fn text_failure_stops_the_run_at_its_item() {
    let report = drive(
        request(&["a", "b", "c", "d"], 100, 10),
        Fault::Text(2, "rejected".to_string()),
    );
    assert_eq!(
        report.outcome,
        Err(InjectionError::TextInput { index: 2, cause: "rejected".to_string() })
    );
    assert_eq!(
        report.seen,
        vec![
            Seen::Text(100, "a".to_string()),
            Seen::Enter(100),
            Seen::Text(110, "b".to_string()),
            Seen::Enter(110),
            Seen::Text(120, "c".to_string()),
        ]
    );
    assert_eq!(report.suspensions, vec![100, 10, 10]);
    let error = report.outcome.unwrap_err();
    assert_eq!(error.item_index(), Some(2));
    assert_eq!(error.message(), "Text input failed: rejected");
}

#[test]
fn enter_failure_stops_the_run_at_its_item() {
    let report = drive(
        request(&["a", "b", "c"], 100, 10),
        Fault::Enter(1, "key stuck".to_string()),
    );
    assert_eq!(
        report.outcome,
        Err(InjectionError::KeyEvent { index: 1, cause: "key stuck".to_string() })
    );
    assert_eq!(
        report.seen,
        vec![
            Seen::Text(100, "a".to_string()),
            Seen::Enter(100),
            Seen::Text(110, "b".to_string()),
            Seen::Enter(110),
        ]
    );
    assert_eq!(report.suspensions, vec![100, 10]);
    let error = report.outcome.unwrap_err();
    assert_eq!(error.item_index(), Some(1));
    assert_eq!(error.message(), "Enter key failed: key stuck");
}

#[test]
fn failure_on_the_first_item_reports_index_zero() {
    let report = drive(request(&["a", "b"], 5, 5), Fault::Text(0, "nope".to_string()));
    assert_eq!(
        report.outcome,
        Err(InjectionError::TextInput { index: 0, cause: "nope".to_string() })
    );
    assert_eq!(report.seen, vec![Seen::Text(5, "a".to_string())]);
    assert_eq!(report.suspensions, vec![5]);
}

#[test]
fn failure_on_the_last_enter_still_fails_the_run() {
    let report = drive(request(&["a", "b"], 5, 5), Fault::Enter(1, "late".to_string()));
    assert_eq!(
        report.outcome,
        Err(InjectionError::KeyEvent { index: 1, cause: "late".to_string() })
    );
    assert_eq!(report.seen.len(), 4);
    assert_eq!(report.directives.last(), Some(&Directive::Finish));
}

#[test]
fn the_largest_delays_pass_through_unchanged() {
    let report = drive(request(&["a", "b"], u64::MAX, u64::MAX - 1), Fault::Sound);
    assert_eq!(report.outcome, Ok(()));
    assert_eq!(report.suspensions, vec![u64::MAX, u64::MAX - 1]);
}
