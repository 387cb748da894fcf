use copper::harness::{Action, Event, Expectation, Harness, Step, TestCase};
use copper::qemu::{exit_qemu, QemuExitCode};

fn passing(name: &str) -> TestCase {
    TestCase { name: String::from(name), expected: Expectation::Completes }
}

fn faulting(name: &str) -> TestCase {
    TestCase { name: String::from(name), expected: Expectation::Faults }
}

fn faulted(description: &str) -> Event {
    Event::Faulted { description: String::from(description) }
}

fn exit_value(step: &Step) -> u32 {
    match step.action {
        Action::Exit { code } => exit_qemu(code).value,
        _ => panic!("the step does not exit"),
    }
}

#[test]
fn one_passing_case_prints_name_then_ok_and_exits_with_success() {
    let (mut harness, first) = Harness::new(vec![passing("copper::tests::trivial_assertion")]);
    assert_eq!(first.output, "copper::tests::trivial_assertion...\t");
    assert_eq!(first.action, Action::Run { index: 0 });
    let second = harness.step(Event::Returned);
    assert_eq!(second.output, "[ok]\n");
    assert_eq!(second.action, Action::Exit { code: QemuExitCode::Success });
    assert_eq!(exit_value(&second), 0x10);
}

#[test]
fn expected_fault_prints_ok_and_exits_with_success() {
    let (mut harness, first) = Harness::new(vec![faulting("should_panic::should_fail")]);
    assert_eq!(first.output, "should_panic::should_fail...\t");
    assert_eq!(first.action, Action::Run { index: 0 });
    let second = harness.step(faulted("assertion failed: false"));
    assert_eq!(second.output, "[ok]\n");
    assert_eq!(second.action, Action::Exit { code: QemuExitCode::Success });
    assert_eq!(exit_value(&second), 0x10);
}

#[test]
fn missing_fault_prints_didnt_panic_and_exits_with_failed() {
    let (mut harness, first) = Harness::new(vec![faulting("should_panic::should_fail")]);
    assert_eq!(first.output, "should_panic::should_fail...\t");
    let second = harness.step(Event::Returned);
    assert_eq!(second.output, "[test didn't panic]\n");
    assert_eq!(second.action, Action::Exit { code: QemuExitCode::Failed });
    assert_eq!(exit_value(&second), 0x11);
}

#[test]
fn unexpected_fault_prints_failed_with_the_description() {
    let (mut harness, _) = Harness::new(vec![passing("breaks"), passing("never runs")]);
    let second = harness.step(faulted("panicked at src/main.rs:7:5"));
    assert_eq!(second.output, "[failed]\nError: panicked at src/main.rs:7:5\n");
    assert_eq!(second.action, Action::Exit { code: QemuExitCode::Failed });
    assert_eq!(exit_value(&second), 0x11);
    assert_eq!(harness.step(Event::Returned).action, Action::Halt);
}

#[test]
fn empty_suite_exits_with_success_at_once() {
    let (mut harness, first) = Harness::new(Vec::new());
    assert_eq!(first.output, "");
    assert_eq!(first.action, Action::Exit { code: QemuExitCode::Success });
    let second = harness.step(Event::Returned);
    assert_eq!(second.output, "");
    assert_eq!(second.action, Action::Halt);
}

#[test]
fn cases_run_in_order_and_the_transcript_follows() {
    let (mut harness, first) = Harness::new(vec![passing("one"), passing("two"), passing("three")]);
    let mut transcript = first.output;
    let mut action = first.action;
    let mut ran = Vec::new();
    while let Action::Run { index } = action {
        ran.push(index);
        let step = harness.step(Event::Returned);
        transcript.push_str(&step.output);
        action = step.action;
    }
    assert_eq!(ran, vec![0, 1, 2]);
    assert_eq!(transcript, "one...\t[ok]\ntwo...\t[ok]\nthree...\t[ok]\n");
    assert_eq!(action, Action::Exit { code: QemuExitCode::Success });
}

#[test]
fn a_single_failure_fails_the_whole_run() {
    let (mut harness, first) = Harness::new(vec![passing("one"), passing("two"), passing("three")]);
    let mut transcript = first.output;
    let second = harness.step(Event::Returned);
    transcript.push_str(&second.output);
    assert_eq!(second.action, Action::Run { index: 1 });
    let third = harness.step(faulted("boom"));
    transcript.push_str(&third.output);
    assert_eq!(transcript, "one...\t[ok]\ntwo...\t[failed]\nError: boom\n");
    assert_eq!(third.action, Action::Exit { code: QemuExitCode::Failed });
}

#[test]
fn expected_fault_ends_the_run_before_later_cases() {
    let (mut harness, first) = Harness::new(vec![faulting("first"), faulting("second")]);
    assert_eq!(first.action, Action::Run { index: 0 });
    let second = harness.step(faulted("as expected"));
    assert_eq!(second.output, "[ok]\n");
    assert_eq!(second.action, Action::Exit { code: QemuExitCode::Success });
    assert_eq!(harness.step(faulted("late")).action, Action::Halt);
}

#[test]
fn after_the_exit_every_report_halts() {
    let (mut harness, _) = Harness::new(vec![passing("only")]);
    let exit = harness.step(Event::Returned);
    assert_eq!(exit.action, Action::Exit { code: QemuExitCode::Success });
    for _ in 0..3 {
        let step = harness.step(Event::Returned);
        assert_eq!(step.output, "");
        assert_eq!(step.action, Action::Halt);
        let step = harness.step(faulted("too late"));
        assert_eq!(step.output, "");
        assert_eq!(step.action, Action::Halt);
    }
}

#[test]
fn cases_of_both_kinds_can_follow_each_other() {
    let (mut harness, first) = Harness::new(vec![passing("fine"), faulting("breaks")]);
    assert_eq!(first.output, "fine...\t");
    let second = harness.step(Event::Returned);
    assert_eq!(second.output, "[ok]\nbreaks...\t");
    assert_eq!(second.action, Action::Run { index: 1 });
    let third = harness.step(Event::Returned);
    assert_eq!(third.output, "[test didn't panic]\n");
    assert_eq!(third.action, Action::Exit { code: QemuExitCode::Failed });
}
