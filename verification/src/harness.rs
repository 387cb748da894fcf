//! The in-kernel test harness: it decides what is printed, which test case
//! runs next and with which status the run ends. Running a case, printing
//! and leaving the virtual machine are done by the caller, which then tells
//! the harness what the case did.

use crate::qemu::QemuExitCode;
use vstd::prelude::*;

verus! {

/// What a test case has to do to pass.
#[derive(Debug, Clone, Copy, PartialEq, Eq, Structural)]
pub enum Expectation {
    /// The case must return normally.
    Completes,
    /// The case must fault.
    Faults,
}

/// A registered test case: its name and what is expected of it.
#[derive(Debug)]
pub struct TestCase {
    pub name: String,
    pub expected: Expectation,
}

/// What the case that was running did.
#[derive(Debug)]
pub enum Event {
    /// It returned normally.
    Returned,
    /// It faulted; `description` says how.
    Faulted { description: String },
}

/// What the caller has to do next, once it has printed the output.
#[derive(Debug, Clone, Copy, PartialEq, Eq, Structural)]
pub enum Action {
    /// Run the case with this index, then report what it did.
    Run { index: usize },
    /// Leave the virtual machine with this status.
    Exit { code: QemuExitCode },
    /// The run is over: halt the CPU.
    Halt,
}

/// One decision of the harness: what to print, then what to do.
#[derive(Debug)]
pub struct Step {
    pub output: String,
    pub action: Action,
}

/// Where a run stands.
pub enum Progress {
    /// The case with this index is running.
    Running(nat),
    /// The exit status has been decided.
    Exited,
}

/// A decision as a mathematical value, with the state that follows it.
pub struct Transition {
    pub progress: Progress,
    pub output: Seq<char>,
    pub action: Action,
}

/// What is printed just before a case runs: its name, three dots and a tab.
pub open spec fn announcement(name: Seq<char>) -> Seq<char> {
    name + "...\t"@
}

/// What is printed for a case that faulted though it had to complete.
pub open spec fn failure_report(description: Seq<char>) -> Seq<char> {
    "[failed]\n"@ + "Error: "@ + description + "\n"@
}

/// The case with index `index` is announced and run; if there is none, all
/// cases have passed and the run ends with success.
pub open spec fn launch(cases: Seq<TestCase>, index: nat) -> Transition {
    if index < cases.len() {
        Transition {
            progress: Progress::Running(index),
            output: announcement(cases[index as int].name@),
            action: Action::Run { index: index as usize },
        }
    } else {
        Transition {
            progress: Progress::Exited,
            output: Seq::empty(),
            action: Action::Exit { code: QemuExitCode::Success },
        }
    }
}

/// What the harness decides when `event` is reported.
///
/// A case that completes as expected is marked `[ok]` and the next case is
/// launched. A case that faults though it had to complete fails the run at
/// once, and the fault is described. A case that had to fault and did ends
/// the run with success at once: the fault is the end of the run, and the
/// cases behind it do not run. A case that had to fault and returned fails
/// the run at once. Once the status is decided, all that is left is to halt.
pub open spec fn transition(cases: Seq<TestCase>, progress: Progress, event: Event) -> Transition {
    match progress {
        Progress::Exited => Transition {
            progress: Progress::Exited,
            output: Seq::empty(),
            action: Action::Halt,
        },
        Progress::Running(index) => match (cases[index as int].expected, event) {
            (Expectation::Completes, Event::Returned) => {
                let next = launch(cases, index + 1);
                Transition {
                    progress: next.progress,
                    output: "[ok]\n"@ + next.output,
                    action: next.action,
                }
            },
            (Expectation::Completes, Event::Faulted { description }) => Transition {
                progress: Progress::Exited,
                output: failure_report(description@),
                action: Action::Exit { code: QemuExitCode::Failed },
            },
            (Expectation::Faults, Event::Returned) => Transition {
                progress: Progress::Exited,
                output: "[test didn't panic]\n"@,
                action: Action::Exit { code: QemuExitCode::Failed },
            },
            (Expectation::Faults, Event::Faulted { description }) => Transition {
                progress: Progress::Exited,
                output: "[ok]\n"@,
                action: Action::Exit { code: QemuExitCode::Success },
            },
        },
    }
}

/// A run of a sequence of test cases, in the order in which they were
/// registered.
pub struct Harness {
    cases: Vec<TestCase>,
    current: usize,
    exited: bool,
}

impl Harness {
    /// The registered cases.
    pub closed spec fn cases(&self) -> Seq<TestCase> {
        self.cases@
    }

    /// Where the run stands.
    pub closed spec fn progress(&self) -> Progress {
        if self.exited || self.current >= self.cases.len() {
            Progress::Exited
        } else {
            Progress::Running(self.current as nat)
        }
    }

    /// Starts a run of `cases`: the first case is launched.
    pub fn new(cases: Vec<TestCase>) -> (started: (Self, Step))
        ensures
            started.0.cases() == cases@,
            started.0.progress() == launch(cases@, 0).progress,
            started.1.output@ == launch(cases@, 0).output,
            started.1.action == launch(cases@, 0).action,
    {
        if cases.len() > 0 {
            let mut output = String::from_str(cases[0].name.as_str());
            output.append("...\t");
            (
                Harness { cases, current: 0, exited: false },
                Step { output, action: Action::Run { index: 0 } },
            )
        } else {
            (
                Harness { cases, current: 0, exited: true },
                Step { output: String::new(), action: Action::Exit { code: QemuExitCode::Success } },
            )
        }
    }

    /// Takes what the running case did, and decides what is printed and done
    /// next.
    pub fn step(&mut self, event: Event) -> (step: Step)
        ensures
            final(self).cases() == old(self).cases(),
            final(self).progress() == transition(
                old(self).cases(),
                old(self).progress(),
                event,
            ).progress,
            step.output@ == transition(old(self).cases(), old(self).progress(), event).output,
            step.action == transition(old(self).cases(), old(self).progress(), event).action,
    {
        if self.exited || self.current >= self.cases.len() {
            return Step { output: String::new(), action: Action::Halt };
        }
        let expected = self.cases[self.current].expected;
        match event {
            Event::Returned => match expected {
                Expectation::Completes => {
                    let next = self.current + 1;
                    self.current = next;
                    let mut output = String::from_str("[ok]\n");
                    if next < self.cases.len() {
                        output.append(self.cases[next].name.as_str());
                        output.append("...\t");
                        assert(output@ =~= "[ok]\n"@ + announcement(self.cases[next as int].name@));
                        Step { output, action: Action::Run { index: next } }
                    } else {
                        self.exited = true;
                        assert(output@ =~= "[ok]\n"@ + Seq::<char>::empty());
                        Step { output, action: Action::Exit { code: QemuExitCode::Success } }
                    }
                },
                Expectation::Faults => {
                    self.exited = true;
                    Step {
                        output: String::from_str("[test didn't panic]\n"),
                        action: Action::Exit { code: QemuExitCode::Failed },
                    }
                },
            },
            Event::Faulted { description } => match expected {
                Expectation::Completes => {
                    self.exited = true;
                    let mut output = String::from_str("[failed]\n");
                    output.append("Error: ");
                    output.append(description.as_str());
                    output.append("\n");
                    Step { output, action: Action::Exit { code: QemuExitCode::Failed } }
                },
                Expectation::Faults => {
                    self.exited = true;
                    Step {
                        output: String::from_str("[ok]\n"),
                        action: Action::Exit { code: QemuExitCode::Success },
                    }
                },
            },
        }
    }
}

} // verus!
