//! The decisions of a streaming run. The host launches the script, reads its
//! output line by line, forwards lines to a listener and waits for the exit;
//! after each of those it reports what happened here, and asks what to do
//! next.
use vstd::prelude::*;
use crate::outcome::RunError;
use crate::text::{is_blank, is_blank_spec};

verus! {

/// What the host observed while carrying out the last action.
#[derive(Clone, Debug, PartialEq, Eq)]
pub enum Event {
    /// The interpreter started, with standard output piped.
    Launched,
    /// The interpreter could not be started.
    LaunchFailed(String),
    /// One line of standard output, without its line ending.
    LineRead(String),
    /// Reading standard output failed.
    ReadFailed(String),
    /// Standard output reached its end.
    OutputEnded,
    /// The listener accepted the forwarded line.
    Delivered,
    /// The listener refused the forwarded line.
    DeliveryFailed(String),
    /// The script exited; holds whether the status was success.
    Exited(bool),
    /// Waiting for the exit status failed.
    WaitFailed(String),
    /// The script was waited for after an aborted run.
    Reaped,
}

/// What the host is to do next.
#[derive(Clone, Debug, PartialEq, Eq)]
pub enum Action {
    /// Start the interpreter with the script's arguments.
    Launch,
    /// Read the next line of standard output.
    ReadLine,
    /// Forward this line to the listener.
    Deliver(String),
    /// Wait for the script to exit.
    WaitForExit,
    /// Stop reading and wait for the script, so that no process is left behind.
    Reap,
    /// The run is over; its outcome is ready.
    Finish,
}

/// Where a streaming run stands.
#[derive(Debug, PartialEq, Eq)]
pub enum Phase {
    /// Nothing has been started yet.
    Launching,
    /// The next line of standard output is awaited.
    Reading,
    /// This line is being forwarded to the listener.
    Delivering(String),
    /// Standard output has ended; the exit status is awaited.
    AwaitingExit,
    /// The run failed with this error; the script is being waited for.
    Reaping(RunError),
    /// The run is over, with this outcome.
    Finished(Result<(), RunError>),
}

/// How an event moves a run from one phase to the next. An event that does
/// not belong to the phase leaves it as it is.
pub open spec fn next_phase(p: Phase, e: Event) -> Phase {
    match p {
        Phase::Launching => match e {
            Event::Launched => Phase::Reading,
            Event::LaunchFailed(d) => Phase::Finished(Err(RunError::LaunchFailure(d))),
            _ => p,
        },
        Phase::Reading => match e {
            Event::LineRead(l) => if is_blank_spec(l@) {
                Phase::Reading
            } else {
                Phase::Delivering(l)
            },
            Event::ReadFailed(d) => Phase::Reaping(RunError::StreamReadFailure(d)),
            Event::OutputEnded => Phase::AwaitingExit,
            _ => p,
        },
        Phase::Delivering(_) => match e {
            Event::Delivered => Phase::Reading,
            Event::DeliveryFailed(d) => Phase::Reaping(RunError::DeliveryFailure(d)),
            _ => p,
        },
        Phase::AwaitingExit => match e {
            Event::Exited(ok) => if ok {
                Phase::Finished(Ok(()))
            } else {
                Phase::Finished(Err(RunError::ScriptFailure(None)))
            },
            Event::WaitFailed(d) => Phase::Finished(Err(RunError::StreamReadFailure(d))),
            _ => p,
        },
        Phase::Reaping(err) => match e {
            Event::Reaped => Phase::Finished(Err(err)),
            _ => p,
        },
        Phase::Finished(_) => p,
    }
}

/// The action that each phase asks of the host.
pub open spec fn action_spec(p: Phase) -> Action {
    match p {
        Phase::Launching => Action::Launch,
        Phase::Reading => Action::ReadLine,
        Phase::Delivering(l) => Action::Deliver(l),
        Phase::AwaitingExit => Action::WaitForExit,
        Phase::Reaping(_) => Action::Reap,
        Phase::Finished(_) => Action::Finish,
    }
}

/// The lines that are forwarded out of those read: the ones that are not
/// blank, in the order they were read.
pub open spec fn forwarded(lines: Seq<Seq<char>>) -> Seq<Seq<char>> {
    lines.filter(|l: Seq<char>| !is_blank_spec(l))
}

/// Whether the last line read has not been sent: it is waiting for delivery,
/// or the listener refused it.
pub open spec fn holds_unsent_line(p: Phase) -> bool {
    match p {
        Phase::Delivering(_) => true,
        Phase::Reaping(RunError::DeliveryFailure(_)) => true,
        Phase::Finished(Err(RunError::DeliveryFailure(_))) => true,
        _ => false,
    }
}

/// One streaming run of the report script.
pub struct StreamRun {
    phase: Phase,
    read: Ghost<Seq<Seq<char>>>,
    sent: Ghost<Seq<Seq<char>>>,
}

impl StreamRun {
    pub closed spec fn phase_spec(&self) -> Phase {
        self.phase
    }

    /// Every line read from standard output so far, blank ones included.
    pub closed spec fn lines_read(&self) -> Seq<Seq<char>> {
        self.read@
    }

    /// Every line the listener has accepted so far.
    pub closed spec fn lines_sent(&self) -> Seq<Seq<char>> {
        self.sent@
    }

    /// The lines sent are the non-blank lines read, in order. The one
    /// exception is the last line read while it waits for delivery, or after
    /// the listener refused it: it is not blank and has not been sent.
    pub open spec fn wf(&self) -> bool {
        &&& self.phase_spec() is Launching ==> self.lines_read().len() == 0
            && self.lines_sent().len() == 0
        &&& if holds_unsent_line(self.phase_spec()) {
            &&& self.lines_read().len() > 0
            &&& !is_blank_spec(self.lines_read().last())
            &&& self.lines_sent() == forwarded(self.lines_read().drop_last())
        } else {
            self.lines_sent() == forwarded(self.lines_read())
        }
        &&& self.phase_spec() is Delivering ==> self.lines_read().last()
            == self.phase_spec()->Delivering_0@
    }

    #[verifier::type_invariant]
    spec fn well_formed(&self) -> bool {
        self.wf()
    }

    /// A run that has not launched anything yet.
    pub fn new() -> (r: StreamRun)
        ensures
            r.wf(),
            r.phase_spec() == Phase::Launching,
            r.lines_read().len() == 0,
            r.lines_sent().len() == 0,
    {
        proof {
            reveal(Seq::filter);
            assert(forwarded(Seq::empty()) =~= Seq::empty());
        }
        StreamRun { phase: Phase::Launching, read: Ghost(Seq::empty()), sent: Ghost(Seq::empty()) }
    }

    /// Where the run stands.
    pub fn phase(&self) -> (r: &Phase)
        ensures
            *r == self.phase_spec(),
    {
        &self.phase
    }

    /// What the host is to do next.
    pub fn action(&self) -> (r: Action)
        ensures
            r == action_spec(self.phase_spec()),
    {
        match &self.phase {
            Phase::Launching => Action::Launch,
            Phase::Reading => Action::ReadLine,
            Phase::Delivering(l) => Action::Deliver(l.clone()),
            Phase::AwaitingExit => Action::WaitForExit,
            Phase::Reaping(_) => Action::Reap,
            Phase::Finished(_) => Action::Finish,
        }
    }

    /// The outcome of the run, once it has finished.
    pub fn outcome(self) -> (r: Option<Result<(), RunError>>)
        ensures
            match self.phase_spec() {
                Phase::Finished(o) => r == Some(o),
                _ => r is None,
            },
    {
        match self.phase {
            Phase::Finished(o) => Some(o),
            _ => None,
        }
    }

    /// Takes in what the host observed and moves the run on.
    pub fn step(self, event: Event) -> (r: StreamRun)
        ensures
            r.wf(),
            r.phase_spec() == next_phase(self.phase_spec(), event),
            r.lines_read() == (match (self.phase_spec(), event) {
                (Phase::Reading, Event::LineRead(l)) => self.lines_read().push(l@),
                _ => self.lines_read(),
            }),
            r.lines_sent() == (match (self.phase_spec(), event) {
                (Phase::Delivering(l), Event::Delivered) => self.lines_sent().push(l@),
                _ => self.lines_sent(),
            }),
    {
        proof {
            use_type_invariant(&self);
        }
        let StreamRun { phase, read, sent } = self;
        match phase {
            Phase::Launching => {
                let next = match event {
                    Event::Launched => Phase::Reading,
                    Event::LaunchFailed(d) => Phase::Finished(Err(RunError::LaunchFailure(d))),
                    _ => Phase::Launching,
                };
                proof {
                    reveal(Seq::filter);
                    assert(sent@ =~= forwarded(read@));
                }
                StreamRun { phase: next, read, sent }
            },
            Phase::Reading => match event {
                Event::LineRead(l) => {
                    let ghost new_read = read@.push(l@);
                    proof {
                        reveal(Seq::filter);
                        assert(new_read.drop_last() =~= read@);
                    }
                    if is_blank(l.as_str()) {
                        StreamRun { phase: Phase::Reading, read: Ghost(new_read), sent }
                    } else {
                        StreamRun { phase: Phase::Delivering(l), read: Ghost(new_read), sent }
                    }
                },
                Event::ReadFailed(d) => StreamRun {
                    phase: Phase::Reaping(RunError::StreamReadFailure(d)),
                    read,
                    sent,
                },
                Event::OutputEnded => StreamRun { phase: Phase::AwaitingExit, read, sent },
                _ => StreamRun { phase: Phase::Reading, read, sent },
            },
            Phase::Delivering(l) => match event {
                Event::Delivered => {
                    let ghost new_sent = sent@.push(l@);
                    proof {
                        reveal(Seq::filter);
                        assert(read@ =~= read@.drop_last().push(l@));
                    }
                    StreamRun { phase: Phase::Reading, read, sent: Ghost(new_sent) }
                },
                Event::DeliveryFailed(d) => {
                    StreamRun { phase: Phase::Reaping(RunError::DeliveryFailure(d)), read, sent }
                },
                _ => StreamRun { phase: Phase::Delivering(l), read, sent },
            },
            Phase::AwaitingExit => {
                let next = match event {
                    Event::Exited(ok) => {
                        if ok {
                            Phase::Finished(Ok(()))
                        } else {
                            Phase::Finished(Err(RunError::ScriptFailure(None)))
                        }
                    },
                    Event::WaitFailed(d) => Phase::Finished(Err(RunError::StreamReadFailure(d))),
                    _ => Phase::AwaitingExit,
                };
                StreamRun { phase: next, read, sent }
            },
            Phase::Reaping(err) => match event {
                Event::Reaped => StreamRun { phase: Phase::Finished(Err(err)), read, sent },
                _ => StreamRun { phase: Phase::Reaping(err), read, sent },
            },
            Phase::Finished(o) => StreamRun { phase: Phase::Finished(o), read, sent },
        }
    }
}

} // verus!
