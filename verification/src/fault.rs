//! The fault reporter: the single terminal path for unrecoverable faults.
//!
//! A fault is described by a [`FaultRecord`]. The reporter picks one of three
//! fixed diagnostic lines for it, hands the line out for printing, and moves
//! the core from [`CoreState::Running`] to [`CoreState::Halted`], where it
//! stays. Printing the line and stopping the processor are the caller's to
//! carry out; what is printed and when is decided here.

use vstd::prelude::*;
use vstd::string::*;
use crate::decimal::{append_decimal, decimal};

verus! {

/// The place in the source where a fault was raised.
#[derive(Debug, PartialEq, Eq)]
pub struct SourceLocation {
    pub file: String,
    pub line: u32,
}

impl Clone for SourceLocation {
    fn clone(&self) -> (copy: Self)
        ensures
            copy == *self,
    {
        SourceLocation { file: self.file.clone(), line: self.line }
    }
}

/// What is known of a fault at the moment it is raised. It is made at the
/// fault site, handed to the reporter, and gone when the core halts.
#[derive(Debug, PartialEq, Eq)]
pub struct FaultRecord {
    /// File and line of the fault site, when known.
    pub location: Option<SourceLocation>,
    /// What went wrong, when the fault site said so.
    pub message: Option<String>,
}

impl Clone for FaultRecord {
    fn clone(&self) -> (copy: Self)
        ensures
            copy == *self,
    {
        FaultRecord {
            location: match &self.location {
                Some(location) => Some(location.clone()),
                None => None,
            },
            message: match &self.message {
                Some(message) => Some(message.clone()),
                None => None,
            },
        }
    }
}

/// The three fixed diagnostic lines, in the order in which they are tried.
#[derive(Clone, Copy, Debug, PartialEq, Eq, Structural)]
pub enum DiagnosticTemplate {
    /// `Panic! <file>:<line> - <message>`
    Complete,
    /// `Panic! <file>:<line> - no message`
    Incomplete,
    /// `Panic! No known location`
    Empty,
}

/// An unrecoverable condition that this layer detects itself.
#[derive(Clone, Copy, Debug, PartialEq, Eq, Structural)]
pub enum Fault {
    /// The firmware handed over a null address for the root pointer record.
    RsdpPointerNull,
}

impl Fault {
    /// The message that the fault is reported with.
    pub open spec fn spec_message(self) -> Seq<char> {
        match self {
            Fault::RsdpPointerNull => "rsdp ptr null"@,
        }
    }

    /// The message that the fault is reported with.
    pub fn message(&self) -> (text: &'static str)
        ensures
            text@ == self.spec_message(),
    {
        match self {
            Fault::RsdpPointerNull => "rsdp ptr null",
        }
    }

    /// The record of this fault as raised at `location`.
    pub fn record(&self, location: Option<SourceLocation>) -> (record: FaultRecord)
        ensures
            record.location == location,
            record.message matches Some(m) && m@ == self.spec_message(),
    {
        FaultRecord { location, message: Some(String::from_str(self.message())) }
    }
}

impl FaultRecord {
    /// Whether the record carries a message that has any text in it.
    pub open spec fn has_message(&self) -> bool {
        self.message matches Some(m) && m@.len() > 0
    }

    /// The text of the message; empty where there is none.
    pub open spec fn message_text(&self) -> Seq<char> {
        match self.message {
            Some(m) => m@,
            None => Seq::empty(),
        }
    }

    /// The template that fits the record: the complete one where location and
    /// message are both there, the incomplete one where only the location is,
    /// the empty one where the location is missing, whatever the message.
    pub open spec fn spec_template(&self) -> DiagnosticTemplate {
        match self.location {
            Some(_) => if self.has_message() {
                DiagnosticTemplate::Complete
            } else {
                DiagnosticTemplate::Incomplete
            },
            None => DiagnosticTemplate::Empty,
        }
    }

    /// The start of the two lines that name the fault site:
    /// `Panic! <file>:<line> - `, the line number in decimal.
    pub open spec fn site(&self) -> Seq<char>
        recommends
            self.location is Some,
    {
        let location = self.location->0;
        "Panic! "@ + location.file@ + ":"@ + decimal(location.line as nat) + " - "@
    }

    /// The diagnostic line of the record, without a line terminator: the
    /// text of its template, filled in.
    pub open spec fn diagnostic(&self) -> Seq<char> {
        match self.template() {
            DiagnosticTemplate::Complete => self.site() + self.message_text(),
            DiagnosticTemplate::Incomplete => self.site() + "no message"@,
            DiagnosticTemplate::Empty => "Panic! No known location"@,
        }
    }

    /// Picks the template for this record.
    #[verifier::when_used_as_spec(spec_template)]
    pub fn template(&self) -> (template: DiagnosticTemplate)
        ensures
            template == self.spec_template(),
    {
        match &self.location {
            Some(_) => {
                match &self.message {
                    Some(m) => {
                        if m.as_str().is_empty() {
                            DiagnosticTemplate::Incomplete
                        } else {
                            DiagnosticTemplate::Complete
                        }
                    },
                    None => DiagnosticTemplate::Incomplete,
                }
            },
            None => DiagnosticTemplate::Empty,
        }
    }

    /// Writes out the diagnostic line of this record.
    pub fn render(&self) -> (text: String)
        ensures
            text@ == self.diagnostic(),
    {
        let mut text = String::new();
        match &self.location {
            Some(location) => {
                text.append("Panic! ");
                text.append(location.file.as_str());
                text.append(":");
                append_decimal(&mut text, location.line);
                text.append(" - ");
                match self.template() {
                    DiagnosticTemplate::Complete => {
                        match &self.message {
                            Some(m) => text.append(m.as_str()),
                            None => {},
                        }
                    },
                    _ => text.append("no message"),
                }
            },
            None => {
                text.append("Panic! No known location");
            },
        }
        assert(text@ =~= self.diagnostic());
        text
    }
}

/// Where a processor core stands with respect to the fault path.
#[derive(Clone, Copy, Debug, PartialEq, Eq, Structural)]
pub enum CoreState {
    /// No fault has been reported; kernel code runs.
    Running,
    /// A fault was reported; nothing runs on the core any more.
    Halted,
}

/// The state that a fault signalled in `state` leaves the core in. The one
/// transition leads from running to halted; nothing leads out of halted.
pub open spec fn next_state(state: CoreState) -> CoreState {
    match state {
        CoreState::Running => CoreState::Halted,
        CoreState::Halted => CoreState::Halted,
    }
}

/// What a fault signalled in `state` prints: its diagnostic line where the
/// core was running, nothing where it had halted already.
pub open spec fn emission(state: CoreState, record: FaultRecord) -> Option<Seq<char>> {
    match state {
        CoreState::Running => Some(record.diagnostic()),
        CoreState::Halted => None,
    }
}

/// The state of a core that started in `state` after the faults of `faults`
/// were signalled on it one after the other.
pub open spec fn state_after(state: CoreState, faults: Seq<FaultRecord>) -> CoreState
    decreases faults.len(),
{
    if faults.len() == 0 {
        state
    } else {
        next_state(state_after(state, faults.drop_last()))
    }
}

/// The lines printed while the faults of `faults` were signalled one after
/// the other on a core that started in `state`.
pub open spec fn lines_printed(state: CoreState, faults: Seq<FaultRecord>) -> Seq<Seq<char>>
    decreases faults.len(),
{
    if faults.len() == 0 {
        Seq::empty()
    } else {
        let earlier = lines_printed(state, faults.drop_last());
        match emission(state_after(state, faults.drop_last()), faults.last()) {
            Some(line) => earlier.push(line),
            None => earlier,
        }
    }
}

/// Halting is terminal. Whatever is signalled on a halted core, it stays
/// halted and prints nothing. A running core halts at its first fault, so
/// of any run of faults only the first is ever printed.
pub proof fn lemma_halting_is_terminal(faults: Seq<FaultRecord>)
    ensures
        state_after(CoreState::Halted, faults) == CoreState::Halted,
        lines_printed(CoreState::Halted, faults) == Seq::<Seq<char>>::empty(),
        faults.len() > 0 ==> state_after(CoreState::Running, faults) == CoreState::Halted,
        faults.len() > 0 ==> lines_printed(CoreState::Running, faults) == seq![
            faults[0].diagnostic(),
        ],
    decreases faults.len(),
{
    if faults.len() > 0 {
        let earlier = faults.drop_last();
        lemma_halting_is_terminal(earlier);
        if earlier.len() > 0 {
            assert(earlier[0] == faults[0]);
        } else {
            assert(faults.last() == faults[0]);
            assert(state_after(CoreState::Running, earlier) == CoreState::Running);
            assert(lines_printed(CoreState::Running, earlier) =~= Seq::<Seq<char>>::empty());
            assert(lines_printed(CoreState::Running, faults) =~= seq![faults[0].diagnostic()]);
        }
    }
}

/// The reporter of one processor core.
#[derive(Debug)]
pub struct PanicReporter {
    state: CoreState,
}

impl PanicReporter {
    /// The state of the core.
    pub closed spec fn spec_state(&self) -> CoreState {
        self.state
    }

    /// The reporter of a core on which nothing has gone wrong yet.
    pub fn new() -> (reporter: Self)
        ensures
            reporter.state() == CoreState::Running,
    {
        PanicReporter { state: CoreState::Running }
    }

    /// The state of the core.
    #[verifier::when_used_as_spec(spec_state)]
    pub fn state(&self) -> (state: CoreState)
        ensures
            state == self.spec_state(),
    {
        self.state
    }

    /// Takes an unrecoverable fault. On a running core this yields the
    /// diagnostic line to print and halts the core: the caller prints the
    /// line and then stops the processor for good. On a halted core nothing
    /// is printed any more.
    pub fn report(&mut self, record: &FaultRecord) -> (line: Option<String>)
        ensures
            final(self).state() == next_state(old(self).state()),
            final(self).state() == CoreState::Halted,
            match emission(old(self).state(), *record) {
                Some(text) => line matches Some(l) && l@ == text,
                None => line is None,
            },
    {
        match self.state {
            CoreState::Running => {
                self.state = CoreState::Halted;
                Some(record.render())
            },
            CoreState::Halted => None,
        }
    }
}

} // verus!
