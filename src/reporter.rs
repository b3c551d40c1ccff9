//! The status reporter that runs beside generation: on each wake it either
//! shows a fact or, once generation has finished, says so and stops.
use vstd::prelude::*;
use rand::Rng;

verus! {

/// Seconds between two wakes of the reporter.
pub const FACT_INTERVAL_SECS: u64 = 20;

/// Milliseconds between two frames of the spinner.
pub const SPINNER_TICK_MILLIS: u64 = 100;

/// The status shown before the first wake.
pub open spec fn initial_status_text() -> Seq<char> {
    "Generating parameters for the SxT network.\nThis may take a long time, please wait..."@
}

/// What the status reads while a given fact is shown.
pub open spec fn fact_status_text(fact: Seq<char>) -> Seq<char> {
    "Generating public parameters for the SxT network. This may take a long time, please wait...\n  Did you know? "@
        + fact
}

/// The last status, once generation has finished.
pub open spec fn finished_status_text() -> Seq<char> {
    "Prover setup complete."@
}

/// The status shown before the first wake.
pub fn initial_status() -> (r: String)
    ensures
        r@ == initial_status_text(),
{
    String::from_str("Generating parameters for the SxT network.\nThis may take a long time, please wait...")
}

/// The status that shows `fact`.
pub fn fact_status(fact: &String) -> (r: String)
    ensures
        r@ == fact_status_text(fact@),
{
    String::from_str(
        "Generating public parameters for the SxT network. This may take a long time, please wait...\n  Did you know? ",
    ).concat(fact.as_str())
}

/// The last status, once generation has finished.
pub fn finished_status() -> (r: String)
    ensures
        r@ == finished_status_text(),
{
    String::from_str("Prover setup complete.")
}

/// Whether the reporter still runs.
#[derive(PartialEq, Eq, Structural, Clone, Copy, Debug)]
pub enum ReporterState {
    Running,
    Finished,
}

/// What the reporter asks of its thread after a wake.
#[derive(Debug)]
pub enum ReporterAction {
    /// Show this status, then sleep for one interval.
    Show(String),
    /// Show this last status, then leave the loop.
    Finish(String),
    /// Leave the loop; nothing is left to show.
    Exit,
}

impl ReporterAction {
    /// This action shows `text` and keeps the loop going.
    pub open spec fn shows(self, text: Seq<char>) -> bool {
        match self {
            ReporterAction::Show(s) => s@ == text,
            _ => false,
        }
    }

    /// This action shows `text` last and ends the loop.
    pub open spec fn finishes_with(self, text: Seq<char>) -> bool {
        match self {
            ReporterAction::Finish(s) => s@ == text,
            _ => false,
        }
    }
}

/// The reporter: it owns its state and reads the completion signal only.
pub struct Reporter {
    pub state: ReporterState,
}

impl Reporter {
    /// A reporter that has not yet seen the end of generation.
    pub fn new() -> (r: Reporter)
        ensures
            r.state == ReporterState::Running,
    {
        Reporter { state: ReporterState::Running }
    }

    /// One wake, with the completion signal as read and the index of the fact
    /// chosen for this wake.
    pub fn wake_with(&mut self, finished: bool, pick: usize, facts: &Vec<String>) -> (r:
        ReporterAction)
        requires
            pick < facts.len(),
        ensures
            old(self).state == ReporterState::Finished ==> (final(self).state
                == ReporterState::Finished && r is Exit),
            old(self).state == ReporterState::Running && finished ==> (final(self).state
                == ReporterState::Finished && r.finishes_with(finished_status_text())),
            old(self).state == ReporterState::Running && !finished ==> (final(self).state
                == ReporterState::Running && r.shows(fact_status_text(facts@[pick as int]@))),
    {
        match self.state {
            ReporterState::Finished => ReporterAction::Exit,
            ReporterState::Running => {
                if finished {
                    self.state = ReporterState::Finished;
                    ReporterAction::Finish(finished_status())
                } else {
                    ReporterAction::Show(fact_status(&facts[pick]))
                }
            },
        }
    }

    /// One wake, with the completion signal as read; the fact is drawn at
    /// random, apart from the seed of the setup.
    pub fn wake(&mut self, finished: bool, facts: &Vec<String>) -> (r: ReporterAction)
        requires
            facts.len() > 0,
        ensures
            old(self).state == ReporterState::Finished ==> (final(self).state
                == ReporterState::Finished && r is Exit),
            old(self).state == ReporterState::Running && finished ==> (final(self).state
                == ReporterState::Finished && r.finishes_with(finished_status_text())),
            old(self).state == ReporterState::Running && !finished ==> (final(self).state
                == ReporterState::Running && exists|i: int|
                0 <= i < facts@.len() && r.shows(fact_status_text(#[trigger] facts@[i]@))),
    {
        let pick = random_index(facts.len());
        self.wake_with(finished, pick, facts)
    }
}

/// Relies on rand's `thread_rng().gen_range(0..n)`: an index below `n`, which
/// it panics without.
#[verifier::external_body]
fn random_index(n: usize) -> (r: usize)
    requires
        n > 0,
    ensures
        r < n,
{
    rand::thread_rng().gen_range(0..n)
}

} // verus!
