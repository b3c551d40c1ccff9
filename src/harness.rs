//! The check of a finished archive: unpack it, make sure it holds the two
//! expected entries, reload both, rebuild a prover setup from them alone, and
//! remove the unpacked copies. As with a run, the program performs each step
//! and the check decides what comes next.
use vstd::prelude::*;
use crate::pipeline::{archive_entry_names, is_expected_listing, Artifact};

verus! {

/// Why a check failed.
#[derive(PartialEq, Eq, Structural, Clone, Copy, Debug)]
pub enum CheckError {
    /// The archive could not be opened or unpacked.
    Unpack,
    /// The archive does not hold exactly the two expected entries.
    Listing,
    /// The unpacked parameters could not be loaded.
    LoadParameters,
    /// The unpacked setup handle could not be loaded.
    LoadHandle,
    /// No prover setup could be rebuilt from the two.
    Reconstruct,
    /// An unpacked copy could not be removed.
    Cleanup(Artifact),
}

/// Where a check stands.
#[derive(PartialEq, Eq, Structural, Clone, Copy, Debug)]
pub enum CheckStage {
    Unpacking,
    LoadingParameters,
    LoadingHandle,
    Reconstructing,
    RemovingParameters,
    RemovingHandle,
    Done,
    Failed(CheckError),
}

/// What the program is to do next.
#[derive(PartialEq, Eq, Structural, Clone, Copy, Debug)]
pub enum CheckStep {
    /// Unpack the archive into the working directory and list its entries.
    Unpack,
    /// Load the public parameters from their unpacked file.
    LoadParameters,
    /// Load the setup handle from its unpacked file.
    LoadHandle,
    /// Rebuild a prover setup from the two loaded values.
    Reconstruct,
    /// Remove the given unpacked file.
    Remove(Artifact),
    /// Nothing is left to do.
    Stop,
}

/// The step taken at each stage.
pub open spec fn check_step_of(stage: CheckStage) -> CheckStep {
    match stage {
        CheckStage::Unpacking => CheckStep::Unpack,
        CheckStage::LoadingParameters => CheckStep::LoadParameters,
        CheckStage::LoadingHandle => CheckStep::LoadHandle,
        CheckStage::Reconstructing => CheckStep::Reconstruct,
        CheckStage::RemovingParameters => CheckStep::Remove(Artifact::Parameters),
        CheckStage::RemovingHandle => CheckStep::Remove(Artifact::Handle),
        CheckStage::Done => CheckStep::Stop,
        CheckStage::Failed(_) => CheckStep::Stop,
    }
}

/// Whether `names` lists exactly the two expected entries, in either order.
pub open spec fn listing_ok(names: Seq<Seq<char>>) -> bool {
    names.len() == 2 && ((names[0] == archive_entry_names()[0] && names[1]
        == archive_entry_names()[1]) || (names[0] == archive_entry_names()[1] && names[1]
        == archive_entry_names()[0]))
}

/// The stage after the unpacking succeeded (`ok`) with the entries `names`, or
/// failed.
pub open spec fn stage_after_unpack(ok: bool, names: Seq<Seq<char>>) -> CheckStage {
    if !ok {
        CheckStage::Failed(CheckError::Unpack)
    } else if listing_ok(names) {
        CheckStage::LoadingParameters
    } else {
        CheckStage::Failed(CheckError::Listing)
    }
}

/// The stage after the step of any other stage succeeded (`ok`) or failed.
pub open spec fn check_stage_after(stage: CheckStage, ok: bool) -> CheckStage {
    match stage {
        CheckStage::Unpacking => if ok {
            CheckStage::LoadingParameters
        } else {
            CheckStage::Failed(CheckError::Unpack)
        },
        CheckStage::LoadingParameters => if ok {
            CheckStage::LoadingHandle
        } else {
            CheckStage::Failed(CheckError::LoadParameters)
        },
        CheckStage::LoadingHandle => if ok {
            CheckStage::Reconstructing
        } else {
            CheckStage::Failed(CheckError::LoadHandle)
        },
        CheckStage::Reconstructing => if ok {
            CheckStage::RemovingParameters
        } else {
            CheckStage::Failed(CheckError::Reconstruct)
        },
        CheckStage::RemovingParameters => if ok {
            CheckStage::RemovingHandle
        } else {
            CheckStage::Failed(CheckError::Cleanup(Artifact::Parameters))
        },
        CheckStage::RemovingHandle => if ok {
            CheckStage::Done
        } else {
            CheckStage::Failed(CheckError::Cleanup(Artifact::Handle))
        },
        CheckStage::Done => CheckStage::Done,
        CheckStage::Failed(e) => CheckStage::Failed(e),
    }
}

/// One check of an archive.
pub struct ArchiveCheck {
    pub stage: CheckStage,
    /// Unpacked copies that may still be in the working directory.
    pub copies: Ghost<Set<Artifact>>,
}

impl ArchiveCheck {
    /// What holds of the unpacked copies at each stage.
    pub open spec fn wf(&self) -> bool {
        let copies = self.copies@;
        &&& !copies.contains(Artifact::Archive)
        &&& match self.stage {
            CheckStage::Unpacking => copies.is_empty(),
            CheckStage::RemovingHandle => copies == set![Artifact::Handle],
            CheckStage::Done => copies.is_empty(),
            CheckStage::Failed(CheckError::Cleanup(Artifact::Handle)) => copies == set![
                Artifact::Handle,
            ],
            _ => copies == set![Artifact::Parameters, Artifact::Handle],
        }
    }

    /// A check that has done nothing yet.
    pub fn new() -> (r: ArchiveCheck)
        ensures
            r.wf(),
            r.stage == CheckStage::Unpacking,
            r.copies@.is_empty(),
    {
        ArchiveCheck { stage: CheckStage::Unpacking, copies: Ghost(Set::empty()) }
    }

    /// What the program is to do next.
    pub fn next_step(&self) -> (r: CheckStep)
        ensures
            r == check_step_of(self.stage),
    {
        match self.stage {
            CheckStage::Unpacking => CheckStep::Unpack,
            CheckStage::LoadingParameters => CheckStep::LoadParameters,
            CheckStage::LoadingHandle => CheckStep::LoadHandle,
            CheckStage::Reconstructing => CheckStep::Reconstruct,
            CheckStage::RemovingParameters => CheckStep::Remove(Artifact::Parameters),
            CheckStage::RemovingHandle => CheckStep::Remove(Artifact::Handle),
            CheckStage::Done => CheckStep::Stop,
            CheckStage::Failed(_) => CheckStep::Stop,
        }
    }

    /// Whether nothing is left to do.
    pub fn is_over(&self) -> (r: bool)
        ensures
            r == (check_step_of(self.stage) == CheckStep::Stop),
    {
        match self.stage {
            CheckStage::Done | CheckStage::Failed(_) => true,
            _ => false,
        }
    }

    /// Records the outcome of unpacking: whether it succeeded, and the names
    /// of the entries it found. An unpacking, even a failed one, may leave
    /// copies of both files behind.
    pub fn record_unpack(&mut self, ok: bool, names: &Vec<String>)
        requires
            old(self).wf(),
            old(self).stage == CheckStage::Unpacking,
        ensures
            final(self).wf(),
            final(self).stage == stage_after_unpack(ok, names@.map_values(|s: String| s@)),
            final(self).copies@ == set![Artifact::Parameters, Artifact::Handle],
    {
        let listed = is_expected_listing(names);
        proof {
            let v = names@.map_values(|s: String| s@);
            assert(names@.len() == 2 ==> v[0] == names@[0]@ && v[1] == names@[1]@);
        }
        let ghost both = set![Artifact::Parameters, Artifact::Handle];
        self.copies = Ghost(both);
        self.stage = if !ok {
            CheckStage::Failed(CheckError::Unpack)
        } else if listed {
            CheckStage::LoadingParameters
        } else {
            CheckStage::Failed(CheckError::Listing)
        };
    }

    /// Records whether the step of the current stage succeeded, and moves on.
    /// Unpacking is recorded with `record_unpack`.
    pub fn record(&mut self, ok: bool)
        requires
            old(self).wf(),
            old(self).stage != CheckStage::Unpacking,
        ensures
            final(self).wf(),
            final(self).stage == check_stage_after(old(self).stage, ok),
            final(self).copies@ == (match old(self).stage {
                CheckStage::RemovingParameters => if ok {
                    old(self).copies@.remove(Artifact::Parameters)
                } else {
                    old(self).copies@
                },
                CheckStage::RemovingHandle => if ok {
                    old(self).copies@.remove(Artifact::Handle)
                } else {
                    old(self).copies@
                },
                _ => old(self).copies@,
            }),
    {
        let ghost stage = self.stage;
        let ghost copies = if stage == CheckStage::RemovingParameters && ok {
            self.copies@.remove(Artifact::Parameters)
        } else if stage == CheckStage::RemovingHandle && ok {
            self.copies@.remove(Artifact::Handle)
        } else {
            self.copies@
        };
        self.copies = Ghost(copies);
        self.stage = match self.stage {
            CheckStage::Unpacking => if ok {
                CheckStage::LoadingParameters
            } else {
                CheckStage::Failed(CheckError::Unpack)
            },
            CheckStage::LoadingParameters => if ok {
                CheckStage::LoadingHandle
            } else {
                CheckStage::Failed(CheckError::LoadParameters)
            },
            CheckStage::LoadingHandle => if ok {
                CheckStage::Reconstructing
            } else {
                CheckStage::Failed(CheckError::LoadHandle)
            },
            CheckStage::Reconstructing => if ok {
                CheckStage::RemovingParameters
            } else {
                CheckStage::Failed(CheckError::Reconstruct)
            },
            CheckStage::RemovingParameters => if ok {
                CheckStage::RemovingHandle
            } else {
                CheckStage::Failed(CheckError::Cleanup(Artifact::Parameters))
            },
            CheckStage::RemovingHandle => if ok {
                CheckStage::Done
            } else {
                CheckStage::Failed(CheckError::Cleanup(Artifact::Handle))
            },
            CheckStage::Done => CheckStage::Done,
            CheckStage::Failed(e) => CheckStage::Failed(e),
        };
        proof {
            if stage == CheckStage::RemovingHandle && ok {
                assert(self.copies@ =~= Set::empty());
            }
            if stage == CheckStage::RemovingParameters && ok {
                assert(self.copies@ =~= set![Artifact::Handle]);
            }
        }
    }
}

/// A check that ended well has rebuilt the setup from the archive alone and
/// has left no unpacked copy behind.
pub proof fn lemma_check_done_leaves_no_copies(c: &ArchiveCheck)
    requires
        c.wf(),
        c.stage == CheckStage::Done,
    ensures
        c.copies@.is_empty(),
        check_step_of(c.stage) == CheckStep::Stop,
{
}

} // verus!
