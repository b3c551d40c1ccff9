//! The stages of one run, from generation to the removal of the transient
//! files, and what each outcome leads to. The program performs each step and
//! reports whether it succeeded; the run decides what comes next.
//!
//! Beside the stage, a run keeps a model of the three files it deals with:
//! which are surely in the working directory, which may be there, and which
//! this run may have written.
use vstd::prelude::*;

verus! {

/// A file that a run writes.
#[derive(PartialEq, Eq, Structural, Clone, Copy, Debug)]
pub enum Artifact {
    /// The serialized public parameters; transient.
    Parameters,
    /// The serialized prover-setup handle; transient.
    Handle,
    /// The compressed archive of the two; the one lasting output.
    Archive,
}

/// Why a run stopped.
#[derive(PartialEq, Eq, Structural, Clone, Copy, Debug)]
pub enum RunError {
    /// The parameters or the setup handle could not be generated.
    Generation,
    /// The given transient file could not be written.
    Persist(Artifact),
    /// The archive could not be written and finalized; the transient files
    /// are kept for another try.
    Archive,
    /// A transient file could not be removed after the archive was written.
    Cleanup(Artifact),
}

/// Where a run stands.
#[derive(PartialEq, Eq, Structural, Clone, Copy, Debug)]
pub enum Stage {
    Generating,
    SavingParameters,
    WritingHandle,
    Archiving,
    RemovingParameters,
    RemovingHandle,
    Done,
    Failed(RunError),
}

/// What the program is to do next.
#[derive(PartialEq, Eq, Structural, Clone, Copy, Debug)]
pub enum Step {
    /// Generate the public parameters and the prover setup.
    Generate,
    /// Save the public parameters to their file.
    SaveParameters,
    /// Write the setup handle to its file.
    WriteHandle,
    /// Write the archive of the two transient files, and finalize it.
    BuildArchive,
    /// Remove the given file.
    Remove(Artifact),
    /// Nothing is left to do.
    Stop,
}

/// The step taken at each stage.
pub open spec fn step_of(stage: Stage) -> Step {
    match stage {
        Stage::Generating => Step::Generate,
        Stage::SavingParameters => Step::SaveParameters,
        Stage::WritingHandle => Step::WriteHandle,
        Stage::Archiving => Step::BuildArchive,
        Stage::RemovingParameters => Step::Remove(Artifact::Parameters),
        Stage::RemovingHandle => Step::Remove(Artifact::Handle),
        Stage::Done => Step::Stop,
        Stage::Failed(_) => Step::Stop,
    }
}

/// The stage after the step of `stage` succeeded (`ok`) or failed.
pub open spec fn stage_after(stage: Stage, ok: bool) -> Stage {
    match stage {
        Stage::Generating => if ok {
            Stage::SavingParameters
        } else {
            Stage::Failed(RunError::Generation)
        },
        Stage::SavingParameters => if ok {
            Stage::WritingHandle
        } else {
            Stage::Failed(RunError::Persist(Artifact::Parameters))
        },
        Stage::WritingHandle => if ok {
            Stage::Archiving
        } else {
            Stage::Failed(RunError::Persist(Artifact::Handle))
        },
        Stage::Archiving => if ok {
            Stage::RemovingParameters
        } else {
            Stage::Failed(RunError::Archive)
        },
        Stage::RemovingParameters => if ok {
            Stage::RemovingHandle
        } else {
            Stage::Failed(RunError::Cleanup(Artifact::Parameters))
        },
        Stage::RemovingHandle => if ok {
            Stage::Done
        } else {
            Stage::Failed(RunError::Cleanup(Artifact::Handle))
        },
        Stage::Done => Stage::Done,
        Stage::Failed(e) => Stage::Failed(e),
    }
}

/// The file that the step of `stage` writes, if any.
pub open spec fn written_by(stage: Stage) -> Option<Artifact> {
    match stage {
        Stage::SavingParameters => Some(Artifact::Parameters),
        Stage::WritingHandle => Some(Artifact::Handle),
        Stage::Archiving => Some(Artifact::Archive),
        _ => None,
    }
}

/// The file that the step of `stage` removes, if any.
pub open spec fn removed_by(stage: Stage) -> Option<Artifact> {
    match stage {
        Stage::RemovingParameters => Some(Artifact::Parameters),
        Stage::RemovingHandle => Some(Artifact::Handle),
        _ => None,
    }
}

/// Files surely present after the step of `stage`: a write that succeeded adds
/// its file, one that failed may have left a broken one, and a removal that
/// succeeded takes its file away.
pub open spec fn present_after(stage: Stage, ok: bool, present: Set<Artifact>) -> Set<Artifact> {
    match written_by(stage) {
        Some(a) => if ok {
            present.insert(a)
        } else {
            present.remove(a)
        },
        None => match removed_by(stage) {
            Some(a) => if ok {
                present.remove(a)
            } else {
                present
            },
            None => present,
        },
    }
}

/// Files that may be present after the step of `stage`.
pub open spec fn possible_after(stage: Stage, ok: bool, possible: Set<Artifact>) -> Set<Artifact> {
    match written_by(stage) {
        Some(a) => possible.insert(a),
        None => match removed_by(stage) {
            Some(a) => if ok {
                possible.remove(a)
            } else {
                possible
            },
            None => possible,
        },
    }
}

/// Files that this run may have written, after the step of `stage`.
pub open spec fn touched_after(stage: Stage, touched: Set<Artifact>) -> Set<Artifact> {
    match written_by(stage) {
        Some(a) => touched.insert(a),
        None => touched,
    }
}

/// Every file a run deals with.
pub open spec fn all_artifacts() -> Set<Artifact> {
    set![Artifact::Parameters, Artifact::Handle, Artifact::Archive]
}

/// One run of the generator.
pub struct Run {
    pub stage: Stage,
    /// Files surely in the working directory.
    pub present: Ghost<Set<Artifact>>,
    /// Files that may be in the working directory.
    pub possible: Ghost<Set<Artifact>>,
    /// Files that this run may have written.
    pub touched: Ghost<Set<Artifact>>,
}

impl Run {
    /// What holds of the files at each stage.
    pub open spec fn wf(&self) -> bool {
        let present = self.present@;
        let possible = self.possible@;
        let touched = self.touched@;
        &&& present.subset_of(possible)
        &&& possible.subset_of(all_artifacts())
        &&& touched.subset_of(all_artifacts())
        &&& match self.stage {
            Stage::Generating => touched.is_empty(),
            Stage::SavingParameters => touched.is_empty(),
            Stage::WritingHandle => touched == set![Artifact::Parameters] && present.contains(
                Artifact::Parameters,
            ),
            Stage::Archiving => touched == set![Artifact::Parameters, Artifact::Handle]
                && present.contains(Artifact::Parameters) && present.contains(Artifact::Handle),
            Stage::RemovingParameters => touched == all_artifacts() && present == all_artifacts(),
            Stage::RemovingHandle => touched == all_artifacts() && present == set![
                Artifact::Handle,
                Artifact::Archive,
            ] && possible == present,
            Stage::Done => touched == all_artifacts() && present == set![Artifact::Archive]
                && possible == present,
            Stage::Failed(RunError::Generation) => touched.is_empty(),
            Stage::Failed(RunError::Persist(Artifact::Parameters)) => touched == set![
                Artifact::Parameters,
            ],
            Stage::Failed(RunError::Persist(Artifact::Handle)) => touched == set![
                Artifact::Parameters,
                Artifact::Handle,
            ] && present.contains(Artifact::Parameters),
            Stage::Failed(RunError::Persist(Artifact::Archive)) => false,
            Stage::Failed(RunError::Archive) => touched == all_artifacts() && present.contains(
                Artifact::Parameters,
            ) && present.contains(Artifact::Handle),
            Stage::Failed(RunError::Cleanup(_)) => touched == all_artifacts() && present.contains(
                Artifact::Archive,
            ),
        }
    }

    /// A run that has done nothing yet; any of the files may be left from
    /// an earlier run.
    pub fn new() -> (r: Run)
        ensures
            r.wf(),
            r.stage == Stage::Generating,
            r.present@.is_empty(),
            r.possible@ == all_artifacts(),
            r.touched@.is_empty(),
    {
        Run {
            stage: Stage::Generating,
            present: Ghost(Set::empty()),
            possible: Ghost(all_artifacts()),
            touched: Ghost(Set::empty()),
        }
    }

    /// What the program is to do next.
    pub fn next_step(&self) -> (r: Step)
        ensures
            r == step_of(self.stage),
    {
        match self.stage {
            Stage::Generating => Step::Generate,
            Stage::SavingParameters => Step::SaveParameters,
            Stage::WritingHandle => Step::WriteHandle,
            Stage::Archiving => Step::BuildArchive,
            Stage::RemovingParameters => Step::Remove(Artifact::Parameters),
            Stage::RemovingHandle => Step::Remove(Artifact::Handle),
            Stage::Done => Step::Stop,
            Stage::Failed(_) => Step::Stop,
        }
    }

    /// Records whether the step of the current stage succeeded, and moves on.
    pub fn record(&mut self, ok: bool)
        requires
            old(self).wf(),
        ensures
            final(self).wf(),
            final(self).stage == stage_after(old(self).stage, ok),
            final(self).present@ == present_after(old(self).stage, ok, old(self).present@),
            final(self).possible@ == possible_after(old(self).stage, ok, old(self).possible@),
            final(self).touched@ == touched_after(old(self).stage, old(self).touched@),
    {
        let ghost stage = self.stage;
        self.present = Ghost(present_after(stage, ok, self.present@));
        self.possible = Ghost(possible_after(stage, ok, self.possible@));
        self.touched = Ghost(touched_after(stage, self.touched@));
        self.stage = match self.stage {
            Stage::Generating => if ok {
                Stage::SavingParameters
            } else {
                Stage::Failed(RunError::Generation)
            },
            Stage::SavingParameters => if ok {
                Stage::WritingHandle
            } else {
                Stage::Failed(RunError::Persist(Artifact::Parameters))
            },
            Stage::WritingHandle => if ok {
                Stage::Archiving
            } else {
                Stage::Failed(RunError::Persist(Artifact::Handle))
            },
            Stage::Archiving => if ok {
                Stage::RemovingParameters
            } else {
                Stage::Failed(RunError::Archive)
            },
            Stage::RemovingParameters => if ok {
                Stage::RemovingHandle
            } else {
                Stage::Failed(RunError::Cleanup(Artifact::Parameters))
            },
            Stage::RemovingHandle => if ok {
                Stage::Done
            } else {
                Stage::Failed(RunError::Cleanup(Artifact::Handle))
            },
            Stage::Done => Stage::Done,
            Stage::Failed(e) => Stage::Failed(e),
        };
        proof {
            assert(self.present@ =~= present_after(stage, ok, old(self).present@));
            assert(all_artifacts() =~= set![Artifact::Parameters, Artifact::Handle, Artifact::Archive]);
            assert(self.touched@ =~= touched_after(stage, old(self).touched@));
            match stage {
                Stage::Archiving => {
                    if ok {
                        assert(self.present@ =~= all_artifacts());
                        assert(self.touched@ =~= all_artifacts());
                    }
                },
                Stage::WritingHandle => {
                    assert(self.touched@ =~= set![Artifact::Parameters, Artifact::Handle]);
                },
                Stage::SavingParameters => {
                    assert(self.touched@ =~= set![Artifact::Parameters]);
                },
                Stage::RemovingParameters => {
                    if ok {
                        assert(self.present@ =~= set![Artifact::Handle, Artifact::Archive]);
                        assert(self.possible@ =~= self.present@);
                    }
                },
                Stage::RemovingHandle => {
                    if ok {
                        assert(self.present@ =~= set![Artifact::Archive]);
                        assert(self.possible@ =~= self.present@);
                    }
                },
                _ => {},
            }
        }
    }
}

/// A run that ended well leaves the archive in the working directory and
/// neither transient file.
pub proof fn lemma_success_leaves_only_archive(run: &Run)
    requires
        run.wf(),
        run.stage == Stage::Done,
    ensures
        run.present@ == set![Artifact::Archive],
        run.possible@ == set![Artifact::Archive],
        !run.possible@.contains(Artifact::Parameters),
        !run.possible@.contains(Artifact::Handle),
{
}

/// A run whose parameters could not be saved has written neither the handle
/// nor the archive, and does nothing more.
pub proof fn lemma_failed_save_writes_nothing_more(run: &Run)
    requires
        run.wf(),
        run.stage == Stage::Failed(RunError::Persist(Artifact::Parameters)),
    ensures
        !run.touched@.contains(Artifact::Handle),
        !run.touched@.contains(Artifact::Archive),
        step_of(run.stage) == Step::Stop,
        forall|ok: bool| #[trigger] stage_after(run.stage, ok) == run.stage,
{
}

/// A run whose archive could not be written keeps both transient files, so
/// that archiving can be tried again without generating anew.
pub proof fn lemma_failed_archive_keeps_inputs(run: &Run)
    requires
        run.wf(),
        run.stage == Stage::Failed(RunError::Archive),
    ensures
        run.present@.contains(Artifact::Parameters),
        run.present@.contains(Artifact::Handle),
        step_of(run.stage) == Step::Stop,
{
}

/// The name of each file in the working directory and in the archive.
pub open spec fn file_name(a: Artifact) -> Seq<char> {
    match a {
        Artifact::Parameters => "public_parameters.bin"@,
        Artifact::Handle => "blitzar_handle.bin"@,
        Artifact::Archive => "dory-params.tar.gz"@,
    }
}

/// The name of the file `a`.
pub fn artifact_file_name(a: Artifact) -> (r: String)
    ensures
        r@ == file_name(a),
{
    match a {
        Artifact::Parameters => String::from_str("public_parameters.bin"),
        Artifact::Handle => String::from_str("blitzar_handle.bin"),
        Artifact::Archive => String::from_str("dory-params.tar.gz"),
    }
}

/// The path of the file `a` in the working directory `dir`.
pub fn artifact_path(dir: &str, a: Artifact) -> (r: String)
    ensures
        r@ == dir@ + seq!['/'] + file_name(a),
{
    proof {
        reveal_strlit("/");
    }
    let r = String::from_str(dir).concat("/").concat(artifact_file_name(a).as_str());
    r
}

/// A name of a file alone: not empty, without a directory separator, and
/// neither `.` nor `..`.
pub open spec fn is_base_name(s: Seq<char>) -> bool {
    &&& s.len() > 0
    &&& !s.contains('/')
    &&& s != seq!['.']
    &&& s != seq!['.', '.']
}

/// The names of the entries of the archive, in the order they are added.
pub open spec fn archive_entry_names() -> Seq<Seq<char>> {
    seq![file_name(Artifact::Parameters), file_name(Artifact::Handle)]
}

/// The archive holds exactly two entries, under two different base names
/// with no directory part.
pub proof fn lemma_archive_shape()
    ensures
        archive_entry_names().len() == 2,
        is_base_name(archive_entry_names()[0]),
        is_base_name(archive_entry_names()[1]),
        archive_entry_names()[0] != archive_entry_names()[1],
{
    reveal_strlit("public_parameters.bin");
    reveal_strlit("blitzar_handle.bin");
    let p = file_name(Artifact::Parameters);
    let h = file_name(Artifact::Handle);
    assert(p[0] != h[0]);
    assert forall|i: int| 0 <= i < p.len() implies p[i] != '/' by {}
    assert forall|i: int| 0 <= i < h.len() implies h[i] != '/' by {}
}

/// The names under which the two transient files are added to the archive.
pub fn archive_entries() -> (r: Vec<String>)
    ensures
        r@.len() == 2,
        forall|i: int| 0 <= i < 2 ==> #[trigger] r@[i]@ == archive_entry_names()[i],
{
    let mut r: Vec<String> = Vec::new();
    r.push(artifact_file_name(Artifact::Parameters));
    r.push(artifact_file_name(Artifact::Handle));
    r
}

/// Whether the entries found in an archive are exactly the two expected ones,
/// in either order.
pub fn is_expected_listing(names: &Vec<String>) -> (r: bool)
    ensures
        r == (names@.len() == 2 && ((names@[0]@ == archive_entry_names()[0] && names@[1]@
            == archive_entry_names()[1]) || (names@[0]@ == archive_entry_names()[1] && names@[1]@
            == archive_entry_names()[0]))),
{
    if names.len() != 2 {
        return false;
    }
    let p = artifact_file_name(Artifact::Parameters);
    let h = artifact_file_name(Artifact::Handle);
    (names[0] == p && names[1] == h) || (names[0] == h && names[1] == p)
}

/// What the operator is told when a run stops at `stage`.
pub open spec fn closing_text(stage: Stage) -> Seq<char> {
    match stage {
        Stage::Done => "Temporary .bin files removed."@,
        Stage::Failed(RunError::Generation) => "Failed to generate parameters, aborting."@,
        Stage::Failed(RunError::Persist(Artifact::Parameters)) => "Failed to save parameters, aborting."@,
        Stage::Failed(RunError::Persist(_)) => "Failed to write the setup handle, aborting."@,
        Stage::Failed(RunError::Archive) => "Failed to write the archive; the .bin files are kept for another try."@,
        Stage::Failed(RunError::Cleanup(Artifact::Parameters)) => "Failed to remove public_parameters.bin after archiving."@,
        Stage::Failed(RunError::Cleanup(_)) => "Failed to remove blitzar_handle.bin after archiving."@,
        _ => seq![],
    }
}

impl Run {
    /// Whether nothing is left to do.
    pub fn is_over(&self) -> (r: bool)
        ensures
            r == (step_of(self.stage) == Step::Stop),
    {
        match self.stage {
            Stage::Done | Stage::Failed(_) => true,
            _ => false,
        }
    }

    /// What the operator is told once the run is over.
    pub fn closing_message(&self) -> (r: String)
        ensures
            r@ == closing_text(self.stage),
    {
        match self.stage {
            Stage::Done => String::from_str("Temporary .bin files removed."),
            Stage::Failed(RunError::Generation) => String::from_str("Failed to generate parameters, aborting."),
            Stage::Failed(RunError::Persist(Artifact::Parameters)) => String::from_str("Failed to save parameters, aborting."),
            Stage::Failed(RunError::Persist(_)) => String::from_str("Failed to write the setup handle, aborting."),
            Stage::Failed(RunError::Archive) => String::from_str("Failed to write the archive; the .bin files are kept for another try."),
            Stage::Failed(RunError::Cleanup(Artifact::Parameters)) => String::from_str("Failed to remove public_parameters.bin after archiving."),
            Stage::Failed(RunError::Cleanup(_)) => String::from_str("Failed to remove blitzar_handle.bin after archiving."),
            _ => String::new(),
        }
    }
}

} // verus!
