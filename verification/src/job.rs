//! The execution orchestrator: planning one job from the request, and the
//! per-job state machine whose every branch is terminal only after the
//! workspace was removed. The surrounding runtime performs the filesystem
//! and process work and feeds the outcome of each step back as an event.

use vstd::prelude::*;
use crate::code::{artifact_path, artifact_seq};
use crate::models::{ExecuteRequestFiles, LanguageMetadata};
use crate::workspace::{
    entry_matches,
    file_path_seq,
    has_ext,
    lemma_path_keeps_ext,
    path_for,
    resolve_entry,
    workspace_name,
    ws_name_seq,
    EntryError,
};

verus! {

/// Everything decided before a job touches the filesystem: its unique
/// workspace directory, which submitted file is the entry point, the entry's
/// path inside the workspace, where a compiled artifact would go, and
/// whether the compile stage applies at all.
pub struct JobPlan {
    pub workspace: String,
    pub entry_index: usize,
    pub entry_path: String,
    pub artifact: String,
    pub compile_needed: bool,
}

impl JobPlan {
    /// What the run stage launches: the compiled artifact for a compiled
    /// language, the entry file itself for an interpreted one.
    pub fn run_target(&self) -> (r: String)
        ensures
            self.compile_needed ==> r@ == self.artifact@,
            !self.compile_needed ==> r@ == self.entry_path@,
    {
        if self.compile_needed {
            self.artifact.clone()
        } else {
            self.entry_path.clone()
        }
    }
}

/// Isolation at the plan level: two jobs planned under different (time,
/// counter) pairs get different workspace directories, and no file path of
/// one is a file path of the other.
pub proof fn lemma_planned_jobs_isolated(
    p1: JobPlan,
    m1: nat,
    s1: nat,
    n1: Seq<char>,
    p2: JobPlan,
    m2: nat,
    s2: nat,
    n2: Seq<char>,
)
    requires
        p1.workspace@ == ws_name_seq(m1, s1),
        p2.workspace@ == ws_name_seq(m2, s2),
        m1 != m2 || s1 != s2,
    ensures
        p1.workspace@ != p2.workspace@,
        file_path_seq(p1.workspace@, n1) != file_path_seq(p2.workspace@, n2),
{
    crate::workspace::lemma_concurrent_jobs_isolated(m1, s1, n1, m2, s2, n2);
}

/// Plans one job from the submitted files, the resolved language, the
/// current time in milliseconds and the process-wide job counter. Fails
/// exactly when the files hold no single entry point for the language; no
/// compute resources are spent on such a request.
pub fn plan_job(
    files: &Vec<ExecuteRequestFiles>,
    meta: &LanguageMetadata,
    millis: u64,
    seq_no: u64,
) -> (r: Result<JobPlan, EntryError>)
    ensures
        r is Ok <==> (exists|i: int|
            0 <= i < files@.len() && entry_matches(files@, meta.extension@, i) && (forall|j: int|
                0 <= j < files@.len() && j != i ==> !entry_matches(files@, meta.extension@, j))),
        r is Ok ==> {
            let p = r->Ok_0;
            &&& (p.entry_index as int) < files@.len()
            &&& entry_matches(files@, meta.extension@, p.entry_index as int)
            &&& forall|j: int|
                0 <= j < files@.len() && j != p.entry_index as int ==> !entry_matches(
                    files@,
                    meta.extension@,
                    j,
                )
            &&& p.workspace@ == ws_name_seq(millis as nat, seq_no as nat)
            &&& p.entry_path@ == file_path_seq(p.workspace@, files@[p.entry_index as int].name@)
            &&& p.artifact@ == artifact_seq(p.entry_path@, meta.extension@)
            &&& p.compile_needed == meta.is_compiled
        },
        r == Err::<JobPlan, EntryError>(EntryError::NoEntry) <==> (forall|j: int|
            0 <= j < files@.len() ==> !entry_matches(files@, meta.extension@, j)),
        r == Err::<JobPlan, EntryError>(EntryError::MultipleEntries) <==> (exists|i: int, j: int|
            0 <= i < j < files@.len() && entry_matches(files@, meta.extension@, i) && entry_matches(
                files@,
                meta.extension@,
                j,
            )),
{
    let entry_index = match resolve_entry(files, &meta.extension) {
        Ok(i) => i,
        Err(e) => {
            return Err(e);
        },
    };
    let workspace = workspace_name(millis, seq_no);
    let entry_path = path_for(&workspace, &files[entry_index].name);
    proof {
        lemma_path_keeps_ext(workspace@, files@[entry_index as int].name@, meta.extension@);
    }
    let artifact = artifact_path(&entry_path, &meta.extension);
    Ok(
        JobPlan {
            workspace,
            entry_index,
            entry_path,
            artifact,
            compile_needed: meta.is_compiled,
        },
    )
}

/// The stages one job passes through. Every path ends in `Cleaned`, and only
/// from `Cleaned` is the job's result handed back.
pub enum JobStage {
    Created,
    FilesWritten,
    CompileSkipped,
    Compiled,
    CompileFailed,
    Ran,
    TestsRun,
    Aborted,
    Cleaned,
}

/// What the runtime reports back after performing the pending action.
pub enum JobEvent {
    FilesPut { entry_ok: bool },
    CompileSkip,
    CompileDone { ok: bool },
    RunDone,
    TestsDone,
    WorkspaceRemoved,
}

/// What the runtime must do next for a job in a given stage.
pub enum JobAction {
    WriteFiles,
    SkipCompile,
    Compile,
    Run,
    RunTests,
    RemoveWorkspace,
}

/// The transition table of the job state machine. An event that does not
/// belong to the stage changes nothing, so the table is total.
pub open spec fn job_next(s: JobStage, e: JobEvent) -> JobStage {
    match (s, e) {
        (JobStage::Created, JobEvent::FilesPut { entry_ok }) => if entry_ok {
            JobStage::FilesWritten
        } else {
            JobStage::Aborted
        },
        (JobStage::FilesWritten, JobEvent::CompileSkip) => JobStage::CompileSkipped,
        (JobStage::FilesWritten, JobEvent::CompileDone { ok }) => if ok {
            JobStage::Compiled
        } else {
            JobStage::CompileFailed
        },
        (JobStage::CompileSkipped, JobEvent::RunDone) => JobStage::Ran,
        (JobStage::Compiled, JobEvent::RunDone) => JobStage::Ran,
        (JobStage::CompileSkipped, JobEvent::TestsDone) => JobStage::TestsRun,
        (JobStage::Compiled, JobEvent::TestsDone) => JobStage::TestsRun,
        (JobStage::CompileFailed, JobEvent::WorkspaceRemoved) => JobStage::Cleaned,
        (JobStage::Aborted, JobEvent::WorkspaceRemoved) => JobStage::Cleaned,
        (JobStage::Ran, JobEvent::WorkspaceRemoved) => JobStage::Cleaned,
        (JobStage::TestsRun, JobEvent::WorkspaceRemoved) => JobStage::Cleaned,
        (_, _) => s,
    }
}

/// Advances one job by one reported event.
pub fn job_step(s: JobStage, e: JobEvent) -> (n: JobStage)
    ensures
        n == job_next(s, e),
{
    match (s, e) {
        (JobStage::Created, JobEvent::FilesPut { entry_ok }) => if entry_ok {
            JobStage::FilesWritten
        } else {
            JobStage::Aborted
        },
        (JobStage::FilesWritten, JobEvent::CompileSkip) => JobStage::CompileSkipped,
        (JobStage::FilesWritten, JobEvent::CompileDone { ok }) => if ok {
            JobStage::Compiled
        } else {
            JobStage::CompileFailed
        },
        (JobStage::CompileSkipped, JobEvent::RunDone) => JobStage::Ran,
        (JobStage::Compiled, JobEvent::RunDone) => JobStage::Ran,
        (JobStage::CompileSkipped, JobEvent::TestsDone) => JobStage::TestsRun,
        (JobStage::Compiled, JobEvent::TestsDone) => JobStage::TestsRun,
        (JobStage::CompileFailed, JobEvent::WorkspaceRemoved) => JobStage::Cleaned,
        (JobStage::Aborted, JobEvent::WorkspaceRemoved) => JobStage::Cleaned,
        (JobStage::Ran, JobEvent::WorkspaceRemoved) => JobStage::Cleaned,
        (JobStage::TestsRun, JobEvent::WorkspaceRemoved) => JobStage::Cleaned,
        (other, _) => other,
    }
}

/// What the runtime does next in each stage, `None` once the job is done.
/// Compile is attempted only where the language requires it; a failed
/// compile or an aborted job goes straight to workspace removal, never to
/// the run stage; and only a cleaned job is finished.
pub fn next_action(s: &JobStage, is_compiled: bool, batch: bool) -> (a: Option<JobAction>)
    ensures
        s is Created ==> a == Some(JobAction::WriteFiles),
        s is FilesWritten && is_compiled ==> a == Some(JobAction::Compile),
        s is FilesWritten && !is_compiled ==> a == Some(JobAction::SkipCompile),
        (s is CompileSkipped || s is Compiled) && !batch ==> a == Some(JobAction::Run),
        (s is CompileSkipped || s is Compiled) && batch ==> a == Some(JobAction::RunTests),
        s is CompileFailed || s is Aborted || s is Ran || s is TestsRun ==> a == Some(
            JobAction::RemoveWorkspace,
        ),
        s is Cleaned ==> a is None,
{
    match s {
        JobStage::Created => Some(JobAction::WriteFiles),
        JobStage::FilesWritten => if is_compiled {
            Some(JobAction::Compile)
        } else {
            Some(JobAction::SkipCompile)
        },
        JobStage::CompileSkipped => if batch {
            Some(JobAction::RunTests)
        } else {
            Some(JobAction::Run)
        },
        JobStage::Compiled => if batch {
            Some(JobAction::RunTests)
        } else {
            Some(JobAction::Run)
        },
        JobStage::CompileFailed => Some(JobAction::RemoveWorkspace),
        JobStage::Aborted => Some(JobAction::RemoveWorkspace),
        JobStage::Ran => Some(JobAction::RemoveWorkspace),
        JobStage::TestsRun => Some(JobAction::RemoveWorkspace),
        JobStage::Cleaned => None,
    }
}

/// The stage a job is in after the given events, starting from `Created`.
pub open spec fn job_run(evs: Seq<JobEvent>) -> JobStage
    decreases evs.len(),
{
    if evs.len() == 0 {
        JobStage::Created
    } else {
        job_next(job_run(evs.drop_last()), evs.last())
    }
}

/// Cleanup is unconditional: however a job went — success, compile failure
/// or abort — it is done only in `Cleaned`, and a job can only be in
/// `Cleaned` if the workspace was removed at some earlier step. So the
/// workspace directory of a finished job no longer exists.
pub proof fn lemma_cleaned_only_after_removal(evs: Seq<JobEvent>)
    requires
        job_run(evs) is Cleaned,
    ensures
        exists|i: int| 0 <= i < evs.len() && evs[i] is WorkspaceRemoved,
    decreases evs.len(),
{
    if evs.len() == 0 {
        assert(job_run(evs) is Created);
    } else {
        let prefix = evs.drop_last();
        if job_run(prefix) is Cleaned {
            lemma_cleaned_only_after_removal(prefix);
            let i = choose|i: int| 0 <= i < prefix.len() && prefix[i] is WorkspaceRemoved;
            assert(evs[i] is WorkspaceRemoved);
        } else {
            assert(evs.last() is WorkspaceRemoved);
            assert(evs[evs.len() - 1] is WorkspaceRemoved);
        }
    }
}

/// A failed compile short-circuits: whatever events still arrive, the job
/// never reaches the run or test stage — it can only stay failed or become
/// cleaned, with the compiler's diagnostics as its outcome.
pub proof fn lemma_compile_failure_short_circuits(evs: Seq<JobEvent>, more: Seq<JobEvent>)
    requires
        job_run(evs) is CompileFailed,
    ensures
        job_run(evs + more) is CompileFailed || job_run(evs + more) is Cleaned,
    decreases more.len(),
{
    if more.len() == 0 {
        assert(evs + more =~= evs);
    } else {
        lemma_compile_failure_short_circuits(evs, more.drop_last());
        assert((evs + more).drop_last() =~= evs + more.drop_last());
        assert((evs + more).last() == more.last());
    }
}

} // verus!
