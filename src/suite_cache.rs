use crate::config::{join_path, spec_join};
use vstd::prelude::*;

verus! {

/// What to do to bring a cached suite up to date.
#[derive(Clone, Copy, Debug, PartialEq, Eq, Structural)]
pub struct SuitePlan {
    /// Remove the suite directory and download and unpack the suite again.
    pub download: bool,
    /// Write the fresh metadata to the lockfile, once the content is in place.
    pub write_lockfile: bool,
}

pub open spec fn spec_plan(dir_exists: bool, locked: Option<Seq<char>>, fresh: Seq<char>) -> SuitePlan {
    let up_to_date = locked == Some(fresh);
    SuitePlan { download: !dir_exists || !up_to_date, write_lockfile: !up_to_date }
}

/// Decides how to update a cached suite: `dir_exists` says whether its
/// directory was already there, `locked` is the version its lockfile names
/// (none when the lockfile is missing or unreadable), `fresh` the version the
/// coordinator has now. The lockfile is up to date when it names the fresh
/// version; the suite is downloaded when the directory was missing or the
/// lockfile is not up to date, and the lockfile is rewritten in the latter case.
pub fn plan_suite_update(dir_exists: bool, locked: &Option<String>, fresh: &String) -> (r: SuitePlan)
    ensures
        r == spec_plan(
            dir_exists,
            match locked {
                Some(l) => Some(l@),
                None => None,
            },
            fresh@,
        ),
{
    let up_to_date = match locked {
        Some(l) => *l == *fresh,
        None => false,
    };
    SuitePlan { download: !dir_exists || !up_to_date, write_lockfile: !up_to_date }
}

/// The path of a suite's own configuration inside its directory.
pub fn testconf_path(suite_dir: &str) -> (r: String)
    ensures
        r@ == spec_join(suite_dir@, "testconf.json"@),
{
    join_path(suite_dir, "testconf.json")
}

/// One step of updating a cached suite.
#[derive(Clone, Copy, Debug, PartialEq, Eq, Structural)]
pub enum SuiteStep {
    RemoveDir,
    CreateScratchDir,
    Download,
    Unzip,
    DeleteArchive,
    WriteLockfile,
}

/// The steps of an update, in order: when downloading, the old directory is
/// removed, the archive downloaded to a scratch file, unpacked into the suite
/// directory and deleted; then, when the lockfile is stale, it is written.
pub open spec fn suite_steps(plan: SuitePlan) -> Seq<SuiteStep> {
    (if plan.download {
        seq![
            SuiteStep::RemoveDir,
            SuiteStep::CreateScratchDir,
            SuiteStep::Download,
            SuiteStep::Unzip,
            SuiteStep::DeleteArchive,
        ]
    } else {
        Seq::empty()
    }) + (if plan.write_lockfile {
        seq![SuiteStep::WriteLockfile]
    } else {
        Seq::empty()
    })
}

/// The next piece of work of a suite update.
pub enum SuiteAction {
    RemoveDir { path: String },
    CreateScratchDir { path: String },
    Download { url: String, to: String },
    Unzip { archive: String, into: String },
    DeleteArchive { path: String },
    WriteLockfile { path: String },
    /// The update is complete.
    Done,
    /// A step failed; the update stops, leaving the lockfile as it is.
    Failed,
}

pub open spec fn step_of(a: SuiteAction) -> Option<SuiteStep> {
    match a {
        SuiteAction::RemoveDir { .. } => Some(SuiteStep::RemoveDir),
        SuiteAction::CreateScratchDir { .. } => Some(SuiteStep::CreateScratchDir),
        SuiteAction::Download { .. } => Some(SuiteStep::Download),
        SuiteAction::Unzip { .. } => Some(SuiteStep::Unzip),
        SuiteAction::DeleteArchive { .. } => Some(SuiteStep::DeleteArchive),
        SuiteAction::WriteLockfile { .. } => Some(SuiteStep::WriteLockfile),
        _ => None,
    }
}

/// An update of a cached suite, carried out step by step while the suite's
/// lock is held: each step is issued only once the one before it succeeded,
/// so the lockfile is written only after the archive was fully unpacked.
pub struct SuiteUpdate {
    plan: SuitePlan,
    suite_dir: String,
    scratch_dir: String,
    archive: String,
    url: String,
    lockfile: String,
    issued: usize,
    failed: bool,
}

impl SuiteUpdate {
    pub closed spec fn plan(&self) -> SuitePlan {
        self.plan
    }

    /// How many steps were issued so far.
    pub closed spec fn issued(&self) -> int {
        self.issued as int
    }

    pub closed spec fn failed(&self) -> bool {
        self.failed
    }

    pub closed spec fn wf(&self) -> bool {
        self.issued <= suite_steps(self.plan).len()
    }

    /// The paths and address the update works on: the suite directory, the
    /// scratch directory, the archive file, the download address, the lockfile.
    pub closed spec fn places(&self) -> (Seq<char>, Seq<char>, Seq<char>, Seq<char>, Seq<char>) {
        (self.suite_dir@, self.scratch_dir@, self.archive@, self.url@, self.lockfile@)
    }

    /// Each step acts on the update's own paths.
    pub open spec fn acts_on_places(&self, r: SuiteAction) -> bool {
        let (dir, scratch, archive, url, lockfile) = self.places();
        match r {
            SuiteAction::RemoveDir { path } => path@ == dir,
            SuiteAction::CreateScratchDir { path } => path@ == scratch,
            SuiteAction::Download { url: u, to } => u@ == url && to@ == archive,
            SuiteAction::Unzip { archive: a, into } => a@ == archive && into@ == dir,
            SuiteAction::DeleteArchive { path } => path@ == archive,
            SuiteAction::WriteLockfile { path } => path@ == lockfile,
            _ => true,
        }
    }

    /// An update following `plan`, for the suite directory `suite_dir`, whose
    /// archive is fetched from `url` into `archive` under `scratch_dir`, and
    /// whose lockfile is `lockfile`.
    pub fn new(
        plan: SuitePlan,
        suite_dir: String,
        scratch_dir: String,
        archive: String,
        url: String,
        lockfile: String,
    ) -> (r: SuiteUpdate)
        ensures
            r.wf(),
            r.plan() == plan,
            r.places() == (suite_dir@, scratch_dir@, archive@, url@, lockfile@),
            r.issued() == 0,
            !r.failed(),
    {
        SuiteUpdate { plan, suite_dir, scratch_dir, archive, url, lockfile, issued: 0, failed: false }
    }

    /// The next step; `last_ok` says whether the step issued last succeeded.
    /// A failed step stops the update for good.
    pub fn next(&mut self, last_ok: bool) -> (r: SuiteAction)
        requires
            old(self).wf(),
        ensures
            final(self).wf(),
            final(self).plan() == old(self).plan(),
            final(self).places() == old(self).places(),
            old(self).acts_on_places(r),
            old(self).failed() || (!last_ok && old(self).issued() > 0) ==> r is Failed
                && final(self).failed() && final(self).issued() == old(self).issued(),
            !old(self).failed() && (last_ok || old(self).issued() == 0) && old(self).issued()
                < suite_steps(old(self).plan()).len() ==> step_of(r) == Some(
                suite_steps(old(self).plan())[old(self).issued()],
            ) && final(self).issued() == old(self).issued() + 1 && !final(self).failed(),
            !old(self).failed() && (last_ok || old(self).issued() == 0) && old(self).issued()
                == suite_steps(old(self).plan()).len() ==> r is Done && !final(self).failed(),
            r is WriteLockfile && old(self).plan().download ==> old(self).issued() >= 5,
    {
        if self.failed || (!last_ok && self.issued > 0) {
            self.failed = true;
            return SuiteAction::Failed;
        }
        let ghost steps = suite_steps(self.plan);
        let k = self.issued;
        let total: usize = (if self.plan.download { 5 } else { 0 }) + (if self.plan.write_lockfile { 1 } else { 0 });
        assert(steps.len() == total);
        if k >= total {
            return SuiteAction::Done;
        }
        self.issued = k + 1;
        if !self.plan.download {
            return SuiteAction::WriteLockfile { path: self.lockfile.clone() };
        }
        if k == 0 {
            SuiteAction::RemoveDir { path: self.suite_dir.clone() }
        } else if k == 1 {
            SuiteAction::CreateScratchDir { path: self.scratch_dir.clone() }
        } else if k == 2 {
            SuiteAction::Download { url: self.url.clone(), to: self.archive.clone() }
        } else if k == 3 {
            SuiteAction::Unzip { archive: self.archive.clone(), into: self.suite_dir.clone() }
        } else if k == 4 {
            SuiteAction::DeleteArchive { path: self.archive.clone() }
        } else {
            SuiteAction::WriteLockfile { path: self.lockfile.clone() }
        }
    }
}

/// In every plan, the lockfile is written after the archive was unpacked.
pub proof fn lemma_lockfile_after_unpack(plan: SuitePlan, i: int, j: int)
    requires
        0 <= i < suite_steps(plan).len(),
        0 <= j < suite_steps(plan).len(),
        suite_steps(plan)[i] == SuiteStep::Unzip,
        suite_steps(plan)[j] == SuiteStep::WriteLockfile,
    ensures
        i < j,
{
}

/// A cached suite on disk: whether its directory exists, the version whose
/// content it holds completely (none when missing or partly written), and the
/// version its lockfile names.
pub struct SuiteDisk {
    pub dir_exists: bool,
    pub content: Option<Seq<char>>,
    pub lock: Option<Seq<char>>,
}

/// The disk after an update to version `fresh` that ran to the end.
pub open spec fn after_update(d: SuiteDisk, fresh: Seq<char>) -> SuiteDisk {
    let plan = spec_plan(d.dir_exists, d.lock, fresh);
    SuiteDisk {
        dir_exists: true,
        content: if plan.download {
            Some(fresh)
        } else {
            d.content
        },
        lock: if plan.write_lockfile {
            Some(fresh)
        } else {
            d.lock
        },
    }
}

/// The disk after an update that stopped before writing the lockfile, at any
/// point of its download: the directory may or may not be there and holds no
/// complete version, and the lockfile is as it was.
pub open spec fn after_interrupted_update(d: SuiteDisk, dir_left: bool) -> SuiteDisk {
    SuiteDisk { dir_exists: dir_left, content: None, lock: d.lock }
}

/// After an update has run to the end, the lockfile names the coordinator's
/// version; the content is that version whenever the update downloaded it or
/// it was already the one in place.
pub proof fn lemma_update_consistent(d: SuiteDisk, fresh: Seq<char>)
    requires
        d.lock == Some(fresh) ==> d.content == Some(fresh),
    ensures
        after_update(d, fresh).lock == Some(fresh),
        after_update(d, fresh).content == Some(fresh),
        after_update(d, fresh).dir_exists,
{
}

/// Once one update to a version has run to the end, another update to the
/// same version downloads nothing: of callers serialized by the suite's lock,
/// at most one downloads.
pub proof fn lemma_update_once(d: SuiteDisk, fresh: Seq<char>)
    ensures
        !spec_plan(after_update(d, fresh).dir_exists, after_update(d, fresh).lock, fresh).download,
        !spec_plan(after_update(d, fresh).dir_exists, after_update(d, fresh).lock, fresh).write_lockfile,
{
}

/// An update that was interrupted while its lockfile did not name the fresh
/// version leaves a lockfile that still does not, so the next update to that
/// version downloads again rather than trusting the partial content, however
/// many times it was interrupted.
pub proof fn lemma_interrupted_update_redone(d: SuiteDisk, fresh: Seq<char>, dir_left: bool)
    requires
        d.lock != Some(fresh),
    ensures
        after_interrupted_update(d, dir_left).lock != Some(fresh),
        spec_plan(
            after_interrupted_update(d, dir_left).dir_exists,
            after_interrupted_update(d, dir_left).lock,
            fresh,
        ).download,
{
}

} // verus!
