use vstd::prelude::*;

verus! {

/// Full random passes made over a regular file before it is unlinked.
pub const OVERWRITE_PASSES: u32 = 3;

/// The most bytes written by one overwrite step.
pub const CHUNK_LEN: u64 = 65536;

/// What the filesystem holds at a path, looked at without following links.
#[derive(Debug, Clone, Copy, PartialEq, Eq, Structural)]
pub enum EntryKind {
    Missing,
    Symlink,
    Directory,
    File,
}

/// How one path is erased.
#[derive(Debug, Clone, Copy, PartialEq, Eq, Structural)]
pub enum EraseAction {
    /// Nothing is there: erasing succeeds at once.
    Nothing,
    /// Remove the link itself; its target is never opened.
    Unlink,
    /// Queue every entry, then remove the emptied directory.
    Descend,
    /// Overwrite the contents with random bytes, then unlink.
    Overwrite,
}

pub open spec fn action_for(kind: EntryKind) -> EraseAction {
    match kind {
        EntryKind::Missing => EraseAction::Nothing,
        EntryKind::Symlink => EraseAction::Unlink,
        EntryKind::Directory => EraseAction::Descend,
        EntryKind::File => EraseAction::Overwrite,
    }
}

/// The erase policy for what was found at a path. A missing path is no
/// error, and a symlink is only unlinked, never followed or overwritten.
pub fn erase_action(kind: EntryKind) -> (a: EraseAction)
    ensures
        a == action_for(kind),
        kind == EntryKind::Missing ==> a == EraseAction::Nothing,
        kind == EntryKind::Symlink ==> a == EraseAction::Unlink,
{
    match kind {
        EntryKind::Missing => EraseAction::Nothing,
        EntryKind::Symlink => EraseAction::Unlink,
        EntryKind::Directory => EraseAction::Descend,
        EntryKind::File => EraseAction::Overwrite,
    }
}

/// A pending piece of an erase.
pub enum EraseJob {
    /// Look at a path and erase it by its kind.
    Visit(String),
    /// Remove a directory whose entries have all been erased.
    RemoveDir(String),
}

/// The view of a pending job.
pub enum JobSpec {
    Visit(Seq<char>),
    RemoveDir(Seq<char>),
}

impl View for EraseJob {
    type V = JobSpec;

    open spec fn view(&self) -> JobSpec {
        match self {
            EraseJob::Visit(p) => JobSpec::Visit(p@),
            EraseJob::RemoveDir(p) => JobSpec::RemoveDir(p@),
        }
    }
}

/// The work list of an erase, walked depth first with an explicit stack so
/// that deep trees do not grow the call stack. The last job is taken next.
pub struct EraseWork {
    pub jobs: Vec<EraseJob>,
}

impl View for EraseWork {
    type V = Seq<JobSpec>;

    open spec fn view(&self) -> Seq<JobSpec> {
        self.jobs@.map_values(|j: EraseJob| j@)
    }
}

impl EraseWork {
    /// Work that starts by visiting `root`.
    pub fn new(root: String) -> (w: EraseWork)
        ensures
            w@ == seq![JobSpec::Visit(root@)],
    {
        let mut jobs: Vec<EraseJob> = Vec::new();
        jobs.push(EraseJob::Visit(root));
        let w = EraseWork { jobs };
        assert(w@ =~= seq![JobSpec::Visit(root@)]);
        w
    }

    /// Takes the most recently queued job, if any is left.
    pub fn next_job(&mut self) -> (j: Option<EraseJob>)
        ensures
            old(self)@.len() == 0 ==> j is None && final(self)@ == old(self)@,
            old(self)@.len() > 0 ==> (j matches Some(job) && job@ == old(self)@.last()
                && final(self)@ == old(self)@.drop_last()),
    {
        let j = self.jobs.pop();
        assert(self@ =~= old(self)@.drop_last() || old(self)@.len() == 0);
        j
    }

    /// Queues the erase of a directory: its removal first, so that it runs
    /// after every entry queued above it has been erased.
    pub fn descend(&mut self, dir: String, entries: Vec<String>)
        ensures
            final(self)@ == old(self)@.push(JobSpec::RemoveDir(dir@)) + entries@.map_values(
                |e: String| JobSpec::Visit(e@),
            ),
    {
        let ghost base = old(self)@.push(JobSpec::RemoveDir(dir@));
        self.jobs.push(EraseJob::RemoveDir(dir));
        assert(self@ =~= base);
        let mut entries = entries;
        let ghost all = entries@;
        let mut taken: Vec<String> = Vec::new();
        // Entries come off the back of `entries`; `taken` keeps them in order
        // so that they can be queued front to back.
        while entries.len() > 0
            invariant
                entries@ + taken@.reverse() == all,
            decreases entries@.len(),
        {
            let e = entries.pop().unwrap();
            taken.push(e);
            assert(entries@ + taken@.reverse() =~= all);
        }
        assert(taken@.reverse() =~= all);
        while taken.len() > 0
            invariant
                base == old(self)@.push(JobSpec::RemoveDir(dir@)),
                self@ + taken@.reverse().map_values(|e: String| JobSpec::Visit(e@)) == base
                    + all.map_values(|e: String| JobSpec::Visit(e@)),
            decreases taken@.len(),
        {
            let ghost before = taken@;
            let e = taken.pop().unwrap();
            let ghost prev = self@;
            self.jobs.push(EraseJob::Visit(e));
            assert(self@ =~= prev.push(JobSpec::Visit(e@)));
            assert(before.reverse() =~= seq![e].add(taken@.reverse()));
            assert(before.reverse().map_values(|e: String| JobSpec::Visit(e@)) =~= seq![
                JobSpec::Visit(e@),
            ].add(taken@.reverse().map_values(|e: String| JobSpec::Visit(e@))));
            assert(self@ + taken@.reverse().map_values(|e: String| JobSpec::Visit(e@)) =~= prev
                + before.reverse().map_values(|e: String| JobSpec::Visit(e@)));
        }
        assert(taken@.reverse().map_values(|e: String| JobSpec::Visit(e@)) =~= Seq::<
            JobSpec,
        >::empty());
        assert(self@ =~= base + all.map_values(|e: String| JobSpec::Visit(e@)));
    }
}

/// One step of overwriting a file of known length.
#[derive(Debug, Clone, Copy, PartialEq, Eq, Structural)]
pub enum OverwriteStep {
    /// Write `len` fresh random bytes at byte `offset`.
    Write { offset: u64, len: u64 },
    /// The pass is complete: flush what was written.
    Flush,
    /// Every pass is done: the file may be unlinked.
    Finished,
}

/// Progress through the random passes over one file.
pub struct Overwrite {
    pub size: u64,
    /// Passes already flushed.
    pub pass: u32,
    /// Bytes already written in the current pass.
    pub written: u64,
}

impl Overwrite {
    pub open spec fn wf(&self) -> bool {
        self.pass <= OVERWRITE_PASSES && self.written <= self.size && (self.pass
            == OVERWRITE_PASSES ==> self.written == 0)
    }

    /// Steps left before `Finished`: a bound that each other step lowers.
    pub open spec fn remaining(&self) -> int {
        (OVERWRITE_PASSES - self.pass) * (self.size + 1) - self.written
    }

    /// The overwrite of a file of `size` bytes, before its first pass.
    pub fn new(size: u64) -> (o: Overwrite)
        ensures
            o.wf(),
            o.size == size && o.pass == 0 && o.written == 0,
    {
        Overwrite { size, pass: 0, written: 0 }
    }

    /// The next step. Each pass writes the whole length from offset zero in
    /// chunks of at most `CHUNK_LEN` bytes, then flushes.
    pub fn step(&mut self) -> (s: OverwriteStep)
        requires
            old(self).wf(),
        ensures
            final(self).wf(),
            final(self).size == old(self).size,
            old(self).pass == OVERWRITE_PASSES ==> s == OverwriteStep::Finished && *final(self)
                == *old(self),
            old(self).pass < OVERWRITE_PASSES && old(self).written < old(self).size ==> {
                let len = if old(self).size - old(self).written < CHUNK_LEN {
                    old(self).size - old(self).written
                } else {
                    CHUNK_LEN as int
                };
                &&& s == (OverwriteStep::Write { offset: old(self).written, len: len as u64 })
                &&& final(self).pass == old(self).pass
                &&& final(self).written == old(self).written + len
            },
            old(self).pass < OVERWRITE_PASSES && old(self).written == old(self).size ==> s
                == OverwriteStep::Flush && final(self).pass == old(self).pass + 1
                && final(self).written == 0,
            s != OverwriteStep::Finished ==> 0 <= final(self).remaining() < old(self).remaining(),
    {
        if self.pass >= OVERWRITE_PASSES {
            return OverwriteStep::Finished;
        }
        let ghost before = self.remaining();
        proof {
            assert((OVERWRITE_PASSES - self.pass) * (self.size + 1) >= self.size + 1)
                by (nonlinear_arith)
                requires
                    self.pass < OVERWRITE_PASSES,
            ;
        }
        if self.written < self.size {
            let left = self.size - self.written;
            let len = if left < CHUNK_LEN {
                left
            } else {
                CHUNK_LEN
            };
            let offset = self.written;
            self.written = self.written + len;
            OverwriteStep::Write { offset, len }
        } else {
            self.pass = self.pass + 1;
            self.written = 0;
            proof {
                let p = old(self).pass as int;
                let z = self.size as int + 1;
                assert((OVERWRITE_PASSES - p) * z == (OVERWRITE_PASSES - p - 1) * z + z)
                    by (nonlinear_arith);
                assert((OVERWRITE_PASSES - p - 1) * z >= 0) by (nonlinear_arith)
                    requires
                        p < OVERWRITE_PASSES,
                        z >= 1,
                ;
            }
            OverwriteStep::Flush
        }
    }
}

} // verus!
