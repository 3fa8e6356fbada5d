use vstd::prelude::*;
use crate::actions::{landing_path, Action, ActionKind, EntryError, FsOp, FsOpView, PathState};
use crate::utils::FileMetaData;

verus! {

/// What the caller observed after carrying out the last request.
pub enum Reply {
    /// Nothing yet: the first call.
    Begin,
    /// What lies at the inspected destination.
    State(PathState),
    /// Whether the probed landing path is taken.
    Exists(bool),
    /// How the requested operation went, with the failure's message.
    Finished(Result<(), String>),
}

/// What the batch needs from the filesystem next.
pub enum Request {
    /// Report what lies at this destination directory.
    Inspect(String),
    /// Report whether this landing path is taken.
    Probe(String),
    /// Carry out this operation and report how it went.
    Perform(FsOp),
    /// The batch is over, with these failures in the order they happened.
    Done(Vec<EntryError>),
}

pub enum RequestView {
    Inspect(Seq<char>),
    Probe(Seq<char>),
    Perform(FsOpView),
    Done(Seq<EntryError>),
}

impl View for Request {
    type V = RequestView;

    open spec fn view(&self) -> RequestView {
        match self {
            Request::Inspect(p) => RequestView::Inspect(p@),
            Request::Probe(p) => RequestView::Probe(p@),
            Request::Perform(op) => RequestView::Perform(op@),
            Request::Done(e) => RequestView::Done(e@),
        }
    }
}

#[derive(Clone, Copy, Debug, PartialEq, Eq, Structural)]
pub enum Stage {
    Start,
    Inspecting,
    Creating,
    Probing,
    Transferring,
    Finished,
}

/// One run of an action over a match set. Each step takes what the caller
/// observed and says what to do next: the destination is checked and, when
/// missing, created before any entry; every entry is then handled in turn,
/// and a failure on one entry is recorded without stopping the others.
pub struct Batch<'a> {
    pub action: ActionKind<'a>,
    pub matches: Vec<FileMetaData>,
    pub next: usize,
    pub stage: Stage,
    pub errors: Vec<EntryError>,
}

/// The first entry from `i` on that calls for any work.
pub open spec fn pending_from(a: ActionKind, ms: Seq<FileMetaData>, i: int) -> int
    decreases ms.len() - i,
{
    if i >= ms.len() {
        ms.len() as int
    } else if a.spec_destination() is Some || a.spec_entry_op(ms[i], false) is Some {
        i
    } else {
        pending_from(a, ms, i + 1)
    }
}

/// The batch went on with the first entry from `i` on that calls for work,
/// carrying the failures `errs`, or finished with them.
pub open spec fn resumed(errs: Seq<EntryError>, post: Batch, i: int, r: RequestView) -> bool {
    let ms = post.matches@;
    let j = pending_from(post.action, ms, i);
    post.next == j && if j >= ms.len() {
        post.stage == Stage::Finished && r == RequestView::Done(errs) && post.errors@.len() == 0
    } else {
        post.errors@ == errs && match post.action.spec_destination() {
            Some(d) => post.stage == Stage::Probing && r == RequestView::Probe(landing_path(d, ms[j])),
            None => post.stage == Stage::Transferring && r == RequestView::Perform(
                post.action.spec_entry_op(ms[j], false)->0,
            ),
        }
    }
}

/// The batch stopped with the failures `errs`.
pub open spec fn stopped(errs: Seq<EntryError>, post: Batch, r: RequestView) -> bool {
    post.stage == Stage::Finished && r == RequestView::Done(errs) && post.errors@.len() == 0
}

/// What one step does, from the state before it and the reply it was given.
/// A reply that does not answer the pending request ends the batch.
pub open spec fn step_spec(pre: Batch, reply: Reply, post: Batch, r: RequestView) -> bool {
    let ms = pre.matches@;
    let n = pre.next as int;
    post.action == pre.action && post.matches == pre.matches && match pre.stage {
        Stage::Start => match pre.action.spec_destination() {
            Some(d) => post.stage == Stage::Inspecting && r == RequestView::Inspect(d)
                && post.errors == pre.errors,
            None => resumed(pre.errors@, post, 0, r),
        },
        Stage::Inspecting => match (reply, pre.action.spec_destination()) {
            (Reply::State(PathState::Missing), Some(d)) => post.stage == Stage::Creating && r
                == RequestView::Perform(FsOpView::CreateDirAll(d)) && post.errors == pre.errors,
            (Reply::State(PathState::Directory), Some(_)) => resumed(pre.errors@, post, 0, r),
            (Reply::State(PathState::NotDirectory), Some(d)) => post.stage == Stage::Finished
                && post.errors@.len() == 0 && r is Done && r->Done_0.len() == 1
                && r->Done_0[0].path@ == d,
            _ => stopped(pre.errors@, post, r),
        },
        Stage::Creating => match (reply, pre.action.spec_destination()) {
            (Reply::Finished(Ok(())), Some(_)) => resumed(pre.errors@, post, 0, r),
            (Reply::Finished(Err(msg)), Some(d)) => post.stage == Stage::Finished
                && post.errors@.len() == 0 && r is Done && r->Done_0.len() == 1
                && r->Done_0[0].path@ == d && r->Done_0[0].message == msg,
            _ => stopped(pre.errors@, post, r),
        },
        Stage::Probing => match reply {
            Reply::Exists(b) if n < ms.len() => match pre.action.spec_entry_op(ms[n], b) {
                Some(op) => post.stage == Stage::Transferring && post.next == pre.next
                    && r == RequestView::Perform(op) && post.errors == pre.errors,
                None => resumed(pre.errors@, post, n + 1, r),
            },
            _ => stopped(pre.errors@, post, r),
        },
        Stage::Transferring => match reply {
            Reply::Finished(Ok(())) if n < ms.len() => resumed(pre.errors@, post, n + 1, r),
            Reply::Finished(Err(msg)) if n < ms.len() => resumed(
                pre.errors@.push(EntryError { path: ms[n].path, message: msg }),
                post,
                n + 1,
                r,
            ),
            _ => stopped(pre.errors@, post, r),
        },
        Stage::Finished => stopped(pre.errors@, post, r),
    }
}

impl<'a> Batch<'a> {
    pub fn new(action: ActionKind<'a>, matches: Vec<FileMetaData>) -> (r: Self)
        ensures
            r.action == action,
            r.matches == matches,
            r.next == 0,
            r.stage == Stage::Start,
            r.errors@.len() == 0,
    {
        Batch { action, matches, next: 0, stage: Stage::Start, errors: Vec::new() }
    }

    fn finish(&mut self) -> (r: Request)
        ensures
            stopped(old(self).errors@, *final(self), r@),
            final(self).action == old(self).action,
            final(self).matches == old(self).matches,
            final(self).next == old(self).next,
    {
        let mut out: Vec<EntryError> = Vec::new();
        std::mem::swap(&mut out, &mut self.errors);
        self.stage = Stage::Finished;
        Request::Done(out)
    }

    fn resume(&mut self, i: usize) -> (r: Request)
        ensures
            resumed(old(self).errors@, *final(self), i as int, r@),
            final(self).action == old(self).action,
            final(self).matches == old(self).matches,
    {
        let ghost ms = self.matches@;
        let mut j: usize = i;
        if j > self.matches.len() {
            j = self.matches.len();
        }
        proof {
            if i > ms.len() {
                assert(pending_from(self.action, ms, i as int) == ms.len());
                assert(pending_from(self.action, ms, j as int) == ms.len());
            }
        }
        while j < self.matches.len()
            invariant
                ms == self.matches@,
                self.action == old(self).action,
                self.matches == old(self).matches,
                self.errors == old(self).errors,
                j <= ms.len(),
                pending_from(self.action, ms, i as int) == pending_from(self.action, ms, j as int),
            decreases ms.len() - j,
        {
            let m = &self.matches[j];
            match self.action.target(m) {
                Some(t) => {
                    self.next = j;
                    self.stage = Stage::Probing;
                    return Request::Probe(t);
                },
                None => {},
            }
            match self.action.entry_op(m, false) {
                Some(op) => {
                    self.next = j;
                    self.stage = Stage::Transferring;
                    return Request::Perform(op);
                },
                None => {},
            }
            j = j + 1;
        }
        self.next = j;
        self.finish()
    }

    /// Takes what the caller observed and says what to do next.
    pub fn step(&mut self, reply: Reply) -> (r: Request)
        ensures
            step_spec(*old(self), reply, *final(self), r@),
    {
        match self.stage {
            Stage::Start => match self.action.destination() {
                Some(d) => {
                    self.stage = Stage::Inspecting;
                    Request::Inspect(d)
                },
                None => self.resume(0),
            },
            Stage::Inspecting => match (reply, self.action.destination()) {
                (Reply::State(s), Some(_)) => match self.action.prepare(s) {
                    Err(e) => {
                        self.finish();
                        Request::Done(vec![e])
                    },
                    Ok(Some(op)) => {
                        self.stage = Stage::Creating;
                        Request::Perform(op)
                    },
                    Ok(None) => self.resume(0),
                },
                _ => self.finish(),
            },
            Stage::Creating => match (reply, self.action.destination()) {
                (Reply::Finished(Ok(())), Some(_)) => self.resume(0),
                (Reply::Finished(Err(message)), Some(d)) => {
                    self.finish();
                    Request::Done(vec![EntryError { path: d, message }])
                },
                _ => self.finish(),
            },
            Stage::Probing => match reply {
                Reply::Exists(b) if self.next < self.matches.len() => {
                    match self.action.entry_op(&self.matches[self.next], b) {
                        Some(op) => {
                            self.stage = Stage::Transferring;
                            Request::Perform(op)
                        },
                        None => {
                            let n = self.next;
                            self.resume(n + 1)
                        },
                    }
                },
                _ => self.finish(),
            },
            Stage::Transferring => match reply {
                Reply::Finished(res) if self.next < self.matches.len() => {
                    let n = self.next;
                    match res {
                        Ok(()) => {},
                        Err(message) => {
                            let path = self.matches[n].path.clone();
                            self.errors.push(EntryError { path, message });
                        },
                    }
                    self.resume(n + 1)
                },
                _ => self.finish(),
            },
            Stage::Finished => self.finish(),
        }
    }
}

/// A missing destination is asked to be created as soon as it is seen, before
/// any entry is handled, and does not fail the batch.
pub proof fn lemma_missing_destination_created(pre: Batch, post: Batch, r: RequestView)
    requires
        pre.stage == Stage::Inspecting,
        pre.action.spec_destination() is Some,
        step_spec(pre, Reply::State(PathState::Missing), post, r),
    ensures
        r == RequestView::Perform(FsOpView::CreateDirAll(pre.action.spec_destination()->0)),
        post.stage == Stage::Creating,
        post.errors == pre.errors,
{
}

/// Without replacing, a Move or Copy entry whose landing path is taken is
/// skipped: nothing is performed for it and no failure is recorded for it,
/// so a second run over the same source and destination leaves the
/// destination as it was.
pub proof fn lemma_taken_landing_path_skipped(pre: Batch, post: Batch, r: RequestView)
    requires
        pre.stage == Stage::Probing,
        pre.next < pre.matches@.len(),
        match pre.action {
            ActionKind::Move(a) => !a.over_ride,
            ActionKind::Copy(a) => !a.over_ride,
            ActionKind::Delete(_) => false,
        },
        step_spec(pre, Reply::Exists(true), post, r),
    ensures
        resumed(pre.errors@, post, pre.next + 1, r),
{
}

/// With replacing, a Move or Copy entry is transferred onto its landing path
/// whether or not that path is taken, so a second run replaces what the first
/// one put there.
pub proof fn lemma_override_transfers(pre: Batch, taken: bool, post: Batch, r: RequestView)
    requires
        pre.stage == Stage::Probing,
        pre.next < pre.matches@.len(),
        step_spec(pre, Reply::Exists(taken), post, r),
    ensures
        match pre.action {
            ActionKind::Move(a) => a.over_ride ==> r == RequestView::Perform(
                FsOpView::Rename(
                    pre.matches@[pre.next as int].path@,
                    landing_path(a.destination@, pre.matches@[pre.next as int]),
                ),
            ),
            ActionKind::Copy(a) => a.over_ride ==> r == RequestView::Perform(
                FsOpView::CopyFile(
                    pre.matches@[pre.next as int].path@,
                    landing_path(a.destination@, pre.matches@[pre.next as int]),
                ),
            ),
            ActionKind::Delete(_) => true,
        },
{
}

} // verus!
