use vstd::prelude::*;
use vstd::string::*;

use crate::error::{FailureModel, WorkerError};
use crate::session::{
    begin_spec, closed, feed_spec, prepared, reopened, storage_view, Action, ActionModel,
    EngineEvent, ExecModel, OpenOptions, Operation, Session, SessionModel, StorageAction,
    StorageModel,
};
use crate::vfs::import_check;

verus! {

/// Sessions by id. Each id names at most one session.
pub struct SessionRegistry {
    pub ids: Vec<String>,
    pub sessions: Vec<Session>,
}

/// A session as it stands right after its handle was opened with `o`.
pub open spec fn fresh(o: OpenOptions) -> SessionModel {
    SessionModel { filename: o.filename@, persist: o.persist, opened: true, execution: ExecModel::Idle }
}

impl SessionRegistry {
    pub open spec fn wf(&self) -> bool {
        &&& self.ids@.len() == self.sessions@.len()
        &&& forall|i: int, j: int|
            0 <= i < j < self.ids@.len() ==> #[trigger] self.ids@[i]@ != #[trigger] self.ids@[j]@
        &&& forall|i: int| 0 <= i < self.sessions@.len() ==> #[trigger] self.sessions@[i].wf()
    }

    /// Whether a session is registered under `id`.
    pub open spec fn has(&self, id: Seq<char>) -> bool {
        exists|i: int| 0 <= i < self.ids@.len() && #[trigger] self.ids@[i]@ == id
    }

    /// The position of the session registered under `id`.
    pub open spec fn slot(&self, id: Seq<char>) -> int {
        choose|i: int| 0 <= i < self.ids@.len() && #[trigger] self.ids@[i]@ == id
    }

    /// The session registered under `id`.
    pub open spec fn session(&self, id: Seq<char>) -> SessionModel {
        self.sessions@[self.slot(id)]@
    }

    /// Every other id keeps its session.
    pub open spec fn others_kept(&self, old: &SessionRegistry, id: Seq<char>) -> bool {
        forall|k: Seq<char>|
            k != id ==> (#[trigger] self.has(k) == old.has(k) && (old.has(k) ==> self.session(k)
                == old.session(k)))
    }

    /// A registry with no session.
    pub fn new() -> (r: SessionRegistry)
        ensures
            r.wf(),
            forall|k: Seq<char>| !r.has(k),
    {
        SessionRegistry { ids: Vec::new(), sessions: Vec::new() }
    }

    proof fn lemma_slot(&self, i: int)
        requires
            self.wf(),
            0 <= i < self.ids@.len(),
        ensures
            self.has(self.ids@[i]@),
            self.slot(self.ids@[i]@) == i,
    {
        let id = self.ids@[i]@;
        assert(self.has(id));
        let j = self.slot(id);
        if j != i {
            if j < i {
                assert(self.ids@[j]@ != self.ids@[i]@);
            } else {
                assert(self.ids@[i]@ != self.ids@[j]@);
            }
        }
    }

    /// The position of the session registered under `id`, if there is one.
    pub fn find(&self, id: &str) -> (r: Option<usize>)
        requires
            self.wf(),
        ensures
            r is None <==> !self.has(id@),
            r is Some ==> r->Some_0 < self.ids@.len() && self.ids@[r->Some_0 as int]@ == id@
                && r->Some_0 as int == self.slot(id@),
    {
        let key = String::from_str(id);
        let mut i: usize = 0;
        while i < self.ids.len()
            invariant
                self.wf(),
                key@ == id@,
                i <= self.ids@.len(),
                forall|j: int| 0 <= j < i ==> #[trigger] self.ids@[j]@ != id@,
            decreases self.ids@.len() - i,
        {
            if self.ids[i] == key {
                proof { self.lemma_slot(i as int); }
                return Some(i);
            }
            i = i + 1;
        }
        None
    }

    /// Registers a session on a freshly opened handle under `id`, in place of any
    /// session that was there.
    pub fn open(&mut self, id: String, options: OpenOptions)
        requires
            old(self).wf(),
        ensures
            final(self).wf(),
            final(self).has(id@),
            final(self).session(id@) == fresh(options),
            final(self).others_kept(old(self), id@),
    {
        let ghost id_v = id@;
        let s = Session::new(options);
        match self.find(id.as_str()) {
            Some(i) => {
                self.sessions.set(i, s);
                proof {
                    self.lemma_slot(i as int);
                    assert forall|k: Seq<char>| k != id_v implies #[trigger] self.has(k) == old(
                        self,
                    ).has(k) && (old(self).has(k) ==> self.session(k) == old(self).session(k)) by {
                        if old(self).has(k) {
                            let j = old(self).slot(k);
                            old(self).lemma_slot(j);
                            self.lemma_slot(j);
                        }
                        if self.has(k) {
                            let j = self.slot(k);
                            self.lemma_slot(j);
                        }
                    }
                }
            },
            None => {
                self.ids.push(id);
                self.sessions.push(s);
                proof {
                    let n = self.ids@.len() - 1;
                    assert(self.ids@[n]@ == id_v);
                    assert forall|i: int, j: int|
                        0 <= i < j < self.ids@.len() implies #[trigger] self.ids@[i]@
                        != #[trigger] self.ids@[j]@ by {
                        if j == n {
                            assert(old(self).ids@[i]@ != id_v);
                        } else {
                            assert(old(self).ids@[i]@ != old(self).ids@[j]@);
                        }
                    }
                    assert forall|i: int| 0 <= i < self.sessions@.len() implies #[trigger] self.sessions@[i].wf() by {
                        if i < n {
                            assert(old(self).sessions@[i].wf());
                        }
                    }
                    self.lemma_slot(n);
                    assert forall|k: Seq<char>| k != id_v implies #[trigger] self.has(k) == old(
                        self,
                    ).has(k) && (old(self).has(k) ==> self.session(k) == old(self).session(k)) by {
                        if old(self).has(k) {
                            let j = old(self).slot(k);
                            old(self).lemma_slot(j);
                            assert(self.ids@[j]@ == k);
                            self.lemma_slot(j);
                        }
                        if self.has(k) {
                            let j = self.slot(k);
                            self.lemma_slot(j);
                            assert(j != n);
                            assert(old(self).ids@[j]@ == k);
                        }
                    }
                }
            },
        }
    }
}

impl SessionRegistry {
    /// Replacing the session at one position keeps the registry well formed and
    /// every other id's session.
    proof fn lemma_replaced(&self, old: &SessionRegistry, i: int)
        requires
            old.wf(),
            0 <= i < old.ids@.len(),
            self.ids@ == old.ids@,
            self.sessions@ == old.sessions@.update(i, self.sessions@[i]),
            self.sessions@[i].wf(),
        ensures
            self.wf(),
            self.has(old.ids@[i]@),
            self.session(old.ids@[i]@) == self.sessions@[i]@,
            old.session(old.ids@[i]@) == old.sessions@[i]@,
            self.others_kept(old, old.ids@[i]@),
    {
        assert forall|j: int| 0 <= j < self.sessions@.len() implies #[trigger] self.sessions@[j].wf() by {
            if j != i {
                assert(old.sessions@[j].wf());
            }
        }
        self.lemma_slot(i);
        old.lemma_slot(i);
        let id = old.ids@[i]@;
        assert forall|k: Seq<char>| k != id implies #[trigger] self.has(k) == old.has(k) && (old.has(
            k,
        ) ==> self.session(k) == old.session(k)) by {
            if old.has(k) {
                let j = old.slot(k);
                old.lemma_slot(j);
                self.lemma_slot(j);
            }
            if self.has(k) {
                let j = self.slot(k);
                self.lemma_slot(j);
            }
        }
    }

    /// Removing the entry at position `i`, which holds `id`, keeps the registry well
    /// formed and every other id's session.
    proof fn lemma_removed(&self, o: &SessionRegistry, i: int, id: Seq<char>)
        requires
            o.wf(),
            0 <= i < o.ids@.len(),
            o.ids@[i]@ == id,
            self.ids@ == o.ids@.remove(i),
            self.sessions@ == o.sessions@.remove(i),
        ensures
            self.wf(),
            !self.has(id),
            self.others_kept(o, id),
    {
        assert forall|a: int, b: int|
            0 <= a < b < self.ids@.len() implies #[trigger] self.ids@[a]@ != #[trigger] self.ids@[b]@ by {
            let a2 = if a < i { a } else { a + 1 };
            let b2 = if b < i { b } else { b + 1 };
            assert(self.ids@[a] == o.ids@[a2]);
            assert(self.ids@[b] == o.ids@[b2]);
            assert(o.ids@[a2]@ != o.ids@[b2]@);
        }
        assert forall|a: int| 0 <= a < self.sessions@.len() implies #[trigger] self.sessions@[a].wf() by {
            let a2 = if a < i { a } else { a + 1 };
            assert(self.sessions@[a] == o.sessions@[a2]);
            assert(o.sessions@[a2].wf());
        }
        assert(self.wf());
        if self.has(id) {
            let j = self.slot(id);
            let j2 = if j < i { j } else { j + 1 };
            assert(self.ids@[j] == o.ids@[j2]);
            if j2 < i {
                assert(o.ids@[j2]@ != o.ids@[i]@);
            } else {
                assert(o.ids@[i]@ != o.ids@[j2]@);
            }
        }
        assert forall|k: Seq<char>| k != id implies #[trigger] self.has(k) == o.has(k) && (o.has(k)
            ==> self.session(k) == o.session(k)) by {
            if o.has(k) {
                let j = o.slot(k);
                o.lemma_slot(j);
                assert(j != i);
                let j1 = if j < i { j } else { j - 1 };
                assert(self.ids@[j1] == o.ids@[j]);
                assert(self.sessions@[j1] == o.sessions@[j]);
                self.lemma_slot(j1);
                assert(self.has(k));
                assert(self.session(k) == o.session(k));
            }
            if self.has(k) {
                let j = self.slot(k);
                let j2 = if j < i { j } else { j + 1 };
                assert(self.ids@[j] == o.ids@[j2]);
                assert(o.ids@[j2]@ == k);
                assert(o.has(k));
            }
        }
    }

    /// Starts a stepping operation on the session under `id`.
    pub fn begin(&mut self, id: &str, op: Operation) -> (r: Action)
        requires
            old(self).wf(),
        ensures
            final(self).wf(),
            !old(self).has(id@) ==> r@ == ActionModel::Reply(Err(FailureModel::NotFound)) && *final(self)
                == *old(self),
            old(self).has(id@) ==> final(self).has(id@) && (final(self).session(id@), r@)
                == begin_spec(old(self).session(id@), op) && final(self).others_kept(old(self), id@),
    {
        match self.find(id) {
            None => Action::Reply(Err(WorkerError::NotFound)),
            Some(i) => {
                let r = self.sessions[i].begin(op);
                proof { self.lemma_replaced(old(self), i as int); }
                r
            },
        }
    }

    /// Hands the engine's report to the session under `id`.
    pub fn feed(&mut self, id: &str, ev: EngineEvent) -> (r: Action)
        requires
            old(self).wf(),
        ensures
            final(self).wf(),
            !old(self).has(id@) ==> r@ == ActionModel::Reply(Err(FailureModel::NotFound)) && *final(self)
                == *old(self),
            old(self).has(id@) ==> final(self).has(id@) && (final(self).session(id@), r@)
                == feed_spec(old(self).session(id@), ev@) && final(self).others_kept(old(self), id@),
    {
        match self.find(id) {
            None => Action::Reply(Err(WorkerError::NotFound)),
            Some(i) => {
                let r = self.sessions[i].feed(ev);
                proof { self.lemma_replaced(old(self), i as int); }
                r
            },
        }
    }

    /// Prepares a text of `len` bytes on the session under `id`.
    pub fn prepare(&mut self, id: &str, len: usize) -> (r: Result<(), WorkerError>)
        requires
            old(self).wf(),
        ensures
            final(self).wf(),
            !old(self).has(id@) ==> r is Err && r->Err_0@ == FailureModel::NotFound && *final(self)
                == *old(self),
            old(self).has(id@) && old(self).session(id@).opened ==> r is Ok && final(self).has(id@)
                && final(self).session(id@) == prepared(old(self).session(id@), len)
                && final(self).others_kept(old(self), id@),
            old(self).has(id@) && !old(self).session(id@).opened ==> r is Err && r->Err_0@
                == FailureModel::InvaildState && final(self).has(id@) && final(self).session(id@)
                == old(self).session(id@) && final(self).others_kept(old(self), id@),
    {
        match self.find(id) {
            None => Err(WorkerError::NotFound),
            Some(i) => {
                let r = self.sessions[i].prepare(len);
                proof { self.lemma_replaced(old(self), i as int); }
                r
            },
        }
    }

    /// The storage changes that a run with `clear_on_prepare` needs first, on the
    /// session under `id`.
    pub fn begin_prepare(&mut self, id: &str, clear_on_prepare: bool) -> (r: Result<
        Vec<StorageAction>,
        WorkerError,
    >)
        requires
            old(self).wf(),
        ensures
            final(self).wf(),
            !old(self).has(id@) ==> r is Err && r->Err_0@ == FailureModel::NotFound && *final(self)
                == *old(self),
            old(self).has(id@) ==> final(self).has(id@) && final(self).others_kept(old(self), id@),
            old(self).has(id@) && !old(self).session(id@).opened ==> r is Err && r->Err_0@
                == FailureModel::InvaildState && final(self).session(id@) == old(self).session(id@),
            old(self).has(id@) && old(self).session(id@).opened && clear_on_prepare ==> r is Ok
                && storage_view(r->Ok_0@) == seq![StorageModel::Delete] && final(self).session(id@)
                == closed(old(self).session(id@)),
            old(self).has(id@) && old(self).session(id@).opened && !clear_on_prepare ==> r is Ok
                && r->Ok_0@.len() == 0 && final(self).session(id@) == old(self).session(id@),
    {
        match self.find(id) {
            None => Err(WorkerError::NotFound),
            Some(i) => {
                let r = self.sessions[i].begin_prepare(clear_on_prepare);
                proof { self.lemma_replaced(old(self), i as int); }
                r
            },
        }
    }

    /// The storage changes that replace the file of the session under `id` with
    /// `data`, once the image is checked.
    pub fn begin_load(&mut self, id: &str, data: Vec<u8>) -> (r: Result<
        Vec<StorageAction>,
        WorkerError,
    >)
        requires
            old(self).wf(),
        ensures
            final(self).wf(),
            !old(self).has(id@) ==> r is Err && r->Err_0@ == FailureModel::NotFound && *final(self)
                == *old(self),
            old(self).has(id@) ==> final(self).has(id@) && final(self).others_kept(old(self), id@),
            old(self).has(id@) && import_check(data@) is Err ==> r is Err && r->Err_0@
                == FailureModel::LoadDb(import_check(data@)->Err_0.message_spec()) && final(
                self).session(id@) == old(self).session(id@),
            old(self).has(id@) && import_check(data@) is Ok ==> r is Ok && storage_view(r->Ok_0@)
                == seq![StorageModel::Delete, StorageModel::Import(data@)] && final(self).session(id@)
                == closed(old(self).session(id@)),
    {
        match self.find(id) {
            None => Err(WorkerError::NotFound),
            Some(i) => {
                let r = self.sessions[i].begin_load(data);
                proof { self.lemma_replaced(old(self), i as int); }
                r
            },
        }
    }

    /// Records that the handle of the session under `id` was closed.
    pub fn discard_handle(&mut self, id: &str) -> (r: Result<(), WorkerError>)
        requires
            old(self).wf(),
        ensures
            final(self).wf(),
            !old(self).has(id@) ==> r is Err && r->Err_0@ == FailureModel::NotFound && *final(self)
                == *old(self),
            old(self).has(id@) ==> r is Ok && final(self).has(id@) && final(self).session(id@)
                == closed(old(self).session(id@)) && final(self).others_kept(old(self), id@),
    {
        match self.find(id) {
            None => Err(WorkerError::NotFound),
            Some(i) => {
                self.sessions[i].discard_handle();
                proof { self.lemma_replaced(old(self), i as int); }
                Ok(())
            },
        }
    }

    /// Records that a fresh handle was opened for the session under `id`.
    pub fn attach_handle(&mut self, id: &str) -> (r: Result<(), WorkerError>)
        requires
            old(self).wf(),
        ensures
            final(self).wf(),
            !old(self).has(id@) ==> r is Err && r->Err_0@ == FailureModel::NotFound && *final(self)
                == *old(self),
            old(self).has(id@) ==> r is Ok && final(self).has(id@) && final(self).session(id@)
                == reopened(old(self).session(id@)) && final(self).others_kept(old(self), id@),
    {
        match self.find(id) {
            None => Err(WorkerError::NotFound),
            Some(i) => {
                self.sessions[i].attach_handle();
                proof { self.lemma_replaced(old(self), i as int); }
                Ok(())
            },
        }
    }

    /// The options of the session under `id`.
    pub fn options(&self, id: &str) -> (r: Result<OpenOptions, WorkerError>)
        requires
            self.wf(),
        ensures
            !self.has(id@) ==> r is Err && r->Err_0@ == FailureModel::NotFound,
            self.has(id@) ==> r is Ok && r->Ok_0.filename@ == self.session(id@).filename
                && r->Ok_0.persist == self.session(id@).persist,
    {
        match self.find(id) {
            None => Err(WorkerError::NotFound),
            Some(i) => Ok(
                OpenOptions {
                    filename: self.sessions[i].open_options.filename.clone(),
                    persist: self.sessions[i].open_options.persist,
                },
            ),
        }
    }

    /// Whether the session under `id` has a statement that is being stepped.
    pub fn has_current(&self, id: &str) -> (r: bool)
        requires
            self.wf(),
        ensures
            r == (self.has(id@) && match self.session(id@).execution {
                ExecModel::Prepared { current, .. } => current is Some,
                ExecModel::Idle => false,
            }),
    {
        match self.find(id) {
            None => false,
            Some(i) => match &self.sessions[i].execution {
                crate::session::Execution::Prepared { current, .. } => current.is_some(),
                crate::session::Execution::Idle => false,
            },
        }
    }

    /// Removes the session under `id`; whether there was one.
    pub fn close(&mut self, id: &str) -> (r: bool)
        requires
            old(self).wf(),
        ensures
            final(self).wf(),
            r == old(self).has(id@),
            !final(self).has(id@),
            final(self).others_kept(old(self), id@),
    {
        match self.find(id) {
            None => false,
            Some(i) => {
                let _ = self.ids.remove(i);
                let _ = self.sessions.remove(i);
                proof { self.lemma_removed(old(self), i as int, id@); }
                true
            },
        }
    }
}

} // verus!
