//! The authoritative mapping from model name to worker.  At most one
//! worker exists per model name; creating an existing name is rejected,
//! never silently replaced.

use vstd::prelude::*;

use crate::errors::DispatchError;
use crate::worker::{same_config, Worker};

verus! {

/// The registry of workers, one per model name.
#[derive(Debug)]
pub struct Registry {
    pub workers: Vec<Worker>,
}

impl Registry {
    /// Some worker is registered under this model name.
    pub open spec fn contains_name(self, name: Seq<char>) -> bool {
        exists|i: int| 0 <= i < self.workers@.len() && self.workers@[i].model_name@ == name
    }

    /// Model names are pairwise distinct.
    pub open spec fn wf(self) -> bool {
        forall|i: int, j: int|
            0 <= i < j < self.workers@.len()
                ==> self.workers@[i].model_name@ != self.workers@[j].model_name@
    }

    pub fn new() -> (r: Registry)
        ensures
            r.workers@ =~= Seq::<Worker>::empty(),
            r.wf(),
    {
        Registry { workers: Vec::new() }
    }

    /// Find the worker registered under this model name.
    pub fn lookup(&self, model_name: &String) -> (r: Option<usize>)
        ensures
            match r {
                Some(i) => i < self.workers@.len()
                    && self.workers@[i as int].model_name@ == model_name@,
                None => !self.contains_name(model_name@),
            },
    {
        let mut i: usize = 0;
        while i < self.workers.len()
            invariant
                i <= self.workers.len(),
                forall|k: int| 0 <= k < i ==> self.workers@[k].model_name@ != model_name@,
            decreases self.workers.len() - i,
        {
            if self.workers[i].model_name == *model_name {
                return Some(i);
            }
            i += 1;
        }
        None
    }

    /// Whether a worker is registered under this model name.
    pub fn contains(&self, model_name: &String) -> (r: bool)
        ensures
            r == self.contains_name(model_name@),
    {
        match self.lookup(model_name) {
            Some(_) => {
                assert(self.contains_name(model_name@));
                true
            },
            None => false,
        }
    }

    /// Register a fresh worker under a model name.  A name already present
    /// is rejected: the registry is left untouched and the caller gets
    /// `AlreadyExists`.  Otherwise the new worker is appended in its
    /// not-yet-started state and every other entry is kept as it was.
    pub fn create_worker(
        &mut self,
        model_name: String,
        model_path: String,
        host: String,
        zmq_port: u16,
    ) -> (r: Result<(), DispatchError>)
        requires
            old(self).wf(),
        ensures
            final(self).wf(),
            r is Err <==> old(self).contains_name(model_name@),
            r matches Err(e) ==> e == DispatchError::AlreadyExists
                && *final(self) == *old(self),
            r is Ok ==> final(self).workers@.len() == old(self).workers@.len() + 1
                && final(self).workers@.subrange(0, old(self).workers@.len() as int)
                    == old(self).workers@
                && final(self).workers@.last().is_fresh(
                    model_name@, host@, zmq_port, model_path@)
                && final(self).contains_name(model_name@),
    {
        if self.contains(&model_name) {
            return Err(DispatchError::AlreadyExists);
        }
        let ghost old_workers = self.workers@;
        let name_view = Ghost(model_name@);
        let w = Worker::new(model_name, host, zmq_port, model_path);
        self.workers.push(w);
        proof {
            assert(self.workers@.subrange(0, old_workers.len() as int) =~= old_workers);
            assert(self.workers@.last().model_name@ == name_view@);
            assert forall|i: int, j: int|
                0 <= i < j < self.workers@.len()
                    implies self.workers@[i].model_name@ != self.workers@[j].model_name@ by {
                if j == old_workers.len() as int {
                    assert(self.workers@[i] == old_workers[i]);
                }
            }
            assert(self.contains_name(name_view@));
        }
        Ok(())
    }

    /// Ask a model's execution loop to exit: set its worker's stop flag.
    /// The entry stays in place until the loop has been joined and
    /// [`Registry::remove_worker`] is called.
    pub fn stop_worker(&mut self, model_name: &String) -> (r: Result<(), DispatchError>)
        ensures
            r is Err <==> !old(self).contains_name(model_name@),
            r matches Err(e) ==> e == DispatchError::NotFound && *final(self) == *old(self),
            r is Ok ==> final(self).workers@.len() == old(self).workers@.len()
                && (exists|i: int| 0 <= i < old(self).workers@.len()
                    && old(self).workers@[i].model_name@ == model_name@
                    && final(self).workers@[i].stop_requested
                    && same_config(final(self).workers@[i], old(self).workers@[i])
                    && final(self).workers@[i].input_queue
                        == old(self).workers@[i].input_queue
                    && final(self).workers@[i].output_queue
                        == old(self).workers@[i].output_queue
                    && final(self).workers@[i].phase == old(self).workers@[i].phase
                    && final(self).workers@[i].process_present
                        == old(self).workers@[i].process_present
                    && forall|j: int| 0 <= j < old(self).workers@.len() && j != i
                        ==> final(self).workers@[j] == old(self).workers@[j]),
    {
        match self.lookup(model_name) {
            None => Err(DispatchError::NotFound),
            Some(i) => {
                proof {
                    assert(self.contains_name(model_name@));
                }
                let mut w = self.workers.remove(i);
                w.request_stop();
                self.workers.insert(i, w);
                proof {
                    assert(0 <= i < old(self).workers@.len()
                        && old(self).workers@[i as int].model_name@ == model_name@
                        && self.workers@[i as int].stop_requested
                        && same_config(self.workers@[i as int], old(self).workers@[i as int])
                        && forall|j: int| 0 <= j < old(self).workers@.len() && j != i
                            ==> self.workers@[j] == old(self).workers@[j]);
                }
                Ok(())
            },
        }
    }

    /// Drop a model's registry entry and hand its worker out, so the
    /// caller can release the process handle exactly once.  To be called
    /// after the execution loop was asked to stop and joined.  An unknown
    /// name fails with `NotFound` and changes nothing.
    pub fn remove_worker(&mut self, model_name: &String) -> (r: Result<Worker, DispatchError>)
        requires
            old(self).wf(),
        ensures
            final(self).wf(),
            r is Err <==> !old(self).contains_name(model_name@),
            r matches Err(e) ==> e == DispatchError::NotFound && *final(self) == *old(self),
            r matches Ok(w) ==> w.model_name@ == model_name@
                && (exists|i: int| 0 <= i < old(self).workers@.len()
                    && w == old(self).workers@[i]
                    && final(self).workers@ == old(self).workers@.remove(i))
                && !final(self).contains_name(model_name@),
    {
        match self.lookup(model_name) {
            None => Err(DispatchError::NotFound),
            Some(i) => {
                proof {
                    assert(self.contains_name(model_name@));
                }
                let w = self.workers.remove(i);
                proof {
                    assert forall|a: int, b: int|
                        0 <= a < b < self.workers@.len()
                            implies self.workers@[a].model_name@
                                != self.workers@[b].model_name@ by {
                        assert(self.workers@[a] == if a < i {
                            old(self).workers@[a]
                        } else {
                            old(self).workers@[a + 1]
                        });
                        assert(self.workers@[b] == if b < i {
                            old(self).workers@[b]
                        } else {
                            old(self).workers@[b + 1]
                        });
                    }
                    assert forall|k: int| 0 <= k < self.workers@.len()
                        implies self.workers@[k].model_name@ != model_name@ by {
                        if k < i {
                            assert(self.workers@[k] == old(self).workers@[k]);
                        } else {
                            assert(self.workers@[k] == old(self).workers@[k + 1]);
                        }
                    }
                }
                Ok(w)
            },
        }
    }
}

/// Law: two distinct model names are served by two distinct workers, so a
/// prediction against one model never touches the queues of another; the
/// serialization point of a model is its own worker alone.
pub proof fn lemma_distinct_models_distinct_workers(reg: Registry, i: int, j: int)
    requires
        0 <= i < reg.workers@.len(),
        0 <= j < reg.workers@.len(),
        reg.workers@[i].model_name@ != reg.workers@[j].model_name@,
    ensures
        i != j,
{
}

/// Law: a model name not yet registered can be registered once, and is
/// present thereafter, so a second registration of the same name must be
/// rejected with `AlreadyExists` by `create_worker`'s contract.
pub proof fn lemma_create_worker_once(r0: Registry, r1: Registry, name: Seq<char>)
    requires
        !r0.contains_name(name),
        r1.workers@.len() == r0.workers@.len() + 1,
        r1.workers@.subrange(0, r0.workers@.len() as int) == r0.workers@,
        r1.workers@.last().model_name@ == name,
    ensures
        r1.contains_name(name),
{
    assert(r1.workers@[r0.workers@.len() as int].model_name@ == name);
}

} // verus!
