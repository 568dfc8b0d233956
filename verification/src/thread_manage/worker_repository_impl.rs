use vstd::prelude::*;
use std::collections::HashMap;
use crate::thread_manage::worker::Worker;

verus! {

broadcast use vstd::std_specs::hash::group_hash_axioms;

/// The workers known by the thread they were saved for, each thread given by its numeric id.
///
/// A value of this type is one map of workers. The process-wide map that every repository
/// handle shares (each handle made anew or cloned sees the same workers) is one value of this
/// type behind a lock, which the program holds; the handles are the program's.
pub struct WorkerRepositoryImpl {
    threads: HashMap<u64, Worker>,
}

impl WorkerRepositoryImpl {
    /// The name of the worker saved for each thread.
    pub closed spec fn threads(&self) -> Map<u64, Seq<char>> {
        self.threads@.map_values(|worker: Worker| worker.worker_name())
    }

    /// What `get_thread(thread_id)` finds: the name of the worker saved for that thread, or
    /// `None`.
    pub open spec fn saved_name(&self, thread_id: u64) -> Option<Seq<char>> {
        if self.threads().contains_key(thread_id) {
            Some(self.threads()[thread_id])
        } else {
            None
        }
    }

    /// A map without workers; the program makes the one map its handles share with this.
    pub fn empty() -> (repository: Self)
        ensures
            repository.threads() == Map::<u64, Seq<char>>::empty(),
    {
        let repository = WorkerRepositoryImpl { threads: HashMap::new() };
        assert(repository.threads() =~= Map::<u64, Seq<char>>::empty());
        repository
    }

    /// Saves a worker named `name` for the thread `thread_id`, replacing the one saved before.
    pub fn save_thread(&mut self, thread_id: u64, name: &str)
        ensures
            final(self).threads() == old(self).threads().insert(thread_id, name@),
    {
        let worker = Worker::new(name);
        self.threads.insert(thread_id, worker);
        assert(self.threads() =~= old(self).threads().insert(thread_id, name@));
    }

    /// A copy of the worker saved for the thread `thread_id`, if any.
    pub fn get_thread(&self, thread_id: u64) -> (worker: Option<Worker>)
        ensures
            match worker {
                Some(w) => self.saved_name(thread_id) == Some(w.worker_name()),
                None => self.saved_name(thread_id) is None,
            },
    {
        match self.threads.get(&thread_id) {
            Some(worker) => Some(worker.clone()),
            None => None,
        }
    }
}

/// A `get_thread(thread_id)` after `save_thread(thread_id, name)` finds a worker named `name`;
/// `get_thread` of every other thread finds what it found before.
pub proof fn law_saved_thread_is_found(before: WorkerRepositoryImpl, after: WorkerRepositoryImpl, thread_id: u64, name: Seq<char>, other: u64)
    requires
        after.threads() == before.threads().insert(thread_id, name),
        other != thread_id,
    ensures
        after.saved_name(thread_id) == Some(name),
        after.saved_name(other) == before.saved_name(other),
{
}

} // verus!
