use vstd::prelude::*;
use crate::name_table::NameTable;
use crate::thread_manage::worker::Worker;

verus! {

/// The service that creates workers and finds them again by name; it may hold no repository,
/// and then it stores nothing and finds nothing.
pub struct WorkerServiceImpl {
    repository: Option<NameTable<Worker>>,
}

impl WorkerServiceImpl {
    /// The workers of the repository under their names, or `None` when there is no repository.
    pub closed spec fn workers(&self) -> Option<Map<Seq<char>, Worker>> {
        match self.repository {
            Some(table) => Some(table@),
            None => None,
        }
    }

    /// What `get_thread(name)` finds: the worker stored under `name`, or `None` when there is
    /// none or no repository.
    pub open spec fn stored(&self, name: Seq<char>) -> Option<Worker> {
        match self.workers() {
            Some(m) => if m.contains_key(name) {
                Some(m[name])
            } else {
                None
            },
            None => None,
        }
    }

    /// A service in front of `repository`.
    pub fn new(repository: Option<NameTable<Worker>>) -> (service: Self)
        ensures
            service.workers() == match repository {
                Some(table) => Some(table@),
                None => None::<Map<Seq<char>, Worker>>,
            },
    {
        WorkerServiceImpl { repository }
    }

    /// Stores a worker named `name` under that name; without a repository nothing is stored.
    pub fn create_thread(&mut self, name: &str)
        ensures
            match old(self).workers() {
                Some(m) => final(self).workers() matches Some(m2) && m2 == m.insert(name@, m2[name@])
                    && m2[name@].worker_name() == name@,
                None => final(self).workers() is None,
            },
    {
        let mut repository = None;
        std::mem::swap(&mut repository, &mut self.repository);
        if let Some(mut table) = repository {
            table.insert(name.to_owned(), Worker::new(name));
            self.repository = Some(table);
        }
    }

    /// A copy of the worker stored under `name`, if there is a repository and it holds one.
    pub fn get_thread(&self, name: &str) -> (worker: Option<Worker>)
        ensures
            worker == self.stored(name@),
    {
        match &self.repository {
            Some(table) => match table.get(name) {
                Some(worker) => Some(worker.clone()),
                None => None,
            },
            None => None,
        }
    }
}

/// With a repository, a `get_thread(name)` after `create_thread(name)` finds a worker named
/// `name`; `get_thread` of every other name finds what it found before.
pub proof fn law_created_worker_is_found(before: WorkerServiceImpl, after: WorkerServiceImpl, name: Seq<char>, other: Seq<char>)
    requires
        before.workers() is Some,
        after.workers() matches Some(m2) && m2 == before.workers()->0.insert(name, m2[name])
            && m2[name].worker_name() == name,
        other != name,
    ensures
        after.stored(name) matches Some(w) && w.worker_name() == name,
        after.stored(other) == before.stored(other),
{
}

} // verus!
