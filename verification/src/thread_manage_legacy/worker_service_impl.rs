use vstd::prelude::*;
use crate::thread_control::thread_worker::{ThreadWorker, WorkerStart};
use crate::thread_control::thread_worker_repository_impl::ThreadWorkerRepositoryImpl;

verus! {

/// The service that creates workers with an optional function, finds them by name and starts
/// them; a worker's function stays with it, so a worker can be started again.
pub struct WorkerServiceImpl<F> {
    repository: Option<ThreadWorkerRepositoryImpl<F>>,
}

impl<F> WorkerServiceImpl<F> {
    /// The workers of the repository, or `None` when there is no repository.
    pub closed spec fn workers(&self) -> Option<Map<Seq<char>, Option<F>>> {
        match self.repository {
            Some(repository) => Some(repository.workers()),
            None => None,
        }
    }

    /// A service in front of `repository`.
    pub fn new(repository: Option<ThreadWorkerRepositoryImpl<F>>) -> (service: Self)
        ensures
            service.workers() == match repository {
                Some(r) => Some(r.workers()),
                None => None::<Map<Seq<char>, Option<F>>>,
            },
    {
        WorkerServiceImpl { repository }
    }

    /// Whether the service holds a repository.
    pub fn has_repository(&self) -> (present: bool)
        ensures
            present == self.workers() is Some,
    {
        self.repository.is_some()
    }

    /// Stores a worker named `name` with `custom_function`; without a repository nothing is stored.
    pub fn create_thread(&mut self, name: &str, custom_function: Option<F>)
        ensures
            final(self).workers() == match old(self).workers() {
                Some(w) => Some(w.insert(name@, custom_function)),
                None => None::<Map<Seq<char>, Option<F>>>,
            },
    {
        if let Some(repository) = &mut self.repository {
            repository.store_worker(name, custom_function);
        }
    }
}

impl<F: Clone> WorkerServiceImpl<F> {
    /// A copy of the worker named `name`, if there is a repository and it holds one.
    pub fn get_thread(&self, name: &str) -> (worker: Option<ThreadWorker<F>>)
        ensures
            match worker {
                Some(w) => {
                    &&& self.workers() matches Some(m)
                    &&& m.contains_key(name@)
                    &&& w.worker_name() == name@
                    &&& (w.function() is Some <==> m[name@] is Some)
                    &&& (w.function() matches Some(f) ==> cloned(m[name@]->0, f))
                },
                None => !(self.workers() matches Some(m) && m.contains_key(name@)),
            },
    {
        match &self.repository {
            Some(repository) => repository.find_by_name(name),
            None => None,
        }
    }

    /// What starting the worker named `name` runs: a clone of its function, which the worker
    /// keeps. There must be a repository.
    pub fn start_worker(&self, name: &str) -> (start: WorkerStart<F>)
        requires
            self.workers() is Some,
        ensures
            match self.workers() {
                None => start is RepositoryMissing,
                Some(w) => {
                    &&& !w.contains_key(name@) ==> start is NotFound
                    &&& w.contains_key(name@) ==> match w[name@] {
                        Some(f) => start matches WorkerStart::Launch(g) && cloned(f, g),
                        None => start is NothingToRun,
                    }
                },
            },
    {
        match &self.repository {
            Some(repository) => repository.function_to_run(name),
            None => WorkerStart::RepositoryMissing,
        }
    }
}

} // verus!
