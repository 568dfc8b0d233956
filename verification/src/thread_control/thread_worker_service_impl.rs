use vstd::prelude::*;
use crate::thread_control::thread_worker::{ThreadWorker, WorkerStart};
use crate::thread_control::thread_worker_repository_impl::{after_start, start_result, ThreadWorkerRepositoryImpl};

verus! {

/// The service in front of the worker repository; it may be created before a repository is
/// attached, and then it holds none.
pub struct ThreadWorkerServiceImpl<F> {
    repository: Option<ThreadWorkerRepositoryImpl<F>>,
}

impl<F> ThreadWorkerServiceImpl<F> {
    /// The workers of the attached repository, or `None` when there is no repository.
    pub closed spec fn workers(&self) -> Option<Map<Seq<char>, Option<F>>> {
        match self.repository {
            Some(repository) => Some(repository.workers()),
            None => None,
        }
    }

    /// A service in front of `repository`.
    pub fn new(repository: Option<ThreadWorkerRepositoryImpl<F>>) -> (service: Self)
        ensures
            service.workers() == match repository {
                Some(r) => Some(r.workers()),
                None => None::<Map<Seq<char>, Option<F>>>,
            },
    {
        ThreadWorkerServiceImpl { repository }
    }

    /// Stores a worker named `name` with `custom_function`; without a repository nothing is stored.
    pub fn create_thread(&mut self, name: &str, custom_function: Option<F>)
        ensures
            final(self).workers() == match old(self).workers() {
                Some(w) => Some(w.insert(name@, custom_function)),
                None => None::<Map<Seq<char>, Option<F>>>,
            },
    {
        if let Some(repository) = &mut self.repository {
            repository.store_worker(name, custom_function);
        }
    }

    /// Whether `start_worker` may be called for `name`: there is no repository, or its
    /// repository holds a worker of that name.
    pub fn can_start(&self, name: &str) -> (allowed: bool)
        ensures
            allowed == match self.workers() {
                Some(w) => w.contains_key(name@),
                None => true,
            },
    {
        match &self.repository {
            Some(repository) => repository.contains_worker(name),
            None => true,
        }
    }

    /// Starts the worker named `name` (see the repository's `start_thread_worker`), which the
    /// repository must hold; without a repository the answer is `RepositoryMissing`.
    pub fn start_worker(&mut self, name: &str) -> (start: WorkerStart<F>)
        requires
            old(self).workers() matches Some(w) ==> w.contains_key(name@),
        ensures
            match old(self).workers() {
                None => start is RepositoryMissing && final(self).workers() is None,
                Some(w) => start == start_result(w, name@) && final(self).workers() == Some(
                    after_start(w, name@),
                ),
            },
    {
        match &mut self.repository {
            Some(repository) => repository.start_thread_worker(name),
            None => WorkerStart::RepositoryMissing,
        }
    }
}

impl<F: Clone> ThreadWorkerServiceImpl<F> {
    /// A copy of the worker named `name`, if there is a repository and it holds one.
    pub fn get_thread(&self, name: &str) -> (worker: Option<ThreadWorker<F>>)
        ensures
            match worker {
                Some(w) => {
                    &&& self.workers() matches Some(m)
                    &&& m.contains_key(name@)
                    &&& w.worker_name() == name@
                    &&& (w.function() is Some <==> m[name@] is Some)
                    &&& (w.function() matches Some(f) ==> cloned(m[name@]->0, f))
                },
                None => !(self.workers() matches Some(m) && m.contains_key(name@)),
            },
    {
        match &self.repository {
            Some(repository) => repository.find_by_name(name),
            None => None,
        }
    }
}

} // verus!
