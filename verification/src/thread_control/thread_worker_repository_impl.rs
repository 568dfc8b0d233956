use vstd::prelude::*;
use crate::name_table::NameTable;
use crate::thread_control::thread_worker::{ThreadWorker, WorkerStart};

verus! {

/// The workers that can be started by name.
pub struct ThreadWorkerRepositoryImpl<F> {
    thread_worker_list: NameTable<ThreadWorker<F>>,
}

/// What starting the worker named `name` yields when the workers are `workers` and a started
/// worker gives its function up.
pub open spec fn start_result<F>(workers: Map<Seq<char>, Option<F>>, name: Seq<char>) -> WorkerStart<F> {
    if !workers.contains_key(name) {
        WorkerStart::NotFound
    } else {
        match workers[name] {
            Some(f) => WorkerStart::Launch(f),
            None => WorkerStart::NothingToRun,
        }
    }
}

/// The workers after starting the worker named `name`: a worker that had a function has none.
pub open spec fn after_start<F>(workers: Map<Seq<char>, Option<F>>, name: Seq<char>) -> Map<Seq<char>, Option<F>> {
    if workers.contains_key(name) && workers[name] is Some {
        workers.insert(name, None)
    } else {
        workers
    }
}

/// Starting a worker just saved with a function launches that function and leaves the worker
/// saved without one.
pub proof fn law_start_launches_saved_function<F>(workers: Map<Seq<char>, Option<F>>, name: Seq<char>, function: F)
    ensures
        start_result(workers.insert(name, Some(function)), name) == WorkerStart::Launch(function),
        after_start(workers.insert(name, Some(function)), name) == workers.insert(name, None::<F>),
{
    assert(workers.insert(name, Some(function)).insert(name, None::<F>) =~= workers.insert(name, None::<F>));
}

/// A worker's function runs at most once: starting the same name again launches nothing.
pub proof fn law_function_runs_once<F>(workers: Map<Seq<char>, Option<F>>, name: Seq<char>)
    ensures
        !(start_result(after_start(workers, name), name) is Launch),
{
}

/// A worker saved without a function runs nothing when started, and stays as it was.
pub proof fn law_start_without_function_runs_nothing<F>(workers: Map<Seq<char>, Option<F>>, name: Seq<char>)
    ensures
        start_result(workers.insert(name, None), name) is NothingToRun,
        after_start(workers.insert(name, None), name) == workers.insert(name, None::<F>),
{
}

/// After a worker is saved under a name with `function`, starting that name yields `function`
/// (or nothing to run, when none was given), and starting any other name yields what it yielded
/// before.
pub proof fn law_saved_worker_is_found<F>(before: ThreadWorkerRepositoryImpl<F>, after: ThreadWorkerRepositoryImpl<F>, name: Seq<char>, function: Option<F>, other: Seq<char>)
    requires
        after.workers() == before.workers().insert(name, function),
        other != name,
    ensures
        start_result(after.workers(), name) == match function {
            Some(f) => WorkerStart::Launch(f),
            None => WorkerStart::NothingToRun,
        },
        start_result(after.workers(), other) == start_result(before.workers(), other),
{
}

/// A call that changes what a repository stores: `save_thread_worker(name, function)` or
/// `start_thread_worker(name)`.
pub enum RepositoryCall<F> {
    Save(Seq<char>, Option<F>),
    Start(Seq<char>),
}

/// The workers after `calls` were made, in order, on a repository that held `workers`: each
/// save stores its worker, each start takes the started worker's function out.
pub open spec fn replay<F>(workers: Map<Seq<char>, Option<F>>, calls: Seq<RepositoryCall<F>>) -> Map<Seq<char>, Option<F>>
    decreases calls.len(),
{
    if calls.len() == 0 {
        workers
    } else {
        let before = replay(workers, calls.drop_last());
        match calls.last() {
            RepositoryCall::Save(name, function) => before.insert(name, function),
            RepositoryCall::Start(name) => after_start(before, name),
        }
    }
}

/// Whether `call` saves a worker under `name`.
pub open spec fn saves<F>(call: RepositoryCall<F>, name: Seq<char>) -> bool {
    call matches RepositoryCall::Save(saved, _) && saved == name
}

/// On a new repository, after any sequence of saves and starts, a worker named `name` is stored,
/// so that `start_thread_worker(name)` may be called, exactly when one of those calls saved a
/// worker under `name`; a start never removes a name.
pub proof fn law_startable_iff_saved<F>(calls: Seq<RepositoryCall<F>>, name: Seq<char>)
    ensures
        replay(Map::<Seq<char>, Option<F>>::empty(), calls).contains_key(name) <==> exists|i: int|
            0 <= i < calls.len() && #[trigger] saves(calls[i], name),
    decreases calls.len(),
{
    if calls.len() > 0 {
        let prefix = calls.drop_last();
        let last = calls.len() - 1;
        law_startable_iff_saved(prefix, name);
        assert(calls.last() == calls[last]);
        let empty = Map::<Seq<char>, Option<F>>::empty();
        let before = replay(empty, prefix);
        match calls[last] {
            RepositoryCall::Save(saved, function) => {
                assert(replay(empty, calls) == before.insert(saved, function));
                assert(saves(calls[last], name) == (saved == name));
            },
            RepositoryCall::Start(started) => {
                assert(replay(empty, calls) == after_start(before, started));
                assert(after_start(before, started).contains_key(name) == before.contains_key(name));
                assert(!saves(calls[last], name));
            },
        }
        if exists|i: int| 0 <= i < calls.len() && #[trigger] saves(calls[i], name) {
            let i = choose|i: int| 0 <= i < calls.len() && #[trigger] saves(calls[i], name);
            if i < last {
                assert(prefix[i] == calls[i]);
                assert(saves(prefix[i], name));
            }
        }
        if exists|i: int| 0 <= i < prefix.len() && #[trigger] saves(prefix[i], name) {
            let i = choose|i: int| 0 <= i < prefix.len() && #[trigger] saves(prefix[i], name);
            assert(calls[i] == prefix[i]);
            assert(saves(calls[i], name));
        }
    }
}

impl<F> ThreadWorkerRepositoryImpl<F> {
    #[verifier::type_invariant]
    closed spec fn inv(self) -> bool {
        forall|name: Seq<char>| #[trigger]
            self.thread_worker_list@.contains_key(name) ==> self.thread_worker_list@[name].worker_name()
                == name
    }

    /// The stored workers, each given by the function it holds, under its name.
    pub closed spec fn workers(&self) -> Map<Seq<char>, Option<F>> {
        self.thread_worker_list@.map_values(|worker: ThreadWorker<F>| worker.function())
    }

    /// An empty repository.
    pub fn new() -> (repository: Self)
        ensures
            repository.workers() == Map::<Seq<char>, Option<F>>::empty(),
    {
        let repository = ThreadWorkerRepositoryImpl { thread_worker_list: NameTable::new() };
        assert(repository.workers() =~= Map::<Seq<char>, Option<F>>::empty());
        repository
    }

    /// Stores a worker named `name` with the given function, replacing any worker of that name.
    ///
    /// A function must be given.
    pub fn save_thread_worker(&mut self, name: &str, will_be_execute_function: Option<F>)
        requires
            will_be_execute_function is Some,
        ensures
            final(self).workers() == old(self).workers().insert(name@, will_be_execute_function),
    {
        self.store_worker(name, will_be_execute_function);
    }

    /// Stores a worker named `name` with the given function, or with none, replacing any worker
    /// of that name.
    pub(crate) fn store_worker(&mut self, name: &str, will_be_execute_function: Option<F>)
        ensures
            final(self).workers() == old(self).workers().insert(name@, will_be_execute_function),
    {
        proof {
            use_type_invariant(&*self);
        }
        let worker = ThreadWorker::new(name, will_be_execute_function);
        let mut list = NameTable::new();
        std::mem::swap(&mut list, &mut self.thread_worker_list);
        let ghost old_list = list@;
        list.insert(name.to_owned(), worker);
        assert(list@.map_values(|w: ThreadWorker<F>| w.function()) =~= old_list.map_values(
            |w: ThreadWorker<F>| w.function(),
        ).insert(name@, will_be_execute_function));
        self.thread_worker_list = list;
    }

    /// Whether a worker named `name` is stored.
    pub fn contains_worker(&self, name: &str) -> (found: bool)
        ensures
            found == self.workers().contains_key(name@),
    {
        self.thread_worker_list.contains(name)
    }

    /// Starts the worker named `name`, which must be stored: its function is taken out of it, to
    /// be run once.
    pub fn start_thread_worker(&mut self, name: &str) -> (start: WorkerStart<F>)
        requires
            old(self).workers().contains_key(name@),
        ensures
            start == start_result(old(self).workers(), name@),
            final(self).workers() == after_start(old(self).workers(), name@),
    {
        proof {
            use_type_invariant(&*self);
        }
        let mut list = NameTable::new();
        std::mem::swap(&mut list, &mut self.thread_worker_list);
        let ghost old_list = list@;
        let start = match list.remove(name) {
            None => WorkerStart::NotFound,
            Some(mut worker) => {
                let function = worker.take_function();
                let start = match function {
                    Some(f) => WorkerStart::Launch(f),
                    None => WorkerStart::NothingToRun,
                };
                list.insert(name.to_owned(), worker);
                start
            },
        };
        proof {
            if old_list.contains_key(name@) {
                assert(list@ =~= old_list.remove(name@).insert(name@, list@[name@]));
            } else {
                assert(list@ =~= old_list.remove(name@));
                assert(old_list.remove(name@) =~= old_list);
            }
        }
        assert(list@.map_values(|w: ThreadWorker<F>| w.function()) =~= if old_list.contains_key(name@) {
            old_list.map_values(|w: ThreadWorker<F>| w.function()).insert(name@, None)
        } else {
            old_list.map_values(|w: ThreadWorker<F>| w.function())
        });
        self.thread_worker_list = list;
        start
    }
}

impl<F: Clone> ThreadWorkerRepositoryImpl<F> {
    /// A copy of the worker stored under `name`, if any.
    pub fn find_by_name(&self, name: &str) -> (worker: Option<ThreadWorker<F>>)
        ensures
            match worker {
                Some(w) => {
                    &&& self.workers().contains_key(name@)
                    &&& w.worker_name() == name@
                    &&& (w.function() is Some <==> self.workers()[name@] is Some)
                    &&& (w.function() matches Some(f) ==> cloned(self.workers()[name@]->0, f))
                },
                None => !self.workers().contains_key(name@),
            },
    {
        proof {
            use_type_invariant(self);
        }
        match self.thread_worker_list.get(name) {
            Some(worker) => Some(worker.duplicate()),
            None => None,
        }
    }

    /// What starting the worker named `name` runs, when its function is kept for later starts:
    /// a clone of the function is handed out and the repository is left as it is.
    pub fn function_to_run(&self, name: &str) -> (start: WorkerStart<F>)
        ensures
            !self.workers().contains_key(name@) ==> start is NotFound,
            self.workers().contains_key(name@) ==> match self.workers()[name@] {
                Some(f) => start matches WorkerStart::Launch(g) && cloned(f, g),
                None => start is NothingToRun,
            },
    {
        match self.thread_worker_list.get(name) {
            None => WorkerStart::NotFound,
            Some(worker) => match worker.get_will_be_execute_function() {
                Some(f) => WorkerStart::Launch(f),
                None => WorkerStart::NothingToRun,
            },
        }
    }
}

} // verus!
