use vstd::prelude::*;
use vstd::std_specs::cmp::PartialEqSpecImpl;

verus! {

/// A worker known by its name.
#[derive(Debug)]
pub struct Worker {
    name: String,
}

impl Worker {
    /// The worker's name.
    pub closed spec fn worker_name(&self) -> Seq<char> {
        self.name@
    }

    /// A worker named `name`.
    pub fn new(name: &str) -> (worker: Self)
        ensures
            worker.worker_name() == name@,
    {
        Worker { name: name.to_owned() }
    }

    /// The worker's name.
    pub fn name(&self) -> (name: &str)
        ensures
            name@ == self.worker_name(),
    {
        self.name.as_str()
    }

    /// The worker's name, as the string the worker stands for.
    pub fn as_ref(&self) -> (name: &str)
        ensures
            name@ == self.worker_name(),
    {
        self.name.as_str()
    }
}

impl Clone for Worker {
    fn clone(&self) -> (worker: Self)
        ensures
            worker == *self,
    {
        Worker { name: self.name.clone() }
    }
}

/// Two workers are equal when their names are.
impl PartialEq for Worker {
    fn eq(&self, other: &Self) -> (equal: bool) {
        self.name == other.name
    }
}

impl PartialEqSpecImpl for Worker {
    open spec fn obeys_eq_spec() -> bool {
        true
    }

    open spec fn eq_spec(&self, other: &Self) -> bool {
        self.worker_name() == other.worker_name()
    }
}

/// Two workers compare equal exactly when their names are the same sequence of characters:
/// workers made from the names `a` and `b` are equal if and only if `a` and `b` are.
pub proof fn law_worker_equality_is_name_equality(x: Worker, y: Worker, a: Seq<char>, b: Seq<char>)
    requires
        x.worker_name() == a,
        y.worker_name() == b,
    ensures
        vstd::std_specs::cmp::PartialEqSpec::eq_spec(&x, &y) <==> a =~= b,
        vstd::std_specs::cmp::PartialEqSpec::eq_spec(&x, &y) == vstd::std_specs::cmp::PartialEqSpec::eq_spec(&y, &x),
        vstd::std_specs::cmp::PartialEqSpec::eq_spec(&x, &x),
{
}

} // verus!
