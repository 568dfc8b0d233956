use vstd::prelude::*;
use vstd::std_specs::cmp::PartialEqSpecImpl;

verus! {

/// Holds the server's listener once a bind has succeeded.
///
/// `L` is the listener the runtime bound; the repository only keeps it.
pub struct ServerSocketRepositoryImpl<L> {
    listener: Option<L>,
}

impl<L> ServerSocketRepositoryImpl<L> {
    /// The listener held, if a bind has succeeded.
    pub closed spec fn listener(&self) -> Option<L> {
        self.listener
    }

    /// A repository that holds no listener yet.
    pub fn new() -> (repository: Self)
        ensures
            repository.listener() is None,
    {
        ServerSocketRepositoryImpl { listener: None }
    }

    /// Takes in the outcome of binding the server socket: a bound listener replaces the one
    /// held before and the answer is `Ok(())`; a failed bind leaves the repository as it was and
    /// passes the error on.
    pub fn bind_socket<E>(&mut self, bound: Result<L, E>) -> (outcome: Result<(), E>)
        ensures
            match bound {
                Ok(listener) => outcome is Ok && final(self).listener() == Some(listener),
                Err(error) => outcome == Err::<(), E>(error) && final(self).listener() == old(self).listener(),
            },
    {
        match bound {
            Ok(listener) => {
                self.listener = Some(listener);
                Ok(())
            },
            Err(error) => Err(error),
        }
    }

    /// The listener held, if any.
    pub fn get_listener(&self) -> (listener: Option<&L>)
        ensures
            match listener {
                Some(l) => self.listener() == Some(*l),
                None => self.listener() is None,
            },
    {
        self.listener.as_ref()
    }
}

/// When `==` holds between two repositories: neither holds a listener.
pub open spec fn repositories_equal<L>(a: ServerSocketRepositoryImpl<L>, b: ServerSocketRepositoryImpl<L>) -> bool {
    a.listener() is None && b.listener() is None
}

/// A copy of the repository never carries the listener over: it starts unbound.
impl<L> Clone for ServerSocketRepositoryImpl<L> {
    fn clone(&self) -> (copy: Self)
        ensures
            copy.listener() is None,
    {
        ServerSocketRepositoryImpl { listener: None }
    }
}

/// Two repositories are equal exactly when neither holds a listener; one that holds a listener
/// is not equal to any repository, itself included.
impl<L> PartialEq for ServerSocketRepositoryImpl<L> {
    fn eq(&self, other: &Self) -> (equal: bool) {
        self.listener.is_none() && other.listener.is_none()
    }
}

impl<L> Eq for ServerSocketRepositoryImpl<L> {

}

impl<L> PartialEqSpecImpl for ServerSocketRepositoryImpl<L> {
    open spec fn obeys_eq_spec() -> bool {
        true
    }

    open spec fn eq_spec(&self, other: &Self) -> bool {
        repositories_equal(*self, *other)
    }
}


/// A repository is equal to an unbound one exactly when it is unbound itself; a bound repository
/// is not even equal to itself.
pub proof fn law_equal_only_when_unbound<L>(a: ServerSocketRepositoryImpl<L>, b: ServerSocketRepositoryImpl<L>)
    ensures
        b.listener() is None ==> (repositories_equal(a, b) <==> a.listener() is None),
        a.listener() is Some ==> !repositories_equal(a, a),
{
}

/// Equality of repositories does not depend on the side: it is symmetric, a repository that
/// holds a listener equals no repository on either side, and two repositories without a
/// listener are equal.
pub proof fn law_equality_symmetric_and_unbound<L>(a: ServerSocketRepositoryImpl<L>, b: ServerSocketRepositoryImpl<L>)
    ensures
        vstd::std_specs::cmp::PartialEqSpec::eq_spec(&a, &b) == vstd::std_specs::cmp::PartialEqSpec::eq_spec(&b, &a),
        a.listener() is Some ==> !vstd::std_specs::cmp::PartialEqSpec::eq_spec(&a, &b) && !vstd::std_specs::cmp::PartialEqSpec::eq_spec(&b, &a),
        b.listener() is Some ==> !vstd::std_specs::cmp::PartialEqSpec::eq_spec(&a, &b) && !vstd::std_specs::cmp::PartialEqSpec::eq_spec(&b, &a),
        a.listener() is None && b.listener() is None ==> vstd::std_specs::cmp::PartialEqSpec::eq_spec(&a, &b),
{
}

} // verus!
