use vstd::prelude::*;

verus! {

/// The authority status of a delegated, replicated entity as seen by this
/// client.
#[derive(Clone, Copy, PartialEq, Eq, Structural, Debug)]
pub enum AuthStatus {
    /// No host holds authority over the entity.
    Available,
    /// This client asked for authority; the grant has not arrived yet.
    Requested,
    /// This client holds authority over the entity.
    Granted,
    /// This client is releasing its authority.
    Releasing,
    /// Another host was granted authority first.
    Denied,
}

impl AuthStatus {
    pub fn is_available(&self) -> (r: bool)
        ensures
            r == (*self == AuthStatus::Available),
    {
        matches!(self, AuthStatus::Available)
    }

    pub fn is_requested(&self) -> (r: bool)
        ensures
            r == (*self == AuthStatus::Requested),
    {
        matches!(self, AuthStatus::Requested)
    }

    pub fn is_granted(&self) -> (r: bool)
        ensures
            r == (*self == AuthStatus::Granted),
    {
        matches!(self, AuthStatus::Granted)
    }

    pub fn is_releasing(&self) -> (r: bool)
        ensures
            r == (*self == AuthStatus::Releasing),
    {
        matches!(self, AuthStatus::Releasing)
    }

    pub fn is_denied(&self) -> (r: bool)
        ensures
            r == (*self == AuthStatus::Denied),
    {
        matches!(self, AuthStatus::Denied)
    }
}

/// An undo or redo action that depends on some entities may only be used when
/// every one of them is known and free of any authority.
pub fn should_be_enabled(statuses: &Vec<Option<AuthStatus>>) -> (r: bool)
    ensures
        r == (forall|i: int| 0 <= i < statuses@.len() ==> statuses@[i] == Some(AuthStatus::Available)),
{
    let mut i: usize = 0;
    while i < statuses.len()
        invariant
            i <= statuses@.len(),
            forall|j: int| 0 <= j < i ==> statuses@[j] == Some(AuthStatus::Available),
        decreases statuses@.len() - i,
    {
        match statuses[i] {
            Some(AuthStatus::Available) => {},
            _ => {
                return false;
            },
        }
        i = i + 1;
    }
    true
}

/// What to do when the user asks to delete a networked entity.
#[derive(Clone, Copy, PartialEq, Eq, Structural, Debug)]
pub enum DeleteAuthDecision {
    /// Another host holds the entity (or is taking it): nothing is done.
    Refuse,
    /// The deletion goes ahead; authority is asked for first when this client
    /// does not hold it yet.
    Delete { request_authority: bool },
}

/// Decides whether an entity with the given authority status may be deleted.
pub fn delete_auth_decision(status: AuthStatus) -> (d: DeleteAuthDecision)
    ensures
        d == (if status != AuthStatus::Granted && status != AuthStatus::Available {
            DeleteAuthDecision::Refuse
        } else {
            DeleteAuthDecision::Delete { request_authority: status != AuthStatus::Granted }
        }),
{
    if !status.is_granted() && !status.is_available() {
        DeleteAuthDecision::Refuse
    } else {
        DeleteAuthDecision::Delete { request_authority: !status.is_granted() }
    }
}

/// Whether this client may go on changing an entity: only while it asked for
/// or holds the entity's authority.
pub fn may_mutate(status: AuthStatus) -> (r: bool)
    ensures
        r == (status == AuthStatus::Requested || status == AuthStatus::Granted),
{
    status.is_requested() || status.is_granted()
}

} // verus!
