//! The server's connection registry: one slot, holding the active connection.
//!
//! Each registration gets a fresh number. A new connection always replaces the
//! one before it, and what a replaced connection delivers afterwards never
//! reaches the application.

use vstd::prelude::*;
use crate::connection::ConnectionError;

verus! {

/// The single active connection of a server, if any, with the number it was
/// registered under.
pub struct Registry<C> {
    slot: Option<(u64, C)>,
    next_id: u64,
}

/// The value that a receive on connection `id` hands to the application,
/// given the slot at that moment.
pub open spec fn delivered<C, T>(slot: Option<(u64, C)>, id: u64, result: Result<T, ConnectionError>) -> Option<T> {
    match result {
        Ok(v) => if slot matches Some((a, _)) && a == id {
            Some(v)
        } else {
            None
        },
        Err(_) => None,
    }
}

/// The slot after a receive on connection `id` ended with `result`: a failure
/// of the active connection empties it; anything else leaves it.
pub open spec fn slot_after<C, T>(slot: Option<(u64, C)>, id: u64, result: Result<T, ConnectionError>) -> Option<(u64, C)> {
    match result {
        Ok(_) => slot,
        Err(_) => if slot matches Some((a, _)) && a == id {
            None
        } else {
            slot
        },
    }
}

impl<C> Registry<C> {
    #[verifier::type_invariant]
    spec fn inv(self) -> bool {
        self.slot matches Some((id, _)) ==> id < self.next_id
    }

    /// The active connection and its number.
    pub closed spec fn spec_slot(&self) -> Option<(u64, C)> {
        self.slot
    }

    /// The number the next registration gets.
    pub closed spec fn spec_next(&self) -> nat {
        self.next_id as nat
    }

    /// `after` is `before` with `conn` registered under `id`, a number above
    /// that of the connection it replaces.
    pub open spec fn spec_registered(before: Self, after: Self, conn: C, id: u64) -> bool {
        &&& id == before.spec_next()
        &&& (before.spec_slot() matches Some((a, _)) ==> a < id)
        &&& after.spec_slot() == Some((id, conn))
        &&& after.spec_next() == before.spec_next() + 1
    }

    /// An empty registry.
    pub fn new() -> (r: Registry<C>)
        ensures
            r.spec_slot() is None,
            r.spec_next() == 0,
    {
        Registry { slot: None, next_id: 0 }
    }

    /// Whether no connection is active.
    pub fn is_empty(&self) -> (r: bool)
        ensures
            r == (self.spec_slot() is None),
    {
        self.slot.is_none()
    }

    /// The active connection, where there is one; with none, a send has
    /// nowhere to go and is a no-op.
    pub fn active(&self) -> (r: Option<&C>)
        ensures
            r is None <==> self.spec_slot() is None,
            r matches Some(c) ==> self.spec_slot() matches Some((_, d)) && *c == d,
    {
        match &self.slot {
            Some((_, c)) => Some(c),
            None => None,
        }
    }

    /// The number of the active connection, where there is one.
    pub fn active_id(&self) -> (r: Option<u64>)
        ensures
            r is None <==> self.spec_slot() is None,
            r matches Some(id) ==> self.spec_slot() matches Some((a, _)) && id == a,
            r matches Some(id) ==> id < self.spec_next(),
    {
        proof {
            use_type_invariant(self);
        }
        match &self.slot {
            Some((id, _)) => Some(*id),
            None => None,
        }
    }

    /// Whether another connection can be numbered.
    pub fn can_register(&self) -> (r: bool)
        ensures
            r == (self.spec_next() < u64::MAX),
    {
        self.next_id < u64::MAX
    }

    /// Makes `conn` the active connection, dropping the one it replaces, and
    /// returns its number.
    pub fn register(&mut self, conn: C) -> (id: u64)
        requires
            old(self).spec_next() < u64::MAX,
        ensures
            Self::spec_registered(*old(self), *final(self), conn, id),
    {
        proof {
            use_type_invariant(&*self);
        }
        let id = self.next_id;
        self.slot = None;
        self.next_id = id + 1;
        self.slot = Some((id, conn));
        id
    }

    /// Takes the outcome of a receive on connection `id` and returns the value
    /// for the application, if any.
    ///
    /// A value from the active connection is handed on. A value from a
    /// connection that has since been replaced is dropped. A failure of the
    /// active connection empties the slot, so the server waits for the next
    /// connection; the failure itself is not handed on.
    pub fn settle<T>(&mut self, id: u64, result: Result<T, ConnectionError>) -> (r: Option<T>)
        ensures
            r == delivered(old(self).spec_slot(), id, result),
            final(self).spec_slot() == slot_after(old(self).spec_slot(), id, result),
            final(self).spec_next() == old(self).spec_next(),
    {
        let is_active = match &self.slot {
            Some((a, _)) => *a == id,
            None => false,
        };
        match result {
            Ok(v) => if is_active {
                Some(v)
            } else {
                None
            },
            Err(_) => {
                if is_active {
                    self.slot = None;
                }
                None
            },
        }
    }
}

/// After two registrations in a row, only the second connection is active,
/// under a number different from the first one's.
pub proof fn lemma_second_replaces_first<C>(
    r0: Registry<C>,
    r1: Registry<C>,
    r2: Registry<C>,
    a: C,
    b: C,
    id_a: u64,
    id_b: u64,
)
    requires
        Registry::spec_registered(r0, r1, a, id_a),
        Registry::spec_registered(r1, r2, b, id_b),
    ensures
        r2.spec_slot() == Some((id_b, b)),
        id_a != id_b,
{
}

/// Once a connection has been replaced, nothing it receives reaches the
/// application, and neither its values nor its failures disturb the
/// connection that replaced it.
pub proof fn lemma_replaced_never_delivers<C, T>(
    r0: Registry<C>,
    r1: Registry<C>,
    r2: Registry<C>,
    a: C,
    b: C,
    id_a: u64,
    id_b: u64,
    result: Result<T, ConnectionError>,
)
    requires
        Registry::spec_registered(r0, r1, a, id_a),
        Registry::spec_registered(r1, r2, b, id_b),
    ensures
        delivered(r2.spec_slot(), id_a, result) is None,
        slot_after(r2.spec_slot(), id_a, result) == r2.spec_slot(),
{
}

/// A failure of the active connection empties the registry.
pub proof fn lemma_failure_evicts_active<C, T>(reg: Registry<C>, id: u64, e: ConnectionError)
    requires
        reg.spec_slot() matches Some((a, _)) && a == id,
    ensures
        slot_after(reg.spec_slot(), id, Result::<T, ConnectionError>::Err(e)) is None,
        delivered(reg.spec_slot(), id, Result::<T, ConnectionError>::Err(e)) is None,
{
}

} // verus!
