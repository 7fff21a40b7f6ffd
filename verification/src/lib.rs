//! A type-erased, handle-based object store.
//!
//! A caller deposits a value of any storable type and receives a handle
//! (a ticket); presenting the ticket later retrieves — and removes — the
//! original value, restored to its original type.

mod coat;
mod erased;
mod ident;

use vstd::prelude::*;

verus! {

pub use crate::coat::Coat;
pub use crate::erased::ErasedCoat;
pub use crate::ident::uuid_text_of;

/// Why a retrieval returned nothing.
pub enum RetrieveError {
    /// The ticket's identifier is not present in the container: the value
    /// was already retrieved, was never stored, or belongs to another
    /// container.
    NotFound,
    /// The identifier is present, but the stored value is not of the
    /// requested type. The value stays in the container.
    TypeMismatch,
}

/// The stored location of a Coat: one slot holding one erased value,
/// with enough runtime information to recover its concrete type.
pub struct Hanger {
    pub coat: ErasedCoat,
}

impl Hanger {
    /// Erase a storable value into a slot.
    pub fn new<T: Coat>(value: T) -> Hanger {
        Hanger { coat: crate::erased::erase_coat(value) }
    }

    /// Recover the stored value at its original type, consuming the slot.
    /// Succeeds exactly when `T` is the type the value was stored at; a
    /// mismatched request returns the slot unchanged, so the value is not
    /// lost. Which of the two happens is decided by the runtime type tag,
    /// which verification cannot see.
    pub fn downcast<T: Coat>(self) -> (r: Result<T, Hanger>)
        ensures
            r matches Err(back) ==> back == self,
    {
        match crate::erased::recover_coat::<T>(self.coat) {
            Ok(value) => Ok(value),
            Err(coat) => Err(Hanger { coat }),
        }
    }
}

/// An untyped handle: wraps one identifier and carries no type
/// information, so retrieving through it requires naming the expected
/// type. It is a single-use token — the first retrieval consumes the
/// stored value, and presenting a copy again finds nothing.
#[derive(Clone, Copy)]
pub struct Ticket {
    id: u128,
}

impl View for Ticket {
    type V = u128;

    closed spec fn view(&self) -> u128 {
        self.id
    }
}

impl Ticket {
    /// The display-only textual form of the handle: the canonical
    /// lowercase hyphenated rendering of its identifier, and nothing
    /// else. A handle cannot be reconstructed from it.
    pub fn text(&self) -> (r: String)
        ensures
            r@ == uuid_text_of(self@),
            r@.len() == 36,
    {
        crate::ident::id_text(self.id)
    }
}

/// A typed handle: wraps one identifier plus a zero-size binding to the
/// stored value's static type, fixed when the value was stored. The
/// binding exists purely so that retrieval cannot name a wrong type; it
/// does not affect the handle's identity or textual form.
pub struct TypedTicket<T> {
    id: u128,
    marker: core::marker::PhantomData<T>,
}

impl<T> View for TypedTicket<T> {
    type V = u128;

    closed spec fn view(&self) -> u128 {
        self.id
    }
}

impl<T> Clone for TypedTicket<T> {
    /// A copy carrying the same identifier and the same type binding.
    fn clone(&self) -> (t: Self)
        ensures
            t@ == self@,
    {
        TypedTicket { id: self.id, marker: core::marker::PhantomData }
    }
}

impl<T> TypedTicket<T> {
    /// The raw 128-bit identifier, for display or bookkeeping.
    pub fn id(&self) -> (r: u128)
        ensures
            r == self@,
    {
        self.id
    }

    /// Consume the TypedTicket and return a Ticket: erase the static type
    /// binding, one-way, keeping the same identifier.
    pub fn into_ticket(self) -> (t: Ticket)
        ensures
            t@ == self@,
    {
        Ticket { id: self.id }
    }

    /// The display-only textual form of the handle: the same rendering as
    /// for the untyped handle, since the type binding has no runtime
    /// identity.
    pub fn text(&self) -> (r: String)
        ensures
            r@ == uuid_text_of(self@),
            r@.len() == 36,
    {
        crate::ident::id_text(self.id)
    }
}

/// The identifiers below `k`: the finite set of `u128` values whose
/// integer value is less than `k`.
spec fn low_ids(k: int) -> Set<u128> {
    Set::new(|x: u128| (x as int) < k)
}

/// The set of identifiers below `k` is finite and holds exactly `k`
/// identifiers, for any `k` within the identifier range.
proof fn lemma_low_ids(k: int)
    requires
        0 <= k <= u128::MAX as int + 1,
    ensures
        low_ids(k).finite(),
        low_ids(k).len() == k,
    decreases k,
{
    if k == 0 {
        assert(low_ids(0) =~= Set::empty());
    } else {
        lemma_low_ids(k - 1);
        assert(low_ids(k - 1).insert((k - 1) as u128) =~= low_ids(k));
    }
}

/// The container: a mapping from identifier to slot, with the operations
/// `store` and `retrieve` and their typed variants. Its view is the map
/// from the 128-bit identifiers currently live to the slots they name;
/// every operation takes exclusive access, and any cross-thread sharing
/// discipline is the caller's (a surrounding lock is the expected
/// collaborator).
pub struct Closet {
    storage: std::collections::HashMap<u128, Hanger>,
}

impl View for Closet {
    type V = Map<u128, Hanger>;

    closed spec fn view(&self) -> Map<u128, Hanger> {
        self.storage@
    }
}

impl Closet {
    /// An empty container.
    pub fn new() -> (c: Closet)
        ensures
            c@ == Map::<u128, Hanger>::empty(),
    {
        Closet { storage: std::collections::HashMap::new() }
    }

    /// An identifier that is not currently live, found by scanning the
    /// candidates `0, 1, ..., len`: the container holds `len` entries, so
    /// among `len + 1` candidates one must be free. Only the store path
    /// uses this, and only when a random draw collides with a live
    /// identifier, which in practice never happens.
    fn scan_fresh_id(&self) -> (id: u128)
        ensures
            !self@.dom().contains(id),
    {
        broadcast use vstd::std_specs::hash::group_hash_axioms;

        let n: usize = self.storage.len();
        proof {
            assert(self@.dom().len() == n);
        }
        let mut i: usize = 0;
        loop
            invariant
                i <= n,
                self@.dom().finite(),
                self@.dom().len() == n,
                forall|j: int| 0 <= j < i ==> #[trigger] self@.dom().contains(j as u128),
            decreases n - i,
        {
            if !self.storage.contains_key(&(i as u128)) {
                return i as u128;
            }
            proof {
                if i == n {
                    lemma_low_ids(n as int + 1);
                    assert(low_ids(n as int + 1).subset_of(self@.dom())) by {
                        assert forall|x: u128| low_ids(n as int + 1).contains(x)
                            implies self@.dom().contains(x) by {
                            let j = x as int;
                            assert(x == j as u128);
                        }
                    }
                    vstd::set_lib::lemma_len_subset(low_ids(n as int + 1), self@.dom());
                    assert(false);
                }
            }
            i = i + 1;
        }
    }

    /// The internal primitive shared by both store variants, exposed for
    /// callers building their own handle types: insert a slot under a
    /// fresh identifier and return that identifier. The identifier is
    /// randomly drawn; a draw is checked against the live identifiers, and
    /// in the negligible case of a collision a scanned free identifier is
    /// used instead, so storing always succeeds.
    pub fn store_hanger(&mut self, hanger: Hanger) -> (id: u128)
        ensures
            !old(self)@.dom().contains(id),
            final(self)@ == old(self)@.insert(id, hanger),
    {
        broadcast use vstd::std_specs::hash::group_hash_axioms;

        let drawn: u128 = crate::ident::fresh_raw_id();
        let id: u128 = if self.storage.contains_key(&drawn) {
            self.scan_fresh_id()
        } else {
            drawn
        };
        self.storage.insert(id, hanger);
        id
    }

    /// Store a value of any storable type; always succeeds. The returned
    /// untyped handle wraps an identifier that was not previously live;
    /// the container gains exactly that one entry and no other entry
    /// changes.
    pub fn store<T: Coat>(&mut self, item: T) -> (t: Ticket)
        ensures
            !old(self)@.dom().contains(t@),
            final(self)@.dom() == old(self)@.dom().insert(t@),
            final(self)@.remove(t@) == old(self)@,
    {
        let id = self.store_hanger(Hanger::new(item));
        proof {
            assert(self@.dom() =~= old(self)@.dom().insert(id));
            assert(self@.remove(id) =~= old(self)@);
        }
        Ticket { id }
    }

    /// Store a value, returning a handle that statically encodes the
    /// value's type. Identical mechanics to `store`; only the handle
    /// differs.
    pub fn store_typed<T: Coat>(&mut self, item: T) -> (t: TypedTicket<T>)
        ensures
            !old(self)@.dom().contains(t@),
            final(self)@.dom() == old(self)@.dom().insert(t@),
            final(self)@.remove(t@) == old(self)@,
    {
        let id = self.store_hanger(Hanger::new(item));
        proof {
            assert(self@.dom() =~= old(self)@.dom().insert(id));
            assert(self@.remove(id) =~= old(self)@);
        }
        TypedTicket { id, marker: core::marker::PhantomData }
    }

    /// Retrieve and remove the value stored under the handle, recovered at
    /// the expected type `T`. Fails with `NotFound`, leaving the container
    /// unchanged, exactly when the handle's identifier is not live. When
    /// the identifier is live but the stored value is of another type, the
    /// call fails with `TypeMismatch` and the entry is retained unchanged;
    /// whether the type matches is decided by the runtime type tag, which
    /// verification cannot see. On success the entry is removed.
    pub fn retrieve<T: Coat>(&mut self, ticket: Ticket) -> (r: Result<T, RetrieveError>)
        ensures
            r matches Err(e) ==> (e is NotFound <==> !old(self)@.dom().contains(ticket@)),
            r is Ok ==> old(self)@.dom().contains(ticket@)
                && final(self)@ == old(self)@.remove(ticket@),
            r is Err ==> final(self)@ == old(self)@,
    {
        broadcast use vstd::std_specs::hash::group_hash_axioms;

        match self.storage.remove(&ticket.id) {
            None => {
                proof {
                    assert(self@ =~= old(self)@);
                }
                Err(RetrieveError::NotFound)
            },
            Some(hanger) => {
                match hanger.downcast::<T>() {
                    Ok(value) => Ok(value),
                    Err(back) => {
                        self.storage.insert(ticket.id, back);
                        proof {
                            assert(self@ =~= old(self)@);
                        }
                        Err(RetrieveError::TypeMismatch)
                    },
                }
            },
        }
    }

    /// Retrieve and remove the value stored under a typed handle. The
    /// expected type is taken from the handle itself, so no type can be
    /// named at the call site other than the stored one: the only failure
    /// this path can report is not-found, and `None` is returned exactly
    /// where `retrieve` would fail. On success the entry is removed; on
    /// `None` the container is unchanged.
    pub fn retrieve_typed<T: Coat>(&mut self, ticket: TypedTicket<T>) -> (r: Option<T>)
        ensures
            !old(self)@.dom().contains(ticket@) ==> r is None,
            r is Some ==> old(self)@.dom().contains(ticket@)
                && final(self)@ == old(self)@.remove(ticket@),
            r is None ==> final(self)@ == old(self)@,
    {
        broadcast use vstd::std_specs::hash::group_hash_axioms;

        match self.storage.remove(&ticket.id) {
            None => {
                proof {
                    assert(self@ =~= old(self)@);
                }
                None
            },
            Some(hanger) => {
                match hanger.downcast::<T>() {
                    Ok(value) => Some(value),
                    Err(back) => {
                        self.storage.insert(ticket.id, back);
                        proof {
                            assert(self@ =~= old(self)@);
                        }
                        None
                    },
                }
            },
        }
    }
}

/// Law: a store never reuses a live identifier, so two stores in sequence
/// on the same container return handles carrying distinct identifiers,
/// even for identical values. The premises are what `store` and
/// `store_typed` ensure of two consecutive calls.
pub proof fn lemma_store_uniqueness(
    m0: Map<u128, Hanger>,
    m1: Map<u128, Hanger>,
    id1: u128,
    id2: u128,
)
    requires
        !m0.dom().contains(id1),
        m1.dom() == m0.dom().insert(id1),
        !m1.dom().contains(id2),
    ensures
        id1 != id2,
{
    assert(m1.dom().contains(id1));
}

/// Law: a successful retrieval removes its identifier from the container,
/// so the identifier is no longer live, and a second retrieval presenting
/// the same handle — or the same identifier through an erased copy — can
/// only report not-found, never return a value. The premise is what
/// `retrieve` and `retrieve_typed` ensure of a successful call.
pub proof fn lemma_single_consumption(m0: Map<u128, Hanger>, m1: Map<u128, Hanger>, id: u128)
    requires
        m1 == m0.remove(id),
    ensures
        !m1.dom().contains(id),
{
}

/// Law: storing a value and then successfully retrieving it with the
/// returned handle leaves the container exactly as it was before the
/// store, with the handle's identifier no longer live. The premises are
/// what a store and then a successful retrieval of the same identifier
/// ensure; the retrieved value itself is recovered by the runtime type
/// machinery, which verification cannot see.
pub proof fn lemma_round_trip_restores(
    m0: Map<u128, Hanger>,
    m1: Map<u128, Hanger>,
    m2: Map<u128, Hanger>,
    id: u128,
)
    requires
        !m0.dom().contains(id),
        m1.remove(id) == m0,
        m2 == m1.remove(id),
    ensures
        m2 == m0,
        !m2.dom().contains(id),
{
}

impl Default for Closet {
    /// An empty container, as `new` gives.
    fn default() -> (c: Closet)
        ensures
            c@ == Map::<u128, Hanger>::empty(),
    {
        Closet::new()
    }
}

} // verus!
