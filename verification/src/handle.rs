//! Lifetime and payload management for native event-loop handles.
//!
//! The external event-loop library owns fixed-layout records, identified by
//! their address, each carrying a single untyped user-data slot. Verified
//! code cannot touch that raw memory directly, so this module models the
//! library's record store explicitly: [`EventLoop`] stands for the store,
//! an address is a nonzero `usize`, and [`Handle`] is the lightweight,
//! freely copyable reference that client code passes around. The contracts
//! pin down the lifecycle rules the real store obeys: a record is allocated
//! once, registered once, released at most once, and its payload slot holds
//! exactly the last value attached to it.

use core::marker::PhantomData;
use vstd::prelude::*;

verus! {

/// Why a handle could not be created.
#[derive(Clone, Copy, Debug, PartialEq, Eq, Structural)]
pub enum Error {
    /// The store could not provide a block for the native record.
    AllocationFailed,
    /// The initializer reported a negative status, so the event loop never
    /// registered the record.
    RegistrationFailed,
}

/// Lifecycle stage of one native record.
#[derive(Clone, Copy, Debug, PartialEq, Eq, Structural)]
pub enum RecordState {
    /// The record is registered with the event loop and may be used.
    Registered,
    /// The record was destroyed. Its address must never be used again.
    Released,
}

/// One native record: its lifecycle stage and its single user-data slot.
pub struct Record<D> {
    pub state: RecordState,
    pub data: Option<D>,
}

/// The event loop's store of native records, holding payloads of type `D`.
///
/// The store allocates addresses starting at 1 (0 plays the role of the
/// null address) and never reuses an address: a released record stays
/// behind as a tombstone. `capacity` bounds how many records the store can
/// ever allocate; a store built with capacity 0 models an allocator that
/// always fails.
pub struct EventLoop<D> {
    records: Vec<Record<D>>,
    capacity: usize,
}

/// Spec-level effect of attaching payload `v` to record `i`: the user-data
/// slot now holds `v` and nothing else about the record changes.
pub open spec fn attach<D>(records: Seq<Record<D>>, i: int, v: D) -> Seq<Record<D>> {
    records.update(i, Record { state: records[i].state, data: Some(v) })
}

impl<D> View for EventLoop<D> {
    type V = Seq<Record<D>>;

    closed spec fn view(&self) -> Seq<Record<D>> {
        self.records@
    }
}

impl<D> EventLoop<D> {
    /// How many records this store can ever hand out.
    pub closed spec fn spec_capacity(self) -> usize {
        self.capacity
    }

    /// Allocation succeeds exactly while fewer records than the capacity
    /// have been handed out.
    pub open spec fn can_alloc(self) -> bool {
        self@.len() < self.spec_capacity()
    }

    /// The address the next successful allocation will receive.
    pub open spec fn next_addr(self) -> int {
        self@.len() as int + 1
    }

    /// A store that has not allocated anything yet and can hand out at most
    /// `capacity` records.
    pub fn new(capacity: usize) -> (ev: EventLoop<D>)
        ensures
            ev@ == Seq::<Record<D>>::empty(),
            ev.spec_capacity() == capacity,
    {
        EventLoop { records: Vec::new(), capacity }
    }

    /// Number of records the store has allocated so far, released ones
    /// included; a failed construction leaves this count unchanged.
    pub fn record_count(&self) -> (n: usize)
        ensures
            n == self@.len(),
    {
        self.records.len()
    }

    /// Models the external library's destroy call on the record at `addr`:
    /// the record leaves the `Registered` state for good and its payload
    /// slot is emptied. The precondition admits only live records, so each
    /// record can be released at most once.
    pub fn release(&mut self, addr: usize)
        requires
            1 <= addr <= old(self)@.len(),
            old(self)@[addr - 1].state == RecordState::Registered,
        ensures
            final(self)@ == old(self)@.update(
                addr - 1,
                (Record { state: RecordState::Released, data: None::<D> }),
            ),
            final(self).spec_capacity() == old(self).spec_capacity(),
    {
        let idx = addr - 1;
        self.records[idx] = Record { state: RecordState::Released, data: None };
    }
}

/// A copyable reference to one native record: the record's address plus
/// compile-time markers for the record kind `T` and the payload kind `D`.
/// The markers carry no runtime bytes.
pub struct Handle<T, D> {
    addr: usize,
    marker: PhantomData<(T, D)>,
}

impl<T, D> Handle<T, D> {
    /// The record address this handle refers to.
    pub closed spec fn spec_addr(self) -> usize {
        self.addr
    }

    /// The handle refers to a live, registered record of the store `ev`.
    pub open spec fn valid_for(self, ev: EventLoop<D>) -> bool {
        &&& 1 <= self.spec_addr() <= ev@.len()
        &&& ev@[self.spec_addr() - 1].state == RecordState::Registered
    }

    /// Allocates a record in `ev` and hands it to `initializer` for
    /// registration with the event loop; the initializer answers with a
    /// status code, negative meaning failure.
    ///
    /// If the store cannot allocate, the call fails with
    /// [`Error::AllocationFailed`] and the initializer is never consulted
    /// (nothing demands its precondition in that case). If the initializer
    /// answers a non-negative status, the handle is returned, valid and
    /// with a nonzero address, over a record whose payload slot starts
    /// empty. If the initializer answers a negative status, the call fails
    /// with [`Error::RegistrationFailed`] and the store is exactly as it
    /// was: the record allocated during the call has been reclaimed.
    pub fn new<I: FnOnce(Handle<T, D>) -> i32>(ev: &mut EventLoop<D>, initializer: I) -> (r:
        Result<Handle<T, D>, Error>)
        requires
            old(ev).can_alloc() ==> forall|h: Handle<T, D>|
                h.spec_addr() as int == old(ev).next_addr() ==> #[trigger] call_requires(
                    initializer,
                    (h,),
                ),
        ensures
            final(ev).spec_capacity() == old(ev).spec_capacity(),
            !old(ev).can_alloc() ==> r == Err::<Handle<T, D>, Error>(Error::AllocationFailed)
                && *final(ev) == *old(ev),
            old(ev).can_alloc() ==> match r {
                Ok(h) => {
                    &&& h.spec_addr() as int == old(ev).next_addr()
                    &&& h.spec_addr() != 0
                    &&& h.valid_for(*final(ev))
                    &&& final(ev)@ == old(ev)@.push(
                        (Record { state: RecordState::Registered, data: None::<D> }),
                    )
                    &&& final(ev)@[h.spec_addr() - 1].data is None
                    &&& exists|status: i32|
                        #[trigger] call_ensures(initializer, (h,), status) && status >= 0
                },
                Err(e) => {
                    &&& e == Error::RegistrationFailed
                    &&& *final(ev) == *old(ev)
                    &&& exists|h: Handle<T, D>, status: i32|
                        h.spec_addr() as int == old(ev).next_addr() && #[trigger] call_ensures(
                            initializer,
                            (h,),
                            status,
                        ) && status < 0
                },
            },
    {
        if ev.records.len() >= ev.capacity {
            return Err(Error::AllocationFailed);
        }
        let addr = ev.records.len() + 1;
        let handle = Handle { addr, marker: PhantomData };
        let status = initializer(handle);
        if status < 0 {
            return Err(Error::RegistrationFailed);
        }
        ev.records.push(Record { state: RecordState::Registered, data: None });
        Ok(handle)
    }

    /// Raw address of the native record, for handing to external calls.
    /// Stable: every call on the same handle answers the same address.
    pub fn as_ptr(&self) -> (r: usize)
        ensures
            r == self.spec_addr(),
    {
        self.addr
    }

    /// Raw address of the native record, for external calls that mutate it.
    /// The handle itself is left untouched.
    pub fn as_mut_ptr(&mut self) -> (r: usize)
        ensures
            r == old(self).spec_addr(),
            *final(self) == *old(self),
    {
        self.addr
    }

    /// Rebuilds a handle from an address handed back by the external
    /// library, typically inside a callback. The caller answers for the
    /// address denoting a live record of matching kind; operations that
    /// touch the record demand that through [`Handle::valid_for`].
    pub fn from_raw(addr: usize) -> (h: Handle<T, D>)
        requires
            addr != 0,
        ensures
            h.spec_addr() == addr,
    {
        Handle { addr, marker: PhantomData }
    }

    /// Attaches `data` to the record's user-data slot, overwriting whatever
    /// the slot held before. A previously attached payload is not returned:
    /// retrieving and disposing of it first is the caller's business.
    pub fn set_data(&mut self, ev: &mut EventLoop<D>, data: D)
        requires
            old(self).valid_for(*old(ev)),
        ensures
            *final(self) == *old(self),
            final(ev)@ == attach(old(ev)@, old(self).spec_addr() - 1, data),
            final(ev).spec_capacity() == old(ev).spec_capacity(),
    {
        let idx = self.addr - 1;
        ev.records[idx] = Record { state: RecordState::Registered, data: Some(data) };
    }

    /// Reads the payload attached to the record. Retrieval does not clear
    /// the slot and does not transfer ownership: the payload stays with the
    /// record.
    pub fn get_data<'a>(&self, ev: &'a EventLoop<D>) -> (r: &'a D)
        requires
            self.valid_for(*ev),
            ev@[self.spec_addr() - 1].data is Some,
        ensures
            ev@[self.spec_addr() - 1].data == Some(*r),
    {
        let idx = self.addr - 1;
        ev.records[idx].data.as_ref().unwrap()
    }
}

impl<T, D> Clone for Handle<T, D> {
    /// A cloned handle is the same shallow reference: same address, same
    /// markers, no new allocation.
    fn clone(&self) -> (r: Self)
        ensures
            r == *self,
    {
        Handle { addr: self.addr, marker: PhantomData }
    }
}

impl<T, D> Copy for Handle<T, D> {

}

/// Law: right after attaching payload `v` to record `i`, the record's slot
/// holds exactly `v`.
pub proof fn lemma_attach_then_read<D>(records: Seq<Record<D>>, i: int, v: D)
    requires
        0 <= i < records.len(),
    ensures
        attach(records, i, v)[i].data == Some(v),
{
}

/// Law: attaching `v2` after `v1` to the same record leaves `v2` in the
/// slot, and never `v1` (unless the two are the same value).
pub proof fn lemma_attach_overwrites<D>(records: Seq<Record<D>>, i: int, v1: D, v2: D)
    requires
        0 <= i < records.len(),
    ensures
        attach(attach(records, i, v1), i, v2)[i].data == Some(v2),
        v1 != v2 ==> attach(attach(records, i, v1), i, v2)[i].data != Some(v1),
{
}

/// Law: copying a handle is shallow. Two copies of one handle are equal
/// values and so expose the same raw address, rather than denoting two
/// distinct allocations.
pub proof fn lemma_copies_share_address<T, D>(a: Handle<T, D>, b: Handle<T, D>)
    requires
        a == b,
    ensures
        a.spec_addr() == b.spec_addr(),
{
}

/// Decision at the allocation boundary: the null address means the heap
/// could not provide a block for the native record, any other address is a
/// successful allocation.
pub fn allocation_result(addr: usize) -> (r: Result<(), Error>)
    ensures
        addr != 0 ==> r == Ok::<(), Error>(()),
        addr == 0 ==> r == Err::<(), Error>(Error::AllocationFailed),
{
    if addr == 0 {
        Err(Error::AllocationFailed)
    } else {
        Ok(())
    }
}

/// Decision at the registration boundary: a non-negative status from the
/// external library's initialization call means the record is registered,
/// a negative status is a registration failure.
pub fn registration_result(status: i32) -> (r: Result<(), Error>)
    ensures
        status >= 0 ==> r == Ok::<(), Error>(()),
        status < 0 ==> r == Err::<(), Error>(Error::RegistrationFailed),
{
    if status < 0 {
        Err(Error::RegistrationFailed)
    } else {
        Ok(())
    }
}

} // verus!
