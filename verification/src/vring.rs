//! The virtqueue that carries events to the guest, and the record of what was asked of it.
//!
//! The ring lies in memory that the guest shares, so no contract can say how the guest will
//! answer. What the device asks, in which order and with which arguments, is its own doing. A
//! record, which exists in proofs only, holds every call together with its answer, and the
//! contracts of the device speak of that record. It starts out empty, and nothing but the functions
//! that make a call adds to it: each adds just the call that it makes.

use std::sync::Arc;

use vhost_user_backend::{VringRwLock, VringT};
use virtio_queue::{Error as QueueError, QueueT};
use vm_memory::{
    Bytes, GuestAddress, GuestAddressSpace, GuestMemoryAtomic, GuestMemoryError, GuestMemoryMmap,
};
use vstd::prelude::*;

use crate::error::VuInputError;

verus! {

/// `vm_memory::GuestMemoryMmap`, the memory of the guest as it is mapped at one moment.
#[verifier::external_type_specification]
#[verifier::external_body]
#[verifier::reject_recursive_types(B)]
pub struct ExGuestMemoryMmap<B>(GuestMemoryMmap<B>);

/// `vm_memory::GuestMemoryAtomic`, the collection of memory regions that the guest may exchange
/// for another while the device runs. Nothing is claimed of what it holds.
#[verifier::external_body]
pub struct GuestSpace(pub GuestMemoryAtomic<GuestMemoryMmap>);

/// `vhost_user_backend::VringRwLock`, the collection of descriptor chains that the guest offers.
/// Nothing is claimed of what it holds: the guest fills and empties it at will. It is behind a
/// lock, and a call on it panics if another thread has panicked while it held that lock.
#[verifier::external_body]
pub struct SharedVring(pub VringRwLock);

/// `virtio_queue::Error`, which operations on the queue fail with.
#[verifier::external_type_specification]
#[verifier::external_body]
pub struct ExQueueError(QueueError);

/// `vm_memory::GuestMemoryError`, which access to the guest's memory fails with.
#[verifier::external_type_specification]
#[verifier::external_body]
pub struct ExGuestMemoryError(GuestMemoryError);

/// `std::io::Error`, which notifying the guest fails with.
#[verifier::external_type_specification]
#[verifier::external_body]
pub struct ExIoError(std::io::Error);

/// A descriptor chain as it was taken from the queue: the index of its head, and the guest
/// address of each of its descriptors.
#[derive(Debug, PartialEq, Eq)]
pub struct Chain {
    pub head: u16,
    pub addresses: Vec<u64>,
}

impl Chain {
    /// The address of the descriptor, where the chain has just one.
    pub fn only_address(&self) -> (r: Result<u64, VuInputError>)
        ensures
            self.addresses@.len() == 1 ==> r == Ok::<u64, VuInputError>(self.addresses@[0]),
            self.addresses@.len() != 1 ==> r == Err::<u64, VuInputError>(
                VuInputError::UnexpectedDescriptorCount(self.addresses@.len() as usize),
            ),
    {
        if self.addresses.len() != 1 {
            return Err(VuInputError::UnexpectedDescriptorCount(self.addresses.len()));
        }
        Ok(self.addresses[0])
    }
}

/// One call on the queue or on the guest's memory, with its answer.
pub enum VringCall {
    /// The memory mapped in `space` was found to be `memory`.
    Load { space: GuestSpace, memory: Arc<GuestMemoryMmap> },
    /// A chain was asked for: its head and the addresses of its descriptors.
    Pop { memory: Arc<GuestMemoryMmap>, chain: Option<(u16, Seq<u64>)> },
    /// `bytes` were to be written at `address`: how many were, `None` on failure.
    Write { memory: Arc<GuestMemoryMmap>, bytes: Seq<u8>, address: u64, written: Option<usize> },
    /// A chain was handed back.
    AddUsed { head: u16, len: u32, ok: bool },
    /// The guest was notified.
    Signal { ok: bool },
    /// Notifications by the guest were switched off.
    DisableNotification { ok: bool },
    /// Notifications by the guest were switched on.
    EnableNotification { ok: bool },
}

/// A virtqueue of the device with the record of the calls made on it. Both are out of reach of
/// the code that uses them: a call and its place in the record cannot be had apart.
pub struct Vring {
    queue: SharedVring,
    record: Ghost<Seq<VringCall>>,
}

impl Vring {
    /// The queue that the calls go to.
    pub closed spec fn queue(&self) -> SharedVring {
        self.queue
    }

    /// The calls made so far, oldest first.
    pub closed spec fn calls(&self) -> Seq<VringCall> {
        self.record@
    }

    /// The calls made since `before`.
    pub open spec fn since(&self, before: &Vring) -> Seq<VringCall> {
        self.calls().skip(before.calls().len() as int)
    }

    /// Whether `self` is `before` with the calls `made` added to its record.
    pub open spec fn extends(&self, before: &Vring, made: Seq<VringCall>) -> bool {
        self.queue() == before.queue() && self.calls() == before.calls() + made
    }

    /// Starts the record of `queue`.
    pub fn new(queue: SharedVring) -> (r: Vring)
        ensures
            r.queue() == queue,
            r.calls() == Seq::<VringCall>::empty(),
    {
        Vring { queue, record: Ghost(Seq::empty()) }
    }

    /// `GuestAddressSpace::memory` of `GuestMemoryAtomic`, then
    /// `GuestMemoryLoadGuard::into_inner`: the memory as it is mapped in `space` at the moment of
    /// the call. The record grows by this one call, with its answer. Which memory that is, is
    /// left unsaid: the guest may exchange it at any time.
    #[verifier::external_body]
    pub(crate) fn load_memory(&mut self, space: &GuestSpace) -> (r: Arc<GuestMemoryMmap>)
        ensures
            final(self).extends(old(self), seq![VringCall::Load { space: *space, memory: r }]),
    {
        space.0.memory().into_inner()
    }

    /// `QueueT::pop_descriptor_chain`: takes the next chain that the guest offers, if there is
    /// one, and reads its descriptors. The record grows by this one call, with its answer. What
    /// comes back is left unsaid: the guest decides it.
    #[verifier::external_body]
    pub(crate) fn pop_descriptor_chain(&mut self, memory: &Arc<GuestMemoryMmap>) -> (r: Option<
        Chain,
    >)
        ensures
            final(self).extends(
                old(self),
                seq![VringCall::Pop { memory: *memory, chain: chain_view(r) }],
            ),
    {
        match self.queue.0.get_mut().get_queue_mut().pop_descriptor_chain(memory.clone()) {
            Some(chain) => Some(
                Chain {
                    head: chain.head_index(),
                    addresses: chain.map(|descriptor| descriptor.addr().0).collect(),
                },
            ),
            None => None,
        }
    }

    /// `Bytes::write` of `GuestMemoryMmap`: copies `bytes` to the guest at `address` and returns
    /// how many of them were copied, which is never more than there are. The record grows by this
    /// one call, with its answer. Whether it fails, and how many bytes fit, is left unsaid: the
    /// guest names the address.
    #[verifier::external_body]
    pub(crate) fn write_memory(
        &mut self,
        memory: &Arc<GuestMemoryMmap>,
        bytes: &Vec<u8>,
        address: u64,
    ) -> (r: Result<usize, GuestMemoryError>)
        ensures
            r matches Ok(n) ==> n <= bytes@.len(),
            final(self).extends(
                old(self),
                seq![
                    VringCall::Write {
                        memory: *memory,
                        bytes: bytes@,
                        address,
                        written: written_view(r),
                    },
                ],
            ),
    {
        memory.write(bytes.as_slice(), GuestAddress(address))
    }

    /// `VringT::add_used`: hands a chain back to the guest, with the number of bytes written to
    /// it. The record grows by this one call, with its answer. Whether it fails is left unsaid:
    /// the guest says where the ring lies.
    #[verifier::external_body]
    pub(crate) fn add_used(&mut self, head: u16, len: u32) -> (r: Result<(), QueueError>)
        ensures
            final(self).extends(old(self), seq![VringCall::AddUsed { head, len, ok: r is Ok }]),
    {
        self.queue.0.add_used(head, len)
    }

    /// `VringT::signal_used_queue`: notifies the guest. The record grows by this one call, with
    /// its answer. Whether it fails is left unsaid: the machine decides it.
    #[verifier::external_body]
    pub(crate) fn signal_used_queue(&mut self) -> (r: Result<(), std::io::Error>)
        ensures
            final(self).extends(old(self), seq![VringCall::Signal { ok: r is Ok }]),
    {
        self.queue.0.signal_used_queue()
    }

    /// `VringT::disable_notification`: asks the guest not to notify the device. The record grows
    /// by this one call, with its answer. Whether it fails is left unsaid: the guest says where
    /// the ring lies.
    #[verifier::external_body]
    pub(crate) fn disable_notification(&mut self) -> (r: Result<(), QueueError>)
        ensures
            final(self).extends(old(self), seq![VringCall::DisableNotification { ok: r is Ok }]),
    {
        self.queue.0.disable_notification()
    }

    /// `VringT::enable_notification`: asks the guest to notify the device again, and tells
    /// whether it has offered chains meanwhile. The record grows by this one call, and by whether
    /// it failed. What comes back is left unsaid: the guest decides it.
    #[verifier::external_body]
    pub(crate) fn enable_notification(&mut self) -> (r: Result<bool, QueueError>)
        ensures
            final(self).extends(old(self), seq![VringCall::EnableNotification { ok: r is Ok }]),
    {
        self.queue.0.enable_notification()
    }
}

/// How many bytes were written, as the record holds it.
pub open spec fn written_view(r: Result<usize, GuestMemoryError>) -> Option<usize> {
    match r {
        Ok(n) => Some(n),
        Err(_) => None,
    }
}

/// A chain as the record holds it.
pub open spec fn chain_view(chain: Option<Chain>) -> Option<(u16, Seq<u64>)> {
    match chain {
        Some(c) => Some((c.head, c.addresses@)),
        None => None,
    }
}

/// The calls made since some state of the queue are just those by which its record has grown, and
/// they went to the same queue.
pub proof fn law_since_tells_what_was_added(before: Vring, after: Vring, made: Seq<VringCall>)
    requires
        after.extends(&before, made),
    ensures
        after.since(&before) == made,
        after.calls() == before.calls() + made,
        after.calls().len() == before.calls().len() + made.len(),
        after.queue() == before.queue(),
{
    assert(after.since(&before) =~= made);
}

/// One step after the other adds what both add, in that order.
pub proof fn law_calls_add_up(
    before: Vring,
    between: Vring,
    after: Vring,
    first: Seq<VringCall>,
    then_made: Seq<VringCall>,
)
    requires
        between.extends(&before, first),
        after.extends(&between, then_made),
    ensures
        after.extends(&before, first + then_made),
{
    assert(after.calls() =~= before.calls() + (first + then_made));
}

/// The record holds of an answer all that the device goes by.
pub proof fn law_answers_are_recorded(chain: Chain, n: usize, e: GuestMemoryError)
    ensures
        chain_view(None) is None,
        chain_view(Some(chain)) matches Some((head, addresses)) && head == chain.head && addresses
            == chain.addresses@,
        written_view(Ok(n)) == Some(n),
        written_view(Err(e)) is None,
{
}

} // verus!
