//! The state of the input device, and how it serves the guest.
//!
//! Events of the input device are kept until the report that they belong to is complete, and are
//! then written to the descriptors that the guest offers. Through its configuration space the
//! guest learns what the input device is. Reading from the input device is left to the caller:
//! the device says what has to be read, and takes what came of it.

use std::collections::VecDeque;

use vstd::prelude::*;
use vstd::slice::slice_to_vec;

use crate::config::{
    answers, config_bytes, contents, count_used, event_config, id_config, name_config,
    name_is_text, padded, query_for, zeros, ConfigQuery, ConfigReply, ConfigView, EvKind, InputId,
    IoctlReply, VuInputConfig, VIRTIO_INPUT_CFG_EV_BITS, VIRTIO_INPUT_CFG_ID_DEVIDS,
    VIRTIO_INPUT_CFG_ID_NAME, VIRTIO_INPUT_CFG_SIZE,
};
use crate::delivery::{
    delivery, event_pass, for_guest, handled_pass, law_every_event_is_owed, lemma_first_delivered,
    lemma_handled_pass, lemma_queue_pass, queue_pass,
};
use crate::error::VuInputError;
use crate::event::{
    complete_len, law_complete_reports, law_reports_end_with_sync, ByteOrder, DeviceEvent,
    VuInputEvent,
};
use crate::features::{
    event_set_in, protocol_config, protocol_mq, ring_event_idx, ring_indirect_desc, version_1,
    vhost_user_protocol_features,
};
use crate::text::string_from_utf8;
use crate::vring::{chain_view, written_view, GuestSpace, Vring, VringCall};

verus! {

/// The identifier under which the worker is woken for the input device.
pub const EPOLL_IN_VRING_EVENT_ID: u64 = 3;

/// How many descriptors a queue can have.
const QUEUE_SIZE: usize = 1024;

/// How many queues the device has.
const NUM_QUEUES: usize = 2;

/// The input device: what the guest has set, and the events it has still to receive.
pub struct VuInputBackend {
    event_idx: bool,
    select: u8,
    subsel: u8,
    mem: Option<GuestSpace>,
    ev_list: VecDeque<VuInputEvent>,
    order: ByteOrder,
}

/// The state of the device as the contracts speak of it.
pub struct BackendView {
    /// Whether the guest has agreed to the event index feature.
    pub event_idx: bool,
    /// Which part of the configuration the guest has selected.
    pub select: u8,
    /// The selection within that part.
    pub subsel: u8,
    /// The memory of the guest.
    pub mem: Option<GuestSpace>,
    /// The events that the guest has not received yet, oldest first.
    pub pending: Seq<VuInputEvent>,
    /// The byte order of the machine.
    pub order: ByteOrder,
}

/// What has to be done about a wake-up.
#[derive(Clone, Copy, Debug, PartialEq, Eq, Structural)]
pub enum EventStep {
    /// The events of the input device have to be read and dropped.
    Discard,
    /// Nothing has to be done.
    Ignore,
    /// The events of the input device have to be read and handed on.
    Fetch,
}

/// What a wake-up means.
#[derive(Clone, Copy, Debug, PartialEq, Eq, Structural)]
pub enum WakeUp {
    /// The guest has not agreed to the event index feature: it gets no events.
    NotAgreed,
    /// Something other than readable input.
    NotReadable,
    /// Another source than the input device.
    Other,
    /// The input device has events.
    Input,
}

impl BackendView {
    /// A device with nothing selected and no event pending.
    pub open spec fn initial(order: ByteOrder) -> BackendView {
        BackendView {
            event_idx: false,
            select: 0,
            subsel: 0,
            mem: None,
            pending: Seq::empty(),
            order,
        }
    }

    /// What the wake-up for `device_event` with the event set `evset` means.
    pub open spec fn wake_up(self, device_event: u16, evset: u32) -> WakeUp {
        if !self.event_idx {
            WakeUp::NotAgreed
        } else if evset != 1 {
            WakeUp::NotReadable
        } else if device_event != EPOLL_IN_VRING_EVENT_ID {
            WakeUp::Other
        } else {
            WakeUp::Input
        }
    }

    /// Whether `events` can be taken in: where reports are complete then, the memory of the
    /// guest has to be known.
    pub open spec fn can_take(self, events: Seq<DeviceEvent>) -> bool {
        self.mem is Some || complete_len(self.pending + for_guest(events)) == 0
    }
}

impl View for VuInputBackend {
    type V = BackendView;

    closed spec fn view(&self) -> BackendView {
        BackendView {
            event_idx: self.event_idx,
            select: self.select,
            subsel: self.subsel,
            mem: self.mem,
            pending: self.ev_list@,
            order: self.order,
        }
    }
}

impl VuInputBackend {
    /// A device with nothing selected and no event pending, unless the event descriptor that
    /// ends its worker could not be created. It writes in the byte order of the machine.
    pub fn new(exit_event_created: bool) -> (r: Result<Self, VuInputError>)
        ensures
            r is Ok <==> exit_event_created,
            r matches Ok(backend) ==> backend@ == BackendView::initial(backend@.order)
                && backend@.order.is_native(),
            r matches Ok(backend) ==> {
                &&& !backend@.event_idx
                &&& backend@.select == 0
                &&& backend@.subsel == 0
                &&& backend@.mem is None
                &&& backend@.pending.len() == 0
            },
            r matches Err(e) ==> e == VuInputError::EventFdError,
    {
        VuInputBackend::with_order(exit_event_created, ByteOrder::native())
    }

    /// The same, with the byte order of the machine given.
    pub fn with_order(exit_event_created: bool, order: ByteOrder) -> (r: Result<
        Self,
        VuInputError,
    >)
        ensures
            r is Ok <==> exit_event_created,
            r matches Ok(backend) ==> backend@ == BackendView::initial(order),
            r matches Ok(backend) ==> {
                &&& !backend@.event_idx
                &&& backend@.select == 0
                &&& backend@.subsel == 0
                &&& backend@.mem is None
                &&& backend@.pending.len() == 0
                &&& backend@.order == order
            },
            r matches Err(e) ==> e == VuInputError::EventFdError,
    {
        if !exit_event_created {
            return Err(VuInputError::EventFdError);
        }
        Ok(
            VuInputBackend {
                event_idx: false,
                select: 0,
                subsel: 0,
                mem: None,
                ev_list: VecDeque::new(),
                order,
            },
        )
    }

    /// Counts the pending events up to the last one that ends a report.
    fn last_sync_index(&self) -> (r: usize)
        ensures
            r == complete_len(self@.pending),
            r <= self@.pending.len(),
    {
        let mut index: usize = 0;
        let mut last_sync_index: usize = 0;
        while index < self.ev_list.len()
            invariant
                index <= self.ev_list@.len(),
                last_sync_index <= index,
                last_sync_index == complete_len(self.ev_list@.take(index as int)),
            decreases self.ev_list@.len() - index,
        {
            let event = self.ev_list[index];
            index += 1;
            if event.is_report_end() {
                last_sync_index = index;
            }
            proof {
                let seen = self.ev_list@.take(index as int);
                assert(seen.drop_last() =~= self.ev_list@.take(index - 1));
                assert(seen.last() == event);
            }
        }
        proof {
            assert(self.ev_list@.take(index as int) =~= self.ev_list@);
        }
        last_sync_index
    }

    /// Drops the `n` oldest pending events.
    fn drop_front(&mut self, n: usize)
        requires
            n <= old(self)@.pending.len(),
        ensures
            final(self)@ == (BackendView {
                pending: old(self)@.pending.skip(n as int),
                ..old(self)@
            }),
    {
        let mut index: usize = 0;
        proof {
            assert(self.ev_list@ =~= old(self)@.pending.skip(0));
        }
        while index < n
            invariant
                index <= n <= old(self)@.pending.len(),
                self@ == (BackendView {
                    pending: old(self)@.pending.skip(index as int),
                    ..old(self)@
                }),
            decreases n - index,
        {
            self.ev_list.remove(0);
            index += 1;
            proof {
                assert(self.ev_list@ =~= old(self)@.pending.skip(index as int));
            }
        }
    }

    /// Sends the complete reports among the pending events to the guest.
    pub fn process_event(&mut self, vring: &mut Vring) -> (r: Result<bool, VuInputError>)
        requires
            old(self)@.mem is Some || complete_len(old(self)@.pending) == 0,
        ensures
            final(vring).extends(old(vring), final(vring).since(old(vring))),
            event_pass(
                old(self)@.pending,
                old(self)@.order,
                old(self)@.mem,
                final(vring).since(old(vring)),
            ) == Some((r, final(self)@.pending)),
            final(self)@ == (BackendView { pending: final(self)@.pending, ..old(self)@ }),
    {
        let last_sync_index = self.last_sync_index();
        let ghost complete = self@.pending.take(last_sync_index as int);
        let ghost order = self@.order;
        let ghost space = self@.mem->0;
        let ghost mut made: Seq<VringCall> = Seq::empty();
        let mut index: usize = 0;
        proof {
            assert(complete.skip(0) =~= complete);
            assert forall|rest: Seq<VringCall>| #[trigger] delivery(
                complete,
                order,
                space,
                made + rest,
            ) == delivery(complete.skip(0), order, space, rest) by {
                assert(made + rest =~= rest);
            }
        }
        while index < last_sync_index
            invariant
                *self == *old(self),
                index <= last_sync_index <= self@.pending.len(),
                last_sync_index == complete_len(self@.pending),
                complete == self@.pending.take(last_sync_index as int),
                order == self@.order,
                space == self@.mem->0,
                self@.mem is Some || last_sync_index == 0,
                vring.extends(old(vring), made),
                forall|rest: Seq<VringCall>| #[trigger]
                    delivery(complete, order, space, made + rest) == delivery(
                        complete.skip(index as int),
                        order,
                        space,
                        rest,
                    ),
            decreases last_sync_index - index,
        {
            let ghost left = complete.skip(index as int);
            let event = self.ev_list[index];
            index += 1;
            proof {
                assert(left[0] == event);
                assert(left.drop_first() =~= complete.skip(index as int));
            }
            let memory = vring.load_memory(self.mem.as_ref().unwrap());
            let ghost loaded = VringCall::Load { space, memory };
            let popped = vring.pop_descriptor_chain(&memory);
            let ghost pop = VringCall::Pop { memory, chain: chain_view(popped) };
            match popped {
                None => {
                    self.ev_list.clear();
                    let ok = vring.signal_used_queue().is_ok();
                    proof {
                        let last = seq![loaded, pop, VringCall::Signal { ok }];
                        assert(vring.calls() =~= old(vring).calls() + (made + last));
                        assert(vring.since(old(vring)) =~= made + last);
                    }
                    if !ok {
                        return Err(VuInputError::SendNotificationFailed);
                    }
                    return Err(VuInputError::UnexpectedReadDescriptor);
                },
                Some(chain) => {
                    let address = match chain.only_address() {
                        Ok(address) => address,
                        Err(e) => {
                            proof {
                                let last = seq![loaded, pop];
                                assert(vring.calls() =~= old(vring).calls() + (made + last));
                                assert(vring.since(old(vring)) =~= made + last);
                            }
                            return Err(e);
                        },
                    };
                    let bytes = event.to_bytes(self.order);
                    let written = vring.write_memory(&memory, &bytes, address);
                    let ghost write = VringCall::Write {
                        memory,
                        bytes: bytes@,
                        address,
                        written: written_view(written),
                    };
                    let len = match written {
                        Ok(len) => len,
                        Err(_) => {
                            proof {
                                let last = seq![loaded, pop, write];
                                assert(vring.calls() =~= old(vring).calls() + (made + last));
                                assert(vring.since(old(vring)) =~= made + last);
                            }
                            return Err(VuInputError::DescriptorNotWritable);
                        },
                    };
                    let ok = vring.add_used(chain.head, len as u32).is_ok();
                    let ghost first = seq![
                        loaded,
                        pop,
                        write,
                        VringCall::AddUsed { head: chain.head, len: len as u32, ok },
                    ];
                    proof {
                        assert(vring.calls() =~= old(vring).calls() + (made + first));
                        assert(vring.since(old(vring)) =~= made + first);
                    }
                    if !ok {
                        return Err(VuInputError::UnexpectedWriteVringError);
                    }
                    proof {
                        assert forall|rest: Seq<VringCall>| #[trigger]
                            delivery(complete, order, space, (made + first) + rest) == delivery(
                                complete.skip(index as int),
                                order,
                                space,
                                rest,
                            ) by {
                            assert((made + first) + rest =~= made + (first + rest));
                            lemma_first_delivered(left, order, space, first, rest);
                        }
                        made = made + first;
                    }
                },
            }
        }
        proof {
            assert(made + Seq::<VringCall>::empty() =~= made);
            assert(delivery(complete, order, space, made + Seq::empty()) == Some(
                Ok::<bool, VuInputError>(true),
            ));
            assert(vring.since(old(vring)) =~= made);
        }
        self.drop_front(last_sync_index);
        Ok(true)
    }

    /// Tells whether `events` can be taken in: where reports are complete then, the memory of
    /// the guest has to be known.
    pub fn can_process(&self, events: &Vec<DeviceEvent>) -> (r: bool)
        ensures
            r == self@.can_take(events@),
    {
        if self.mem.is_some() {
            return true;
        }
        let ghost pending = self@.pending + for_guest(events@);
        proof {
            law_complete_reports(self@.pending);
            law_complete_reports(pending);
        }
        if self.last_sync_index() != 0 {
            proof {
                assert(pending[complete_len(self@.pending) - 1].ends_report());
            }
            return false;
        }
        let mut index: usize = 0;
        while index < events.len()
            invariant
                self@.mem is None,
                pending == self@.pending + for_guest(events@),
                index <= events@.len(),
                forall|i: int|
                    0 <= i < self@.pending.len() + index ==> !(#[trigger] pending[i]).ends_report(),
            decreases events@.len() - index,
        {
            let event = events[index].to_guest();
            proof {
                assert(pending[self@.pending.len() + index] == event);
            }
            if event.is_report_end() {
                proof {
                    law_complete_reports(pending);
                }
                return false;
            }
            index += 1;
        }
        true
    }

    /// Takes in `events`, read from the input device, sends the complete reports to the guest,
    /// and notifies it.
    pub fn process_queue(&mut self, events: &Vec<DeviceEvent>, vring: &mut Vring) -> (r: Result<
        bool,
        VuInputError,
    >)
        requires
            old(self)@.can_take(events@),
        ensures
            final(vring).extends(old(vring), final(vring).since(old(vring))),
            queue_pass(
                old(self)@.pending + for_guest(events@),
                old(self)@.order,
                old(self)@.mem,
                final(vring).since(old(vring)),
            ) == Some((r, final(self)@.pending)),
            final(self)@ == (BackendView { pending: final(self)@.pending, ..old(self)@ }),
    {
        let mut index: usize = 0;
        proof {
            assert(self@.pending + for_guest(events@.take(0)) =~= self@.pending);
        }
        while index < events.len()
            invariant
                index <= events@.len(),
                self@ == (BackendView {
                    pending: old(self)@.pending + for_guest(events@.take(index as int)),
                    ..old(self)@
                }),
            decreases events@.len() - index,
        {
            self.ev_list.push_back(events[index].to_guest());
            index += 1;
            proof {
                assert(self.ev_list@ =~= old(self)@.pending + for_guest(
                    events@.take(index as int),
                ));
            }
        }
        proof {
            assert(events@.take(index as int) =~= events@);
        }
        match self.process_event(vring) {
            Ok(_) => {},
            Err(e) => {
                return Err(e);
            },
        }
        let ghost delivered = vring.since(old(vring));
        let ok = vring.signal_used_queue().is_ok();
        proof {
            assert(vring.calls() =~= old(vring).calls() + (delivered + seq![
                VringCall::Signal { ok },
            ]));
            assert(vring.since(old(vring)) =~= delivered + seq![VringCall::Signal { ok }]);
            lemma_queue_pass(
                old(self)@.pending + for_guest(events@),
                old(self)@.order,
                old(self)@.mem,
                delivered,
                ok,
            );
        }
        if !ok {
            return Err(VuInputError::SendNotificationFailed);
        }
        Ok(true)
    }

    /// What the wake-up of the worker for `device_event` with the event set `evset` means.
    pub fn wake_up(&self, device_event: u16, evset: u32) -> (r: WakeUp)
        ensures
            r == self@.wake_up(device_event, evset),
    {
        if !self.event_idx {
            WakeUp::NotAgreed
        } else if evset != event_set_in() {
            WakeUp::NotReadable
        } else if device_event as u64 == EPOLL_IN_VRING_EVENT_ID {
            WakeUp::Input
        } else {
            WakeUp::Other
        }
    }

    /// Answers a wake-up of the worker. If it is for the input device, the guest is asked not to
    /// notify the device while its events are served: `EventStep::Fetch` then says that they
    /// have to be read and handed to [`VuInputBackend::handle_fetched`].
    pub fn handle_event(&self, device_event: u16, evset: u32, vrings: &mut Vec<Vring>) -> (r:
        Result<EventStep, VuInputError>)
        requires
            self@.wake_up(device_event, evset) == WakeUp::Input ==> old(vrings)@.len() > 0,
        ensures
            match self@.wake_up(device_event, evset) {
                WakeUp::NotAgreed => r == Ok::<EventStep, VuInputError>(EventStep::Discard)
                    && *final(vrings) == *old(vrings),
                WakeUp::NotReadable => r == Err::<EventStep, VuInputError>(
                    VuInputError::HandleEventNotEpollIn,
                ) && *final(vrings) == *old(vrings),
                WakeUp::Other => r == Ok::<EventStep, VuInputError>(EventStep::Ignore)
                    && *final(vrings) == *old(vrings),
                WakeUp::Input => {
                    let ok = r == Ok::<EventStep, VuInputError>(EventStep::Fetch);
                    &&& final(vrings)@ == old(vrings)@.update(0, final(vrings)@[0])
                    &&& final(vrings)@[0].extends(
                        &old(vrings)@[0],
                        seq![VringCall::DisableNotification { ok }],
                    )
                    &&& !ok ==> r == Err::<EventStep, VuInputError>(
                        VuInputError::NotificationSwitchFailed,
                    )
                },
            },
            r == Ok::<EventStep, VuInputError>(EventStep::Discard) <==> !self@.event_idx,
            r == Err::<EventStep, VuInputError>(VuInputError::HandleEventNotEpollIn)
                <==> self@.event_idx && evset != 1,
            r == Ok::<EventStep, VuInputError>(EventStep::Ignore) <==> self@.event_idx && evset == 1
                && device_event != 3,
            self@.event_idx && evset == 1 && device_event == 3 <==> r == Ok::<
                EventStep,
                VuInputError,
            >(EventStep::Fetch) || r == Err::<EventStep, VuInputError>(
                VuInputError::NotificationSwitchFailed,
            ),
    {
        match self.wake_up(device_event, evset) {
            WakeUp::NotAgreed => Ok(EventStep::Discard),
            WakeUp::NotReadable => Err(VuInputError::HandleEventNotEpollIn),
            WakeUp::Other => Ok(EventStep::Ignore),
            WakeUp::Input => {
                if vrings[0].disable_notification().is_err() {
                    return Err(VuInputError::NotificationSwitchFailed);
                }
                Ok(EventStep::Fetch)
            },
        }
    }

    /// Serves the guest with `events`, read from the input device after
    /// [`VuInputBackend::handle_event`] asked for them.
    pub fn handle_fetched(&mut self, events: &Vec<DeviceEvent>, vrings: &mut Vec<Vring>) -> (r:
        Result<bool, VuInputError>)
        requires
            old(self)@.can_take(events@),
            old(vrings)@.len() > 0,
        ensures
            final(vrings)@ == old(vrings)@.update(0, final(vrings)@[0]),
            final(vrings)@[0].extends(
                &old(vrings)@[0],
                final(vrings)@[0].since(&old(vrings)@[0]),
            ),
            handled_pass(
                old(self)@.pending + for_guest(events@),
                old(self)@.order,
                old(self)@.mem,
                final(vrings)@[0].since(&old(vrings)@[0]),
            ) == Some((r, final(self)@.pending)),
            final(self)@ == (BackendView { pending: final(self)@.pending, ..old(self)@ }),
    {
        match self.process_queue(events, &mut vrings[0]) {
            Ok(_) => {},
            Err(e) => {
                return Err(e);
            },
        }
        let ghost served = vrings@[0].since(&old(vrings)@[0]);
        let ok = vrings[0].enable_notification().is_ok();
        proof {
            let all = served + seq![VringCall::EnableNotification { ok }];
            assert(vrings@[0].calls() =~= old(vrings)@[0].calls() + all);
            assert(vrings@[0].since(&old(vrings)@[0]) =~= all);
            lemma_handled_pass(
                old(self)@.pending + for_guest(events@),
                old(self)@.order,
                old(self)@.mem,
                served,
                ok,
            );
        }
        if !ok {
            return Err(VuInputError::NotificationSwitchFailed);
        }
        Ok(false)
    }

    /// What the input device has to be asked before the guest can read what it selected.
    pub fn config_query(&self) -> (r: ConfigQuery)
        ensures
            r == query_for(self@.select, self@.subsel),
    {
        match self.select {
            VIRTIO_INPUT_CFG_ID_NAME => ConfigQuery::Name,
            VIRTIO_INPUT_CFG_ID_DEVIDS => ConfigQuery::Ids,
            VIRTIO_INPUT_CFG_EV_BITS => match EvKind::of(self.subsel) {
                Some(kind) => ConfigQuery::EvBits(kind),
                None => ConfigQuery::Nothing,
            },
            _ => ConfigQuery::Nothing,
        }
    }

    /// The configuration space with the codes of the selected type of events, given how the
    /// request for them ended.
    pub fn read_event_config(&self, reply: IoctlReply) -> (r: Result<VuInputConfig, VuInputError>)
        ensures
            contents(r) == event_config(self@.select, self@.subsel, reply),
    {
        if EvKind::of(self.subsel).is_none() {
            return Err(VuInputError::HandleEventUnknownEvent);
        }
        match reply {
            IoctlReply::Failed => Err(VuInputError::UnexpectedInputDeviceError),
            IoctlReply::Done { len: _, data } => {
                let config = VuInputConfig {
                    select: self.select,
                    subsel: self.subsel,
                    size: count_used(&data),
                    reserved: [0; 5],
                    val: data,
                };
                proof {
                    assert(config.reserved@ =~= zeros(5));
                }
                Ok(config)
            },
        }
    }

    /// The configuration space with the name of the device, given how the request for it ended.
    pub fn read_name_config(&self, reply: IoctlReply) -> (r: Result<VuInputConfig, VuInputError>)
        requires
            name_is_text(reply),
        ensures
            contents(r) == name_config(self@.select, reply),
    {
        match reply {
            IoctlReply::Failed => Err(VuInputError::UnexpectedInputDeviceError),
            IoctlReply::Done { len, data } => {
                if len as i64 > VIRTIO_INPUT_CFG_SIZE as i64 || len <= 1 {
                    return Err(VuInputError::UnexpectedInputDeviceError);
                }
                let name = string_from_utf8(slice_to_vec(data.as_slice())).unwrap();
                let size = name.as_str().len();
                let config = VuInputConfig {
                    select: self.select,
                    subsel: 0,
                    size: size as u8,
                    reserved: [0; 5],
                    val: data,
                };
                proof {
                    assert(config.reserved@ =~= zeros(5));
                }
                Ok(config)
            },
        }
    }

    /// The configuration space with the identifiers of the device.
    pub fn read_id_config(&self, input_id: InputId) -> (r: Result<VuInputConfig, VuInputError>)
        ensures
            contents(r) == Ok::<ConfigView, VuInputError>(id_config(self@.order, input_id)),
    {
        let dev_id = input_id.to_bytes(self.order);
        let config = VuInputConfig {
            select: VIRTIO_INPUT_CFG_ID_DEVIDS,
            subsel: 0,
            size: VIRTIO_INPUT_CFG_SIZE as u8,
            reserved: [0; 5],
            val: padded(&dev_id),
        };
        proof {
            assert(config.reserved@ =~= zeros(5));
        }
        Ok(config)
    }

    /// What the guest reads of the configuration space, given the answer to
    /// [`VuInputBackend::config_query`]. The whole space is returned whatever the offset.
    pub fn get_config(&self, _offset: u32, size: u32, reply: ConfigReply) -> (r: Vec<u8>)
        requires
            answers(query_for(self@.select, self@.subsel), reply),
            reply matches ConfigReply::Name(name) ==> name_is_text(name),
        ensures
            r@ == config_bytes(self@.select, self@.subsel, self@.order, size, reply),
    {
        let config = match reply {
            ConfigReply::Nothing => {
                return zero_bytes(size);
            },
            ConfigReply::Name(name) => self.read_name_config(name),
            ConfigReply::Ids(id) => self.read_id_config(id),
            ConfigReply::EvBits(bits) => self.read_event_config(bits),
        };
        match config {
            Ok(val) => val.to_bytes(),
            Err(_) => zero_bytes(size),
        }
    }

    /// Takes over what the guest selects with the first two bytes that it writes.
    pub fn set_config(&mut self, _offset: u32, buf: &[u8]) -> (r: Result<(), VuInputError>)
        requires
            buf@.len() >= 2,
        ensures
            r == Ok::<(), VuInputError>(()),
            final(self)@ == (BackendView { select: buf@[0], subsel: buf@[1], ..old(self)@ }),
    {
        self.select = buf[0];
        self.subsel = buf[1];
        Ok(())
    }

    /// Takes note of whether the guest has agreed to the event index feature.
    pub fn set_event_idx(&mut self, enabled: bool)
        ensures
            final(self)@ == (BackendView { event_idx: enabled, ..old(self)@ }),
    {
        self.event_idx = enabled;
    }

    /// Takes over the memory of the guest.
    pub fn update_memory(&mut self, mem: GuestSpace) -> (r: Result<(), VuInputError>)
        ensures
            r == Ok::<(), VuInputError>(()),
            final(self)@ == (BackendView { mem: Some(mem), ..old(self)@ }),
    {
        self.mem = Some(mem);
        Ok(())
    }

    /// How many queues the device has. The wake-ups for them come under the numbers up to
    /// theirs, so that of the input device is a higher one.
    pub fn num_queues(&self) -> (r: usize)
        ensures
            r == 2,
            r < EPOLL_IN_VRING_EVENT_ID,
    {
        NUM_QUEUES
    }

    /// How many descriptors a queue can have.
    pub fn max_queue_size(&self) -> (r: usize)
        ensures
            r == 1024,
    {
        QUEUE_SIZE
    }

    /// The features that the device offers: version 1, indirect descriptors, the event index,
    /// and the negotiation of protocol features.
    pub fn features(&self) -> (r: u64)
        ensures
            r == (1u64 << 32) | (1u64 << 28) | (1u64 << 29) | (1u64 << 30),
            r == 0x1_7000_0000,
    {
        let bits: u64 = 1u64 << version_1() | 1u64 << ring_indirect_desc() | 1u64
            << ring_event_idx() | vhost_user_protocol_features();
        proof {
            assert((1u64 << 32) | (1u64 << 28) | (1u64 << 29) | 0x4000_0000u64 == 0x1_7000_0000u64
                && (1u64 << 30) == 0x4000_0000u64) by (bit_vector);
        }
        bits
    }

    /// The protocol features that the device offers: multiple queues, and the configuration
    /// space.
    pub fn protocol_features(&self) -> (r: u64)
        ensures
            r == (1u64 << 0) | (1u64 << 9),
            r == 0x201,
    {
        proof {
            assert((1u64 << 0) | (1u64 << 9) == 0x201u64 && 0x1u64 | 0x200u64 == 0x201u64)
                by (bit_vector);
        }
        protocol_mq() | protocol_config()
    }
}

/// `size` bytes of zero.
fn zero_bytes(size: u32) -> (r: Vec<u8>)
    ensures
        r@ == zeros(size as nat),
{
    let r = vec![0u8; size as usize];
    proof {
        assert(r@ =~= zeros(size as nat));
    }
    r
}

/// A wake-up means the same for any two states of the device in which the guest has agreed to the
/// event index feature alike: what was selected, which memory is known and what is pending make no
/// difference.
pub proof fn law_wake_up_depends_on_agreement_alone(
    a: BackendView,
    b: BackendView,
    device_event: u16,
    evset: u32,
)
    requires
        a.event_idx == b.event_idx,
    ensures
        a.wake_up(device_event, evset) == b.wake_up(device_event, evset),
{
}

/// Once the guest has agreed to the event index feature, readable input under the number 3 is that
/// of the input device, in every state of the device, and nothing else is. Under any other number
/// it is of another source, and what is not just readable input is none. Before the guest has
/// agreed no wake-up is for it.
pub proof fn law_readable_input_is_served(device: BackendView, device_event: u16, evset: u32)
    ensures
        device.wake_up(device_event, evset) == WakeUp::Input <==> device.event_idx && evset == 1
            && device_event == 3,
        device.wake_up(device_event, evset) == WakeUp::Other <==> device.event_idx && evset == 1
            && device_event != 3,
        device.wake_up(device_event, evset) == WakeUp::NotReadable <==> device.event_idx && evset
            != 1,
        device.wake_up(device_event, evset) == WakeUp::NotAgreed <==> !device.event_idx,
{
}

/// Events can be taken in if the memory of the guest is known, or if there is no end of a report
/// among them and those pending.
pub proof fn law_events_wait_for_memory(device: BackendView, events: Seq<DeviceEvent>)
    ensures
        device.mem is Some ==> device.can_take(events),
        device.mem is None ==> (device.can_take(events) <==> {
            &&& forall|i: int|
                0 <= i < device.pending.len() ==> (#[trigger] device.pending[i]).ev_type != 0
                    || device.pending[i].code != 0
            &&& forall|i: int|
                0 <= i < events.len() ==> (#[trigger] events[i]).event_type != 0 || events[i].code
                    != 0
        }),
{
    let all = device.pending + for_guest(events);
    let n = device.pending.len() as int;
    law_reports_end_with_sync(all);
    law_every_event_is_owed(events);
    assert forall|i: int| 0 <= i < n implies device.pending[i] == #[trigger] all[i] by {}
    assert forall|i: int| 0 <= i < events.len() implies #[trigger] all[n + i] == for_guest(
        events,
    )[i] by {}
    if complete_len(all) == 0 {
        assert forall|i: int| 0 <= i < n implies (#[trigger] device.pending[i]).ev_type != 0
            || device.pending[i].code != 0 by {
            assert(all[i].ev_type != 0 || all[i].code != 0);
        }
        assert forall|i: int| 0 <= i < events.len() implies (#[trigger] events[i]).event_type != 0
            || events[i].code != 0 by {
            assert(all[n + i].ev_type != 0 || all[n + i].code != 0);
        }
    } else {
        let last = complete_len(all) - 1;
        if last < n {
            assert(device.pending[last] == all[last]);
        } else {
            assert(all[n + (last - n)] == for_guest(events)[last - n]);
            assert(events[last - n].event_type == 0);
        }
    }
}

/// A new device has nothing for the guest: no wake-up is for it, it is asked nothing, nothing is
/// pending, and it can take no end of a report before it knows the memory of the guest.
pub proof fn law_new_device_is_idle(order: ByteOrder, device_event: u16, evset: u32)
    ensures
        ({
            let device = BackendView::initial(order);
            &&& device.wake_up(device_event, evset) == WakeUp::NotAgreed
            &&& query_for(device.select, device.subsel) == ConfigQuery::Nothing
            &&& device.pending.len() == 0
            &&& device.mem is None
            &&& device.order == order
        }),
{
}

} // verus!
