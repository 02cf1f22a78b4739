//! Events on their way to the guest, over a ring in real guest memory.

use std::io::{Seek, SeekFrom};

use vhost_device_input::error::VuInputError;
use vhost_device_input::event::{ByteOrder, DeviceEvent, VuInputEvent};
use vhost_device_input::vhu_input::{EventStep, VuInputBackend, WakeUp, EPOLL_IN_VRING_EVENT_ID};
use vhost_device_input::vring::{Chain, GuestSpace, SharedVring, Vring};
use vhost_user_backend::{VringRwLock, VringT};
use vm_memory::{Bytes, GuestAddress, GuestAddressSpace, GuestMemoryAtomic, GuestMemoryMmap};
use vmm_sys_util::epoll::EventSet;
use vmm_sys_util::tempfile::TempFile;

const MEMORY_SIZE: usize = 0x10000;
const DESCRIPTORS: u64 = 0x1000;
const AVAILABLE: u64 = 0x2000;
const USED: u64 = 0x3000;
const BUFFERS: u64 = 0x8000;

const IN: u32 = 1;
const INPUT: u16 = EPOLL_IN_VRING_EVENT_ID as u16;

struct Guest {
    space: GuestMemoryAtomic<GuestMemoryMmap>,
    ring: VringRwLock,
}

impl Guest {
    fn new() -> Guest {
        let memory =
            GuestMemoryMmap::<()>::from_ranges(&[(GuestAddress(0), MEMORY_SIZE)]).unwrap();
        let space = GuestMemoryAtomic::new(memory);
        let ring: VringRwLock = VringRwLock::new(space.clone(), 16).unwrap();
        ring.set_queue_info(DESCRIPTORS, AVAILABLE, USED).unwrap();
        ring.set_queue_ready(true);
        Guest { space, ring }
    }

    fn put<const N: usize>(&self, bytes: [u8; N], address: u64) {
        self.space.memory().write_slice(&bytes, GuestAddress(address)).unwrap();
    }

    fn get<const N: usize>(&self, address: u64) -> [u8; N] {
        let mut bytes = [0u8; N];
        self.space.memory().read_slice(&mut bytes, GuestAddress(address)).unwrap();
        bytes
    }

    fn describe(&self, index: u64, address: u64, next: Option<u16>) {
        let at = DESCRIPTORS + 16 * index;
        self.put(address.to_le_bytes(), at);
        self.put(8u32.to_le_bytes(), at + 8);
        let flags: u16 = if next.is_some() { 2 | 1 } else { 2 };
        self.put(flags.to_le_bytes(), at + 12);
        self.put(next.unwrap_or(0).to_le_bytes(), at + 14);
    }

    fn offer(&self, heads: &[u16]) {
        for (i, head) in heads.iter().enumerate() {
            self.put(head.to_le_bytes(), AVAILABLE + 4 + 2 * i as u64);
        }
        self.put((heads.len() as u16).to_le_bytes(), AVAILABLE + 2);
    }

    /// Offers `n` chains of one descriptor each.
    fn offer_buffers(&self, n: u16) {
        let heads: Vec<u16> = (0..n).collect();
        for head in &heads {
            self.describe(*head as u64, BUFFERS + 8 * *head as u64, None);
        }
        self.offer(&heads);
    }

    fn used_count(&self) -> u16 {
        u16::from_le_bytes(self.get(USED + 2))
    }

    fn used(&self, i: u64) -> (u32, u32) {
        let at = USED + 4 + 8 * i;
        (u32::from_le_bytes(self.get(at)), u32::from_le_bytes(self.get(at + 4)))
    }

    fn received(&self, i: u64) -> VuInputEvent {
        let at = BUFFERS + 8 * i;
        VuInputEvent {
            ev_type: u16::from_ne_bytes(self.get(at)),
            code: u16::from_ne_bytes(self.get(at + 2)),
            value: u32::from_ne_bytes(self.get(at + 4)),
        }
    }

    fn device(&self) -> VuInputBackend {
        let mut device = VuInputBackend::new(true).unwrap();
        device.update_memory(GuestSpace(self.space.clone())).unwrap();
        device.set_event_idx(true);
        device
    }

    fn vring(&self) -> Vring {
        Vring::new(SharedVring(self.ring.clone()))
    }
}

fn key(code: u16, value: i32) -> DeviceEvent {
    DeviceEvent { event_type: 1, code, value }
}

fn report() -> DeviceEvent {
    DeviceEvent { event_type: 0, code: 0, value: 0 }
}

#[test]
fn complete_report_reaches_the_guest_in_order() {
    let guest = Guest::new();
    guest.offer_buffers(4);
    let mut device = guest.device();
    let mut vring = guest.vring();
    let events = vec![key(30, 1), key(31, -1), report()];
    assert!(device.can_process(&events));
    assert_eq!(device.process_queue(&events, &mut vring), Ok(true));
    assert_eq!(guest.used_count(), 3);
    assert_eq!(guest.used(0), (0, 8));
    assert_eq!(guest.used(1), (1, 8));
    assert_eq!(guest.used(2), (2, 8));
    assert_eq!(guest.received(0), VuInputEvent { ev_type: 1, code: 30, value: 1 });
    assert_eq!(guest.received(1), VuInputEvent { ev_type: 1, code: 31, value: 0xffff_ffff });
    assert_eq!(guest.received(2), VuInputEvent { ev_type: 0, code: 0, value: 0 });
    assert_eq!(guest.get::<8>(BUFFERS + 24), [0u8; 8]);
}

#[test]
fn incomplete_report_waits_for_its_end() {
    let guest = Guest::new();
    guest.offer_buffers(5);
    let mut device = guest.device();
    let mut vring = guest.vring();
    assert_eq!(device.process_queue(&vec![key(1, 1), report(), key(2, 1)], &mut vring), Ok(true));
    assert_eq!(guest.used_count(), 2);
    assert_eq!(device.process_queue(&vec![key(3, 1)], &mut vring), Ok(true));
    assert_eq!(guest.used_count(), 2);
    assert_eq!(device.process_queue(&vec![report()], &mut vring), Ok(true));
    assert_eq!(guest.used_count(), 5);
    assert_eq!(guest.received(2), VuInputEvent { ev_type: 1, code: 2, value: 1 });
    assert_eq!(guest.received(3), VuInputEvent { ev_type: 1, code: 3, value: 1 });
    assert_eq!(guest.received(4), VuInputEvent { ev_type: 0, code: 0, value: 0 });
}

#[test]
fn other_synchronisation_events_end_no_report() {
    let guest = Guest::new();
    guest.offer_buffers(3);
    let mut device = guest.device();
    let mut vring = guest.vring();
    let dropped = DeviceEvent { event_type: 0, code: 3, value: 0 };
    let code_zero = DeviceEvent { event_type: 3, code: 0, value: 7 };
    assert_eq!(device.process_queue(&vec![dropped, code_zero], &mut vring), Ok(true));
    assert_eq!(guest.used_count(), 0);
}

#[test]
fn without_descriptors_everything_is_dropped() {
    let guest = Guest::new();
    guest.offer_buffers(1);
    let mut device = guest.device();
    let mut vring = guest.vring();
    assert_eq!(
        device.process_queue(&vec![key(1, 1), report(), key(2, 1)], &mut vring),
        Err(VuInputError::UnexpectedReadDescriptor)
    );
    assert_eq!(guest.used_count(), 1);
    guest.offer_buffers(4);
    assert_eq!(device.process_queue(&vec![report()], &mut vring), Ok(true));
    assert_eq!(guest.used_count(), 2);
    assert_eq!(guest.received(1), VuInputEvent { ev_type: 0, code: 0, value: 0 });
}

#[test]
fn other_failures_keep_everything() {
    let guest = Guest::new();
    guest.describe(0, BUFFERS, None);
    guest.describe(1, BUFFERS + 8, Some(2));
    guest.describe(2, BUFFERS + 16, None);
    guest.describe(3, BUFFERS + 24, None);
    guest.describe(4, BUFFERS + 32, None);
    guest.offer(&[0, 1, 3, 4]);
    let mut device = guest.device();
    let mut vring = guest.vring();
    assert_eq!(
        device.process_queue(&vec![key(9, 1), report()], &mut vring),
        Err(VuInputError::UnexpectedDescriptorCount(2))
    );
    assert_eq!(guest.used_count(), 1);
    assert_eq!(device.process_event(&mut vring), Ok(true));
    assert_eq!(guest.used_count(), 3);
    assert_eq!(guest.used(1), (3, 8));
    assert_eq!(guest.received(3), VuInputEvent { ev_type: 1, code: 9, value: 1 });
    assert_eq!(guest.received(4), VuInputEvent { ev_type: 0, code: 0, value: 0 });
}

#[test]
fn chain_with_a_head_out_of_range_has_no_descriptor() {
    let guest = Guest::new();
    guest.offer(&[99]);
    let mut device = guest.device();
    assert_eq!(
        device.process_queue(&vec![report()], &mut guest.vring()),
        Err(VuInputError::UnexpectedDescriptorCount(0))
    );
}

#[test]
fn descriptor_outside_of_memory_cannot_be_written() {
    let guest = Guest::new();
    guest.describe(0, 0x7fff_0000, None);
    guest.offer(&[0]);
    let mut device = guest.device();
    assert_eq!(
        device.process_queue(&vec![report()], &mut guest.vring()),
        Err(VuInputError::DescriptorNotWritable)
    );
    assert_eq!(guest.used_count(), 0);
}

#[test]
fn event_at_the_end_of_memory_is_cut_short() {
    let guest = Guest::new();
    guest.describe(0, MEMORY_SIZE as u64 - 3, None);
    guest.offer(&[0]);
    let mut device = guest.device();
    let event = VuInputEvent { ev_type: 0, code: 0, value: 0x0102_0304 };
    let end = DeviceEvent { event_type: 0, code: 0, value: 0x0102_0304 };
    assert_eq!(device.process_queue(&vec![end], &mut guest.vring()), Ok(true));
    assert_eq!(guest.used(0), (0, 3));
    let bytes = event.to_bytes(ByteOrder::native());
    assert_eq!(guest.get::<3>(MEMORY_SIZE as u64 - 3).to_vec(), bytes[..3].to_vec());
}

#[test]
fn chain_that_cannot_be_handed_back_is_an_error() {
    let guest = Guest::new();
    guest.offer_buffers(1);
    guest.ring.set_queue_info(DESCRIPTORS, AVAILABLE, 0x7fff_0000).unwrap();
    let mut device = guest.device();
    assert_eq!(
        device.process_queue(&vec![report()], &mut guest.vring()),
        Err(VuInputError::UnexpectedWriteVringError)
    );
}

#[test]
fn guest_is_notified_after_each_pass() {
    let guest = Guest::new();
    guest.offer_buffers(2);
    let call = TempFile::new().unwrap();
    guest.ring.set_call(Some(call.as_file().try_clone().unwrap()));
    let mut device = guest.device();
    let mut vring = guest.vring();
    assert_eq!(call.as_file().metadata().unwrap().len(), 0);
    assert_eq!(device.process_event(&mut vring), Ok(true));
    assert_eq!(call.as_file().metadata().unwrap().len(), 0);
    assert_eq!(device.process_queue(&vec![report()], &mut vring), Ok(true));
    assert_eq!(call.as_file().metadata().unwrap().len(), 8);
    assert_eq!(device.process_queue(&vec![], &mut vring), Ok(true));
    assert_eq!(call.as_file().metadata().unwrap().len(), 16);
}

#[test]
fn nothing_can_be_delivered_before_memory_is_known() {
    let guest = Guest::new();
    let mut device = VuInputBackend::new(true).unwrap();
    assert!(device.can_process(&vec![key(1, 1)]));
    assert!(!device.can_process(&vec![key(1, 1), report()]));
    assert_eq!(device.process_queue(&vec![key(1, 1)], &mut guest.vring()), Ok(true));
    assert!(!device.can_process(&vec![key(2, 1), report(), key(3, 1)]));
    device.update_memory(GuestSpace(guest.space.clone())).unwrap();
    assert!(device.can_process(&vec![report()]));
}

#[test]
fn wake_up_without_event_index_discards() {
    let guest = Guest::new();
    let mut device = guest.device();
    device.set_event_idx(false);
    let mut vrings = vec![guest.vring()];
    assert_eq!(device.wake_up(INPUT, IN), WakeUp::NotAgreed);
    assert_eq!(device.handle_event(INPUT, IN, &mut vrings), Ok(EventStep::Discard));
    assert_eq!(device.handle_event(0, 0, &mut vec![]), Ok(EventStep::Discard));
}

#[test]
fn wake_up_that_is_not_readable_is_an_error() {
    let guest = Guest::new();
    let device = guest.device();
    let both = (EventSet::IN | EventSet::HANG_UP).bits();
    assert_eq!(device.wake_up(INPUT, both), WakeUp::NotReadable);
    assert_eq!(
        device.handle_event(INPUT, both, &mut vec![guest.vring()]),
        Err(VuInputError::HandleEventNotEpollIn)
    );
    assert_eq!(
        device.handle_event(0, EventSet::OUT.bits(), &mut vec![]),
        Err(VuInputError::HandleEventNotEpollIn)
    );
}

#[test]
fn wake_up_for_a_queue_is_ignored() {
    let device = Guest::new().device();
    assert_eq!(device.wake_up(0, EventSet::IN.bits()), WakeUp::Other);
    assert_eq!(device.handle_event(1, EventSet::IN.bits(), &mut vec![]), Ok(EventStep::Ignore));
}

#[test]
fn wake_up_for_input_serves_the_first_queue() {
    let guest = Guest::new();
    let other = Guest::new();
    guest.offer_buffers(1);
    other.offer_buffers(1);
    let mut device = guest.device();
    let mut vrings = vec![guest.vring(), other.vring()];
    assert_eq!(device.wake_up(INPUT, EventSet::IN.bits()), WakeUp::Input);
    assert_eq!(guest.get::<2>(USED), [0, 0]);
    assert_eq!(
        device.handle_event(INPUT, EventSet::IN.bits(), &mut vrings),
        Ok(EventStep::Fetch)
    );
    assert_eq!(guest.get::<2>(USED), [1, 0]);
    assert_eq!(device.handle_fetched(&vec![report()], &mut vrings), Ok(false));
    assert_eq!(guest.get::<2>(USED), [0, 0]);
    assert_eq!(guest.used_count(), 1);
    assert_eq!(other.used_count(), 0);
}

#[test]
fn failed_pass_leaves_notifications_off() {
    let guest = Guest::new();
    let mut device = guest.device();
    let mut vrings = vec![guest.vring()];
    assert_eq!(device.handle_event(INPUT, IN, &mut vrings), Ok(EventStep::Fetch));
    assert_eq!(
        device.handle_fetched(&vec![report()], &mut vrings),
        Err(VuInputError::UnexpectedReadDescriptor)
    );
    assert_eq!(guest.get::<2>(USED), [1, 0]);
}

#[test]
fn notifications_that_cannot_be_switched_are_an_error() {
    let guest = Guest::new();
    let mut device = guest.device();
    let mut vrings = vec![guest.vring()];
    guest.ring.set_queue_info(DESCRIPTORS, AVAILABLE, 0x7fff_0000).unwrap();
    assert_eq!(
        device.handle_event(INPUT, IN, &mut vrings),
        Err(VuInputError::NotificationSwitchFailed)
    );
    assert_eq!(
        device.handle_fetched(&vec![], &mut vrings),
        Err(VuInputError::NotificationSwitchFailed)
    );
}

#[test]
fn chain_has_an_address_only_if_it_is_the_only_one() {
    let one = Chain { head: 4, addresses: vec![0x1234] };
    let none = Chain { head: 4, addresses: vec![] };
    let three = Chain { head: 4, addresses: vec![1, 2, 3] };
    assert_eq!(one.only_address(), Ok(0x1234));
    assert_eq!(none.only_address(), Err(VuInputError::UnexpectedDescriptorCount(0)));
    assert_eq!(three.only_address(), Err(VuInputError::UnexpectedDescriptorCount(3)));
}

/// Moves a file to the last position that it can have, where nothing can be written any more.
fn exhaust(file: &TempFile) {
    let mut low: u64 = 0;
    let mut high: u64 = i64::MAX as u64;
    while low < high {
        let middle = low + (high - low + 1) / 2;
        if file.as_file().seek(SeekFrom::Start(middle)).is_ok() {
            low = middle;
        } else {
            high = middle - 1;
        }
    }
    file.as_file().seek(SeekFrom::Start(low)).unwrap();
}

#[test]
fn guest_that_cannot_be_notified_is_an_error() {
    let guest = Guest::new();
    guest.offer_buffers(2);
    let call = TempFile::new().unwrap();
    exhaust(&call);
    guest.ring.set_call(Some(call.as_file().try_clone().unwrap()));
    let mut device = guest.device();
    let mut vring = guest.vring();
    assert_eq!(
        device.process_queue(&vec![report(), key(5, 1)], &mut vring),
        Err(VuInputError::SendNotificationFailed)
    );
    assert_eq!(guest.used_count(), 1);
    guest.ring.set_call(None);
    assert_eq!(device.process_queue(&vec![], &mut vring), Ok(true));
    assert_eq!(guest.used_count(), 1);
    guest.ring.set_call(Some(call.as_file().try_clone().unwrap()));
    assert_eq!(
        device.process_queue(&vec![report()], &mut vring),
        Err(VuInputError::SendNotificationFailed)
    );
    assert_eq!(guest.used_count(), 2);
    guest.ring.set_call(None);
    guest.offer_buffers(4);
    assert_eq!(device.process_queue(&vec![report()], &mut vring), Ok(true));
    assert_eq!(guest.used_count(), 3);
}
