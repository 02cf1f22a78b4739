//! What the guest reads and writes of the configuration, and what the device offers.

use vhost::vhost_user::message::{VhostUserProtocolFeatures, VhostUserVirtioFeatures};
use vhost_device_input::config::{
    count_used, name_can_be_read, padded, ConfigQuery, ConfigReply, EvKind, InputId, IoctlReply, VuInputConfig,
};
use vhost_device_input::error::VuInputError;
use vhost_device_input::event::{ByteOrder, DeviceEvent, VuInputEvent};
use vhost_device_input::vhu_input::{VuInputBackend, EPOLL_IN_VRING_EVENT_ID};

fn device(select: u8, subsel: u8) -> VuInputBackend {
    let mut device = VuInputBackend::new(true).unwrap();
    device.set_config(0, &[select, subsel, 77]).unwrap();
    device
}

fn buffer(text: &[u8]) -> [u8; 128] {
    let mut data = [0u8; 128];
    data[..text.len()].copy_from_slice(text);
    data
}

#[test]
fn device_without_exit_event_is_not_created() {
    assert!(matches!(
        VuInputBackend::new(false),
        Err(VuInputError::EventFdError)
    ));
    assert!(matches!(
        VuInputBackend::with_order(false, ByteOrder::Little),
        Err(VuInputError::EventFdError)
    ));
}

#[test]
fn new_device_has_nothing_selected() {
    let device = VuInputBackend::new(true).unwrap();
    assert_eq!(device.config_query(), ConfigQuery::Nothing);
    assert_eq!(device.get_config(0, 5, ConfigReply::Nothing), vec![0u8; 5]);
}

#[test]
fn selection_decides_what_is_asked() {
    assert_eq!(device(0x01, 9).config_query(), ConfigQuery::Name);
    assert_eq!(device(0x03, 9).config_query(), ConfigQuery::Ids);
    assert_eq!(device(0x11, 1).config_query(), ConfigQuery::EvBits(EvKind::Key));
    assert_eq!(device(0x11, 2).config_query(), ConfigQuery::EvBits(EvKind::Relative));
    assert_eq!(device(0x11, 3).config_query(), ConfigQuery::EvBits(EvKind::Absolute));
    assert_eq!(device(0x11, 4).config_query(), ConfigQuery::EvBits(EvKind::Misc));
    assert_eq!(device(0x11, 5).config_query(), ConfigQuery::EvBits(EvKind::Switch));
    assert_eq!(device(0x11, 0).config_query(), ConfigQuery::Nothing);
    assert_eq!(device(0x11, 6).config_query(), ConfigQuery::Nothing);
    assert_eq!(device(0x02, 1).config_query(), ConfigQuery::Nothing);
    assert_eq!(device(0x10, 1).config_query(), ConfigQuery::Nothing);
}

#[test]
fn requests_are_numbered_by_the_subselection() {
    assert_eq!(EvKind::Key.request(), 0x21);
    assert_eq!(EvKind::Relative.request(), 0x22);
    assert_eq!(EvKind::Absolute.request(), 0x23);
    assert_eq!(EvKind::Misc.request(), 0x24);
    assert_eq!(EvKind::Switch.request(), 0x25);
    for subsel in 0..=255 {
        let expected = if (1..=5).contains(&subsel) { Some(0x20 + subsel) } else { None };
        assert_eq!(device(0x11, subsel).config_query().request(), expected);
    }
    assert_eq!(device(0x01, 0).config_query().request(), Some(0x06));
    assert_eq!(device(0x03, 0).config_query().request(), None);
    assert_eq!(device(0x00, 1).config_query().request(), None);
}

#[test]
fn unsupported_selection_reads_zeros() {
    assert_eq!(device(0x10, 0).get_config(0, 3, ConfigReply::Nothing), vec![0, 0, 0]);
    assert_eq!(device(0x11, 0x15).get_config(4, 0, ConfigReply::Nothing), Vec::<u8>::new());
}

#[test]
fn name_is_handed_on_with_its_whole_buffer() {
    let data = buffer(b"Keyboard\0");
    let reply = IoctlReply::Done { len: 9, data };
    let config = device(0x01, 5).read_name_config(reply).unwrap();
    assert_eq!(
        config,
        VuInputConfig { select: 0x01, subsel: 0, size: 128, reserved: [0; 5], val: data }
    );
    let bytes = device(0x01, 5).get_config(0, 136, ConfigReply::Name(reply));
    assert_eq!(bytes.len(), 136);
    assert_eq!(bytes[..8].to_vec(), vec![1, 0, 128, 0, 0, 0, 0, 0]);
    assert_eq!(bytes[8..].to_vec(), data.to_vec());
}

#[test]
fn name_counts_bytes_and_not_characters() {
    let data = buffer("Tast\u{e4}tur".as_bytes());
    let config = device(0x01, 0).read_name_config(IoctlReply::Done { len: 10, data }).unwrap();
    assert_eq!(config.size, 128);
}

#[test]
fn unusable_names_are_refused() {
    let data = buffer(b"x");
    let device = device(0x01, 0);
    for len in [0, 1, -1, 129, i32::MAX, i32::MIN] {
        let reply = IoctlReply::Done { len, data };
        assert_eq!(
            device.read_name_config(reply),
            Err(VuInputError::UnexpectedInputDeviceError)
        );
        assert_eq!(device.get_config(0, 7, ConfigReply::Name(reply)), vec![0u8; 7]);
    }
    assert_eq!(
        device.read_name_config(IoctlReply::Failed),
        Err(VuInputError::UnexpectedInputDeviceError)
    );
    assert!(device.read_name_config(IoctlReply::Done { len: 2, data }).is_ok());
    assert!(device.read_name_config(IoctlReply::Done { len: 128, data }).is_ok());
}

#[test]
fn only_usable_names_have_to_be_text() {
    let text = buffer("Tast\u{e4}tur".as_bytes());
    let broken = buffer(&[b'x', 0xff]);
    let cut = buffer(&[b'x', 0xc3]);
    assert!(name_can_be_read(&IoctlReply::Failed));
    for len in [i32::MIN, -1, 0, 1, 129, i32::MAX] {
        assert!(name_can_be_read(&IoctlReply::Done { len, data: broken }));
    }
    for len in [2, 10, 128] {
        assert!(name_can_be_read(&IoctlReply::Done { len, data: text }));
        assert!(!name_can_be_read(&IoctlReply::Done { len, data: broken }));
        assert!(!name_can_be_read(&IoctlReply::Done { len, data: cut }));
    }
}

#[test]
fn new_device_writes_in_the_order_of_the_machine() {
    let id = InputId { bus_type: 0x0102, vendor: 3, product: 4, version: 5 };
    let first = |device: VuInputBackend| device.read_id_config(id).unwrap().val[..2].to_vec();
    let with = |order| VuInputBackend::with_order(true, order).unwrap();
    assert_eq!(first(VuInputBackend::new(true).unwrap()), 0x0102u16.to_ne_bytes().to_vec());
    assert_eq!(first(with(ByteOrder::Little)), vec![2, 1]);
    assert_eq!(first(with(ByteOrder::Big)), vec![1, 2]);
}

#[test]
fn identifiers_lie_one_after_the_other() {
    let id = InputId { bus_type: 0x0003, vendor: 0x046d, product: 0xc31c, version: 0x0110 };
    let config = device(0x03, 8).read_id_config(id).unwrap();
    assert_eq!((config.select, config.subsel, config.size), (0x03, 0, 128));
    assert_eq!(config.val[..2].to_vec(), 0x0003u16.to_ne_bytes().to_vec());
    assert_eq!(config.val[2..4].to_vec(), 0x046du16.to_ne_bytes().to_vec());
    assert_eq!(config.val[4..6].to_vec(), 0xc31cu16.to_ne_bytes().to_vec());
    assert_eq!(config.val[6..8].to_vec(), 0x0110u16.to_ne_bytes().to_vec());
    assert_eq!(config.val[8..].to_vec(), vec![0u8; 120]);
    assert_eq!(device(0x03, 8).get_config(0, 1, ConfigReply::Ids(id)), config.to_bytes());
}

#[test]
fn codes_are_counted_up_to_the_last_in_use() {
    let data = buffer(&[0, 0xff, 0, 0, 4]);
    let reply = IoctlReply::Done { len: 96, data };
    let config = device(0x11, 0x01).read_event_config(reply).unwrap();
    assert_eq!(
        config,
        VuInputConfig { select: 0x11, subsel: 0x01, size: 5, reserved: [0; 5], val: data }
    );
    let bytes = device(0x11, 0x01).get_config(0, 200, ConfigReply::EvBits(reply));
    assert_eq!(bytes, config.to_bytes());
    assert_eq!(bytes[..3].to_vec(), vec![0x11, 0x01, 5]);
}

#[test]
fn counting_covers_the_whole_buffer() {
    assert_eq!(count_used(&[0; 128]), 0);
    assert_eq!(count_used(&[1; 128]), 128);
    let mut last = [0; 128];
    last[127] = 1;
    assert_eq!(count_used(&last), 128);
    last[127] = 0;
    last[0] = 1;
    assert_eq!(count_used(&last), 1);
}

#[test]
fn failed_requests_for_codes_are_errors() {
    assert_eq!(
        device(0x11, 0x02).read_event_config(IoctlReply::Failed),
        Err(VuInputError::UnexpectedInputDeviceError)
    );
    assert_eq!(
        device(0x11, 0x00).read_event_config(IoctlReply::Done { len: 1, data: [1; 128] }),
        Err(VuInputError::HandleEventUnknownEvent)
    );
    assert_eq!(
        device(0x11, 0x02).get_config(0, 2, ConfigReply::EvBits(IoctlReply::Failed)),
        vec![0, 0]
    );
}

#[test]
fn padding_is_zero() {
    assert_eq!(padded(&vec![]), [0; 128]);
    assert_eq!(padded(&vec![7; 128]), [7; 128]);
    assert_eq!(padded(&vec![1, 2]), buffer(&[1, 2]));
}

#[test]
fn queues_and_features() {
    let device = device(0, 0);
    assert_eq!(device.num_queues(), 2);
    assert!(EPOLL_IN_VRING_EVENT_ID > device.num_queues() as u64);
    assert_eq!(device.max_queue_size(), 1024);
    assert_eq!(device.features(), 0x1_7000_0000);
    assert_ne!(device.features() & VhostUserVirtioFeatures::PROTOCOL_FEATURES.bits(), 0);
    assert_eq!(
        device.protocol_features(),
        (VhostUserProtocolFeatures::MQ | VhostUserProtocolFeatures::CONFIG).bits()
    );
    assert_eq!(device.protocol_features(), 0x201);
}

#[test]
fn events_in_both_byte_orders() {
    let event = VuInputEvent { ev_type: 0x0102, code: 0x0304, value: 0x0506_0708 };
    assert_eq!(event.to_bytes(ByteOrder::Little), vec![2, 1, 4, 3, 8, 7, 6, 5]);
    assert_eq!(event.to_bytes(ByteOrder::Big), vec![1, 2, 3, 4, 5, 6, 7, 8]);
}

#[test]
fn native_order_is_that_of_the_machine() {
    let event = VuInputEvent { ev_type: 0x0102, code: 0, value: 0 };
    assert_eq!(
        event.to_bytes(ByteOrder::native())[..2].to_vec(),
        0x0102u16.to_ne_bytes().to_vec()
    );
    assert_eq!(ByteOrder::of_one([1, 0]), ByteOrder::Little);
    assert_eq!(ByteOrder::of_one([0, 1]), ByteOrder::Big);
}

#[test]
fn values_are_sent_in_twos_complement() {
    for value in [0, 1, -1, i32::MAX, i32::MIN, -300] {
        let event = DeviceEvent { event_type: 2, code: 8, value };
        assert_eq!(event.to_guest().value, value as u32);
    }
    assert!(DeviceEvent { event_type: 0, code: 0, value: 5 }.to_guest().is_report_end());
    assert!(!DeviceEvent { event_type: 0, code: 1, value: 0 }.to_guest().is_report_end());
    assert!(!DeviceEvent { event_type: 1, code: 0, value: 0 }.to_guest().is_report_end());
}

#[test]
fn errors_say_what_happened() {
    let say = |e: VuInputError| e.message();
    assert_eq!(say(VuInputError::SendNotificationFailed), "Notification send failed");
    assert_eq!(say(VuInputError::EventFdError), "Can't create eventFd");
    assert_eq!(say(VuInputError::HandleEventNotEpollIn), "Failed to handle event");
    assert_eq!(say(VuInputError::HandleEventUnknownEvent), "Unknown device event");
    assert_eq!(say(VuInputError::UnexpectedDescriptorCount(0)), "Too many descriptors: 0");
    assert_eq!(say(VuInputError::UnexpectedDescriptorCount(1047)), "Too many descriptors: 1047");
    assert_eq!(
        say(VuInputError::UnexpectedDescriptorCount(usize::MAX)),
        format!("Too many descriptors: {}", usize::MAX)
    );
    assert_eq!(say(VuInputError::UnexpectedReadDescriptor), "Unexpected Read Descriptor");
    assert_eq!(
        say(VuInputError::UnexpectedInputDeviceError),
        "Failed to read from the input device"
    );
    assert_eq!(say(VuInputError::UnexpectedWriteVringError), "Failed to write event to vring");
    assert_eq!(
        say(VuInputError::DescriptorNotWritable),
        "Failed to write event to guest memory"
    );
    assert_eq!(say(VuInputError::NotificationSwitchFailed), "Failed to switch notifications");
}
