//! The feature bits that the device offers, as the virtio and vhost-user crates define them.

use vhost::vhost_user::message::{VhostUserProtocolFeatures, VhostUserVirtioFeatures};
use virtio_bindings::bindings::virtio_config::VIRTIO_F_VERSION_1;
use virtio_bindings::bindings::virtio_ring::{
    VIRTIO_RING_F_EVENT_IDX, VIRTIO_RING_F_INDIRECT_DESC,
};
use vmm_sys_util::epoll::EventSet;
use vstd::prelude::*;

verus! {

/// `VIRTIO_F_VERSION_1`: the number of the feature bit of version 1 devices.
#[verifier::external_body]
pub(crate) fn version_1() -> (r: u32)
    ensures
        r == 32,
{
    VIRTIO_F_VERSION_1
}

/// `VIRTIO_RING_F_INDIRECT_DESC`: the number of the feature bit of indirect descriptors.
#[verifier::external_body]
pub(crate) fn ring_indirect_desc() -> (r: u32)
    ensures
        r == 28,
{
    VIRTIO_RING_F_INDIRECT_DESC
}

/// `VIRTIO_RING_F_EVENT_IDX`: the number of the feature bit of the event index.
#[verifier::external_body]
pub(crate) fn ring_event_idx() -> (r: u32)
    ensures
        r == 29,
{
    VIRTIO_RING_F_EVENT_IDX
}

/// `VhostUserVirtioFeatures::bits` of `PROTOCOL_FEATURES`: the feature bit by which protocol
/// features are negotiated.
#[verifier::external_body]
pub(crate) fn vhost_user_protocol_features() -> (r: u64)
    ensures
        r == 0x4000_0000,
{
    VhostUserVirtioFeatures::PROTOCOL_FEATURES.bits()
}

/// `VhostUserProtocolFeatures::bits` of `MQ`: the protocol feature of multiple queues.
#[verifier::external_body]
pub(crate) fn protocol_mq() -> (r: u64)
    ensures
        r == 0x1,
{
    VhostUserProtocolFeatures::MQ.bits()
}

/// `VhostUserProtocolFeatures::bits` of `CONFIG`: the protocol feature of the configuration
/// space.
#[verifier::external_body]
pub(crate) fn protocol_config() -> (r: u64)
    ensures
        r == 0x200,
{
    VhostUserProtocolFeatures::CONFIG.bits()
}

/// `EventSet::bits` of `IN`: the event set of a descriptor that can be read.
#[verifier::external_body]
pub(crate) fn event_set_in() -> (r: u32)
    ensures
        r == 0x1,
{
    EventSet::IN.bits()
}

} // verus!
