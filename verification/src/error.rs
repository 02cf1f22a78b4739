//! What can go wrong while the device serves its guest.

use vstd::prelude::*;
use vstd::string::StringExecFns;

use crate::text::{decimal, law_decimal_reads_back, number_of, push_decimal};

verus! {

/// Errors of the input device.
#[derive(Clone, Copy, Debug, PartialEq, Eq, Structural)]
pub enum VuInputError {
    /// The guest could not be notified of used descriptors.
    SendNotificationFailed,
    /// The event descriptor that ends the worker could not be created.
    EventFdError,
    /// The worker was woken by something other than readable input.
    HandleEventNotEpollIn,
    /// The guest asked for the codes of an event type that the device does not report.
    HandleEventUnknownEvent,
    /// A descriptor chain of the guest holds a number of descriptors other than one.
    UnexpectedDescriptorCount(usize),
    /// The guest offers no descriptor for an event that is due.
    UnexpectedReadDescriptor,
    /// The input device gave no usable answer.
    UnexpectedInputDeviceError,
    /// A used descriptor could not be handed back to the guest.
    UnexpectedWriteVringError,
    /// The memory that a descriptor names could not be written. The daemon does not go on.
    DescriptorNotWritable,
    /// Notifications of the queue could not be switched. The daemon does not go on.
    NotificationSwitchFailed,
}

impl VuInputError {
    /// What the error says.
    pub open spec fn text(self) -> Seq<char> {
        match self {
            VuInputError::SendNotificationFailed => "Notification send failed"@,
            VuInputError::EventFdError => "Can't create eventFd"@,
            VuInputError::HandleEventNotEpollIn => "Failed to handle event"@,
            VuInputError::HandleEventUnknownEvent => "Unknown device event"@,
            VuInputError::UnexpectedDescriptorCount(n) => "Too many descriptors: "@ + decimal(
                n as nat,
            ),
            VuInputError::UnexpectedReadDescriptor => "Unexpected Read Descriptor"@,
            VuInputError::UnexpectedInputDeviceError => "Failed to read from the input device"@,
            VuInputError::UnexpectedWriteVringError => "Failed to write event to vring"@,
            VuInputError::DescriptorNotWritable => "Failed to write event to guest memory"@,
            VuInputError::NotificationSwitchFailed => "Failed to switch notifications"@,
        }
    }

    /// What the error says.
    pub fn message(&self) -> (r: String)
        ensures
            r@ == self.text(),
    {
        match self {
            VuInputError::SendNotificationFailed => "Notification send failed".to_owned(),
            VuInputError::EventFdError => "Can't create eventFd".to_owned(),
            VuInputError::HandleEventNotEpollIn => "Failed to handle event".to_owned(),
            VuInputError::HandleEventUnknownEvent => "Unknown device event".to_owned(),
            VuInputError::UnexpectedDescriptorCount(n) => {
                let mut r = "Too many descriptors: ".to_owned();
                push_decimal(&mut r, *n as u64);
                r
            },
            VuInputError::UnexpectedReadDescriptor => "Unexpected Read Descriptor".to_owned(),
            VuInputError::UnexpectedInputDeviceError => {
                "Failed to read from the input device".to_owned()
            },
            VuInputError::UnexpectedWriteVringError => "Failed to write event to vring".to_owned(),
            VuInputError::DescriptorNotWritable => {
                "Failed to write event to guest memory".to_owned()
            },
            VuInputError::NotificationSwitchFailed => "Failed to switch notifications".to_owned(),
        }
    }
}

/// A wrong count of descriptors is said in decimal, behind words of its own: the digits read back
/// as the count.
pub proof fn law_count_is_said(n: usize)
    ensures
        ({
            let text = VuInputError::UnexpectedDescriptorCount(n).text();
            let words = "Too many descriptors: "@.len() as int;
            let digits = text.skip(words);
            &&& text.take(words) == "Too many descriptors: "@
            &&& number_of(digits) == n
            &&& digits.len() > 0
            &&& forall|i: int| 0 <= i < digits.len() ==> '0' <= #[trigger] digits[i] <= '9'
            &&& digits.len() > 1 ==> digits[0] != '0'
        }),
{
    let text = VuInputError::UnexpectedDescriptorCount(n).text();
    let words = "Too many descriptors: "@.len() as int;
    law_decimal_reads_back(n as nat);
    assert(text.take(words) =~= "Too many descriptors: "@);
    assert(text.skip(words) =~= decimal(n as nat));
}

} // verus!
