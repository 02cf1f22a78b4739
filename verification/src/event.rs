//! Input events, and the bytes in which the guest receives them.

use vstd::prelude::*;

verus! {

/// Type of the events that separate one report from the next.
pub const EV_SYN: u8 = 0x00;

/// Type of key and button events.
pub const EV_KEY: u8 = 0x01;

/// Type of events on relative axes.
pub const EV_REL: u8 = 0x02;

/// Type of events on absolute axes.
pub const EV_ABS: u8 = 0x03;

/// Type of miscellaneous events.
pub const EV_MSC: u8 = 0x04;

/// Type of switch events.
pub const EV_SW: u8 = 0x05;

/// Code of the event that ends a report.
pub const SYN_REPORT: u8 = 0x00;

/// The order in which the bytes of a number lie in memory.
#[derive(Clone, Copy, Debug, PartialEq, Eq, Structural)]
pub enum ByteOrder {
    Little,
    Big,
}

/// The two bytes of `x`.
pub open spec fn u16_bytes(x: u16, order: ByteOrder) -> Seq<u8> {
    match order {
        ByteOrder::Little => seq![(x % 0x100) as u8, (x / 0x100) as u8],
        ByteOrder::Big => seq![(x / 0x100) as u8, (x % 0x100) as u8],
    }
}

/// The four bytes of `x`: those of its two halves.
pub open spec fn u32_bytes(x: u32, order: ByteOrder) -> Seq<u8> {
    let low = (x % 0x1_0000) as u16;
    let high = (x / 0x1_0000) as u16;
    match order {
        ByteOrder::Little => u16_bytes(low, order) + u16_bytes(high, order),
        ByteOrder::Big => u16_bytes(high, order) + u16_bytes(low, order),
    }
}

/// `u16::to_ne_bytes`: the bytes of `x` in the order of the machine, which is one of the two.
/// Which one it is, is left unsaid: it differs from machine to machine.
#[verifier::external_body]
fn to_ne_bytes(x: u16) -> (r: [u8; 2])
    ensures
        r@ == u16_bytes(x, ByteOrder::Little) || r@ == u16_bytes(x, ByteOrder::Big),
{
    x.to_ne_bytes()
}

/// Whether `bytes` are what the machine can give for the bytes of `x`: an answer of
/// `u16::to_ne_bytes` to `x`.
pub closed spec fn machine_bytes(x: u16, bytes: [u8; 2]) -> bool {
    call_ensures(to_ne_bytes, (x,), bytes)
}

impl ByteOrder {
    /// Whether this is the order in which the machine writes the number one.
    pub open spec fn is_native(self) -> bool {
        exists|bytes: [u8; 2]| #[trigger]
            machine_bytes(1, bytes) && bytes@ == u16_bytes(1, self)
    }

    /// The order in which the machine wrote the number one as `bytes`.
    pub fn of_one(bytes: [u8; 2]) -> (r: ByteOrder)
        ensures
            r == (if bytes@[0] == 1 {
                ByteOrder::Little
            } else {
                ByteOrder::Big
            }),
            bytes@ == u16_bytes(1, ByteOrder::Little) || bytes@ == u16_bytes(1, ByteOrder::Big)
                ==> bytes@ == u16_bytes(1, r),
    {
        if bytes[0] == 1 {
            ByteOrder::Little
        } else {
            ByteOrder::Big
        }
    }

    /// The byte order of the machine: the one in which it writes the number one.
    pub fn native() -> (r: ByteOrder)
        ensures
            r.is_native(),
    {
        let bytes = to_ne_bytes(1);
        proof {
            lemma_machine_was_asked(1, bytes);
        }
        ByteOrder::of_one(bytes)
    }

    /// Appends the bytes of `x` to `out`.
    pub fn push_u16(self, x: u16, out: &mut Vec<u8>)
        ensures
            final(out)@ == old(out)@ + u16_bytes(x, self),
    {
        let low: u8 = (x % 0x100) as u8;
        let high: u8 = (x / 0x100) as u8;
        match self {
            ByteOrder::Little => {
                out.push(low);
                out.push(high);
            },
            ByteOrder::Big => {
                out.push(high);
                out.push(low);
            },
        }
    }

    /// Appends the bytes of `x` to `out`.
    pub fn push_u32(self, x: u32, out: &mut Vec<u8>)
        ensures
            final(out)@ == old(out)@ + u32_bytes(x, self),
    {
        let low: u16 = (x % 0x1_0000) as u16;
        let high: u16 = (x / 0x1_0000) as u16;
        match self {
            ByteOrder::Little => {
                self.push_u16(low, out);
                self.push_u16(high, out);
            },
            ByteOrder::Big => {
                self.push_u16(high, out);
                self.push_u16(low, out);
            },
        }
    }
}

/// An event as the input device reports it.
#[derive(Clone, Copy, Debug, PartialEq, Eq, Structural)]
pub struct DeviceEvent {
    pub event_type: u16,
    pub code: u16,
    pub value: i32,
}

/// An event as the guest receives it.
#[derive(Clone, Copy, Debug, PartialEq, Eq, Structural)]
pub struct VuInputEvent {
    pub ev_type: u16,
    pub code: u16,
    pub value: u32,
}

impl DeviceEvent {
    /// The event for the guest: a negative value is sent in two's complement.
    pub open spec fn for_guest(self) -> VuInputEvent {
        VuInputEvent {
            ev_type: self.event_type,
            code: self.code,
            value: (if self.value >= 0 {
                self.value as int
            } else {
                self.value + 0x1_0000_0000
            }) as u32,
        }
    }

    /// Converts the event to the form that the guest receives.
    pub fn to_guest(&self) -> (r: VuInputEvent)
        ensures
            r == self.for_guest(),
    {
        let value: u32 = if self.value >= 0 {
            self.value as u32
        } else {
            (self.value as i64 + 0x1_0000_0000) as u32
        };
        VuInputEvent { ev_type: self.event_type, code: self.code, value }
    }
}

impl VuInputEvent {
    /// Whether the event ends a report.
    pub open spec fn ends_report(self) -> bool {
        self.ev_type == EV_SYN && self.code == SYN_REPORT
    }

    /// The bytes of the event: type, code and value, one after the other.
    pub open spec fn bytes(self, order: ByteOrder) -> Seq<u8> {
        u16_bytes(self.ev_type, order) + u16_bytes(self.code, order) + u32_bytes(self.value, order)
    }

    /// Tells whether the event ends a report.
    pub fn is_report_end(&self) -> (r: bool)
        ensures
            r == self.ends_report(),
    {
        self.ev_type == EV_SYN as u16 && self.code == SYN_REPORT as u16
    }

    /// The bytes that the guest receives.
    pub fn to_bytes(&self, order: ByteOrder) -> (r: Vec<u8>)
        ensures
            r@ == self.bytes(order),
            r@.len() == 8,
    {
        let mut out: Vec<u8> = Vec::new();
        order.push_u16(self.ev_type, &mut out);
        order.push_u16(self.code, &mut out);
        order.push_u32(self.value, &mut out);
        out
    }
}

/// How many events of `events` belong to reports that are complete: all up to the last event
/// that ends a report.
pub open spec fn complete_len(events: Seq<VuInputEvent>) -> nat
    decreases events.len(),
{
    if events.len() == 0 {
        0
    } else if events.last().ends_report() {
        events.len()
    } else {
        complete_len(events.drop_last())
    }
}

/// The bytes of an event tell which event it is, in either byte order.
pub proof fn law_event_bytes_are_unambiguous(
    a: VuInputEvent,
    b: VuInputEvent,
    order: ByteOrder,
)
    ensures
        a.bytes(order) == b.bytes(order) <==> a == b,
{
    if a.bytes(order) == b.bytes(order) {
        let s = a.bytes(order);
        let t = b.bytes(order);
        assert(s[0] == t[0] && s[1] == t[1] && s[2] == t[2] && s[3] == t[3]);
        assert(s[4] == t[4] && s[5] == t[5] && s[6] == t[6] && s[7] == t[7]);
    }
}

/// What is complete ends with the end of a report, and no report ends in the rest.
pub proof fn law_complete_reports(events: Seq<VuInputEvent>)
    ensures
        complete_len(events) <= events.len(),
        complete_len(events) > 0 ==> events[complete_len(events) - 1].ends_report(),
        forall|i: int|
            complete_len(events) <= i < events.len() ==> !(#[trigger] events[i]).ends_report(),
    decreases events.len(),
{
    if events.len() > 0 && !events.last().ends_report() {
        law_complete_reports(events.drop_last());
        assert forall|i: int| complete_len(events) <= i < events.len() implies !(
        #[trigger] events[i]).ends_report() by {
            if i < events.len() - 1 {
                assert(events.drop_last()[i] == events[i]);
            }
        }
    }
}

/// Different events of the input device are different events for the guest.
pub proof fn law_no_value_is_lost(a: DeviceEvent, b: DeviceEvent)
    ensures
        a.for_guest() == b.for_guest() <==> a == b,
{
}

/// The number that two bytes stand for in a byte order.
pub open spec fn number_of_two(bytes: Seq<u8>, order: ByteOrder) -> int {
    match order {
        ByteOrder::Little => bytes[0] + 0x100 * bytes[1],
        ByteOrder::Big => bytes[1] + 0x100 * bytes[0],
    }
}

/// The number that four bytes stand for in a byte order.
pub open spec fn number_of_four(bytes: Seq<u8>, order: ByteOrder) -> int {
    match order {
        ByteOrder::Little => bytes[0] + 0x100 * bytes[1] + 0x1_0000 * bytes[2] + 0x100_0000
            * bytes[3],
        ByteOrder::Big => bytes[3] + 0x100 * bytes[2] + 0x1_0000 * bytes[1] + 0x100_0000 * bytes[0],
    }
}

/// The bytes of a number read back as that number: the least significant lies first in the one
/// order, and last in the other.
pub proof fn law_numbers_read_back(x: u16, y: u32, order: ByteOrder)
    ensures
        u16_bytes(x, order).len() == 2,
        number_of_two(u16_bytes(x, order), order) == x,
        u32_bytes(y, order).len() == 4,
        number_of_four(u32_bytes(y, order), order) == y,
        u16_bytes(x, ByteOrder::Little) == u16_bytes(x, ByteOrder::Big).reverse(),
        u32_bytes(y, ByteOrder::Little) == u32_bytes(y, ByteOrder::Big).reverse(),
{
    assert(u16_bytes(x, ByteOrder::Little) =~= u16_bytes(x, ByteOrder::Big).reverse());
    assert(u32_bytes(y, ByteOrder::Little) =~= u32_bytes(y, ByteOrder::Big).reverse());
}

/// The guest reads back each field of an event from its place in the bytes that it receives:
/// the type from the first two, the code from the next two, and the value from the last four.
pub proof fn law_event_reads_back(event: VuInputEvent, order: ByteOrder)
    ensures
        ({
            let b = event.bytes(order);
            &&& b.len() == 8
            &&& order == ByteOrder::Little ==> {
                &&& b[0] + 0x100 * b[1] == event.ev_type
                &&& b[2] + 0x100 * b[3] == event.code
                &&& b[4] + 0x100 * b[5] + 0x1_0000 * b[6] + 0x100_0000 * b[7] == event.value
            }
            &&& order == ByteOrder::Big ==> {
                &&& b[1] + 0x100 * b[0] == event.ev_type
                &&& b[3] + 0x100 * b[2] == event.code
                &&& b[7] + 0x100 * b[6] + 0x1_0000 * b[5] + 0x100_0000 * b[4] == event.value
            }
        }),
{
}

/// An event reaches the guest with the type and the code that the device reported, and with a
/// value that differs from the reported one by a multiple of two to the power of 32.
pub proof fn law_event_is_kept(event: DeviceEvent)
    ensures
        event.for_guest().ev_type == event.event_type,
        event.for_guest().code == event.code,
        (event.for_guest().value - event.value) % 0x1_0000_0000 == 0,
        event.value >= 0 ==> event.for_guest().value == event.value,
{
}

/// What is complete ends with an event of type 0 and code 0, whatever its value, and no such
/// event is in the rest.
pub proof fn law_reports_end_with_sync(events: Seq<VuInputEvent>)
    ensures
        ({
            let n = complete_len(events) as int;
            &&& 0 <= n <= events.len()
            &&& n > 0 ==> events[n - 1].ev_type == 0 && events[n - 1].code == 0
            &&& forall|i: int|
                n <= i < events.len() ==> (#[trigger] events[i]).ev_type != 0 || events[i].code != 0
        }),
        forall|e: VuInputEvent| #[trigger]
            e.ends_report() <==> e.ev_type == 0 && e.code == 0,
{
    law_complete_reports(events);
    assert forall|i: int| complete_len(events) <= i < events.len() implies (
    #[trigger] events[i]).ev_type != 0 || events[i].code != 0 by {
        assert(!events[i].ends_report());
    }
}

/// The order of the machine is the one in which it wrote the number one: the byte that holds the
/// one is the first or the last accordingly.
pub proof fn law_native_order_is_seen(order: ByteOrder)
    requires
        order.is_native(),
    ensures
        exists|bytes: [u8; 2]| #[trigger]
            machine_bytes(1, bytes) && bytes@[0] == (if order == ByteOrder::Little {
                1u8
            } else {
                0
            }) && bytes@[1] == (if order == ByteOrder::Little {
                0u8
            } else {
                1
            }),
{
}

/// What the machine gives for a number are the bytes that `u16::to_ne_bytes` answered with.
proof fn lemma_machine_was_asked(x: u16, bytes: [u8; 2])
    ensures
        machine_bytes(x, bytes) <==> call_ensures(to_ne_bytes, (x,), bytes),
        machine_bytes(x, bytes) ==> bytes@[0] + 0x100 * bytes@[1] == x || bytes@[1] + 0x100
            * bytes@[0] == x,
{
}

} // verus!
