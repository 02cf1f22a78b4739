//! What the record of a queue has to show of events that were sent to the guest.

use vstd::prelude::*;

use crate::error::VuInputError;
use crate::event::{
    complete_len, law_complete_reports, law_event_is_kept, ByteOrder, DeviceEvent, VuInputEvent,
};
use crate::vring::{GuestSpace, VringCall};

verus! {

/// What one attempt to send `event` came to, going by the calls that start with it.
///
/// The memory mapped in `space` is looked up, and one chain is taken from it. If the chain has
/// one descriptor, the bytes of the event are written to its address, and the chain is handed
/// back with the number of bytes written. `Some(Ok(()))` says that the first four of `calls` do
/// all this. `Some(Err(e))` says that `calls` are an attempt that had to stop with `e`, and
/// nothing else. `None` says that `calls` are no such attempt.
pub open spec fn attempt(
    event: VuInputEvent,
    order: ByteOrder,
    space: GuestSpace,
    calls: Seq<VringCall>,
) -> Option<Result<(), VuInputError>> {
    if calls.len() < 2 {
        None
    } else {
        match (calls[0], calls[1]) {
            (
                VringCall::Load { space: looked_up, memory },
                VringCall::Pop { memory: popped_from, chain },
            ) => if looked_up != space || popped_from != memory {
                None
            } else {
                match chain {
                    None => match calls[2] {
                        VringCall::Signal { ok } => if calls.len() != 3 {
                            None
                        } else if ok {
                            Some(Err(VuInputError::UnexpectedReadDescriptor))
                        } else {
                            Some(Err(VuInputError::SendNotificationFailed))
                        },
                        _ => None,
                    },
                    Some((head, addresses)) => if addresses.len() == 1 {
                        match calls[2] {
                            VringCall::Write { memory: written_to, bytes, address, written } => {
                                if calls.len() < 3 || written_to != memory || bytes != event.bytes(
                                    order,
                                ) || address != addresses[0] {
                                    None
                                } else {
                                    hand_back(head, written, calls)
                                }
                            },
                            _ => None,
                        }
                    } else if calls.len() == 2 {
                        Some(
                            Err(
                                VuInputError::UnexpectedDescriptorCount(addresses.len() as usize),
                            ),
                        )
                    } else {
                        None
                    },
                }
            },
            _ => None,
        }
    }
}

/// The last part of an attempt: the chain goes back with the number of bytes written.
pub open spec fn hand_back(head: u16, written: Option<usize>, calls: Seq<VringCall>) -> Option<
    Result<(), VuInputError>,
> {
    match written {
        None => if calls.len() == 3 {
            Some(Err(VuInputError::DescriptorNotWritable))
        } else {
            None
        },
        Some(n) => match calls[3] {
            VringCall::AddUsed { head: h, len, ok } => if calls.len() < 4 || h != head || len
                != n {
                None
            } else if ok {
                Some(Ok(()))
            } else if calls.len() == 4 {
                Some(Err(VuInputError::UnexpectedWriteVringError))
            } else {
                None
            },
            _ => None,
        },
    }
}

/// What the attempt to send `events`, one after the other, came to, going by `calls`: all of
/// them were delivered, or the first attempt that had to stop ended it. `None` says that `calls`
/// are something else.
pub open spec fn delivery(
    events: Seq<VuInputEvent>,
    order: ByteOrder,
    space: GuestSpace,
    calls: Seq<VringCall>,
) -> Option<Result<bool, VuInputError>>
    decreases events.len(),
{
    if events.len() == 0 {
        if calls.len() == 0 {
            Some(Ok(true))
        } else {
            None
        }
    } else {
        match attempt(events[0], order, space, calls) {
            Some(Ok(())) => delivery(events.drop_first(), order, space, calls.skip(4)),
            Some(Err(e)) => Some(Err(e)),
            None => None,
        }
    }
}

/// The events that are left of `pending` when sending its complete reports ends with `outcome`.
///
/// When all went well the complete reports are gone. When the guest offered no descriptor
/// everything is dropped. Any other error keeps all of them, those already sent among them.
pub open spec fn left_after(
    pending: Seq<VuInputEvent>,
    outcome: Result<bool, VuInputError>,
) -> Seq<VuInputEvent> {
    match outcome {
        Ok(_) => pending.skip(complete_len(pending) as int),
        Err(VuInputError::UnexpectedReadDescriptor)
        | Err(VuInputError::SendNotificationFailed) => Seq::empty(),
        Err(_) => pending,
    }
}

/// One pass over the pending events: what it came to, and which events are left, going by
/// `calls`.
pub open spec fn event_pass(
    pending: Seq<VuInputEvent>,
    order: ByteOrder,
    space: Option<GuestSpace>,
    calls: Seq<VringCall>,
) -> Option<(Result<bool, VuInputError>, Seq<VuInputEvent>)> {
    match delivery(pending.take(complete_len(pending) as int), order, space->0, calls) {
        Some(outcome) => Some((outcome, left_after(pending, outcome))),
        None => None,
    }
}

/// A pass over the pending events after which, if all went well, the guest is notified.
pub open spec fn queue_pass(
    pending: Seq<VuInputEvent>,
    order: ByteOrder,
    space: Option<GuestSpace>,
    calls: Seq<VringCall>,
) -> Option<(Result<bool, VuInputError>, Seq<VuInputEvent>)> {
    match event_pass(pending, order, space, calls) {
        Some((Err(e), left)) => Some((Err(e), left)),
        _ => match (event_pass(pending, order, space, calls.drop_last()), calls.last()) {
            (Some((Ok(_), left)), VringCall::Signal { ok }) => if calls.len() == 0 {
                None
            } else if ok {
                Some((Ok(true), left))
            } else {
                Some((Err(VuInputError::SendNotificationFailed), left))
            },
            _ => None,
        },
    }
}

/// A pass with notification after which, if all went well, the guest may notify the device
/// again.
pub open spec fn handled_pass(
    pending: Seq<VuInputEvent>,
    order: ByteOrder,
    space: Option<GuestSpace>,
    calls: Seq<VringCall>,
) -> Option<(Result<bool, VuInputError>, Seq<VuInputEvent>)> {
    match queue_pass(pending, order, space, calls) {
        Some((Err(e), left)) => Some((Err(e), left)),
        _ => match (queue_pass(pending, order, space, calls.drop_last()), calls.last()) {
            (Some((Ok(_), left)), VringCall::EnableNotification { ok }) => if calls.len() == 0 {
                None
            } else if ok {
                Some((Ok(false), left))
            } else {
                Some((Err(VuInputError::NotificationSwitchFailed), left))
            },
            _ => None,
        },
    }
}

/// The events that the guest is to receive for `events` of the input device.
pub open spec fn for_guest(events: Seq<DeviceEvent>) -> Seq<VuInputEvent> {
    Seq::new(events.len(), |i: int| events[i].for_guest())
}

/// Calls that deliver the first of `events` leave what follows them to the other events.
pub proof fn lemma_first_delivered(
    events: Seq<VuInputEvent>,
    order: ByteOrder,
    space: GuestSpace,
    first: Seq<VringCall>,
    rest: Seq<VringCall>,
)
    requires
        events.len() > 0,
        first.len() == 4,
        attempt(events[0], order, space, first) == Some(Ok::<(), VuInputError>(())),
    ensures
        delivery(events, order, space, first + rest) == delivery(
            events.drop_first(),
            order,
            space,
            rest,
        ),
{
    let all = first + rest;
    assert(all[0] == first[0] && all[1] == first[1] && all[2] == first[2] && all[3] == first[3]);
    assert(all.skip(4) =~= rest);
    assert(attempt(events[0], order, space, all) == Some(Ok::<(), VuInputError>(())));
}

/// Every event takes four calls if all of them are delivered, and no more than four for each if
/// not.
proof fn lemma_delivery_len(
    events: Seq<VuInputEvent>,
    order: ByteOrder,
    space: GuestSpace,
    calls: Seq<VringCall>,
)
    ensures
        match delivery(events, order, space, calls) {
            Some(Ok(b)) => b && calls.len() == 4 * events.len(),
            Some(Err(_)) => 0 < calls.len() <= 4 * events.len(),
            None => true,
        },
    decreases events.len(),
{
    if events.len() > 0 && attempt(events[0], order, space, calls) == Some(
        Ok::<(), VuInputError>(()),
    ) {
        lemma_delivery_len(events.drop_first(), order, space, calls.skip(4));
    }
}

/// Calls that follow a pass in which all went well are no part of it.
pub proof fn lemma_pass_then(
    pending: Seq<VuInputEvent>,
    order: ByteOrder,
    space: Option<GuestSpace>,
    calls: Seq<VringCall>,
    more: Seq<VringCall>,
)
    requires
        event_pass(pending, order, space, calls) matches Some((Ok(_), _)),
        more.len() > 0,
    ensures
        event_pass(pending, order, space, calls + more) is None,
{
    let complete = pending.take(complete_len(pending) as int);
    lemma_delivery_len(complete, order, space->0, calls);
    lemma_delivery_len(complete, order, space->0, calls + more);
}

/// A notification that follows a pass in which all went well ends it.
pub proof fn lemma_queue_pass(
    pending: Seq<VuInputEvent>,
    order: ByteOrder,
    space: Option<GuestSpace>,
    calls: Seq<VringCall>,
    ok: bool,
)
    requires
        event_pass(pending, order, space, calls) matches Some((Ok(_), _)),
    ensures
        queue_pass(pending, order, space, calls + seq![VringCall::Signal { ok }]) == Some(
            (
                if ok {
                    Ok::<bool, VuInputError>(true)
                } else {
                    Err(VuInputError::SendNotificationFailed)
                },
                (event_pass(pending, order, space, calls)->0).1,
            ),
        ),
{
    let all = calls + seq![VringCall::Signal { ok }];
    lemma_pass_then(pending, order, space, calls, seq![VringCall::Signal { ok }]);
    assert(all.drop_last() =~= calls);
    assert(all.last() == (VringCall::Signal { ok }));
}

/// Switching notifications on after a pass with notification in which all went well ends it.
pub proof fn lemma_handled_pass(
    pending: Seq<VuInputEvent>,
    order: ByteOrder,
    space: Option<GuestSpace>,
    calls: Seq<VringCall>,
    ok: bool,
)
    requires
        queue_pass(pending, order, space, calls) matches Some((Ok(_), _)),
    ensures
        handled_pass(
            pending,
            order,
            space,
            calls + seq![VringCall::EnableNotification { ok }],
        ) == Some(
            (
                if ok {
                    Ok::<bool, VuInputError>(false)
                } else {
                    Err(VuInputError::NotificationSwitchFailed)
                },
                (queue_pass(pending, order, space, calls)->0).1,
            ),
        ),
{
    let enable = VringCall::EnableNotification { ok };
    let all = calls + seq![enable];
    let delivered = calls.drop_last();
    assert(all.drop_last() =~= calls);
    assert(all.last() == enable);
    assert(all =~= delivered + seq![calls.last(), enable]);
    lemma_pass_then(pending, order, space, delivered, seq![calls.last(), enable]);
}

/// How one event shows in the record once it is delivered: its bytes were written to the one
/// descriptor of the chain that was taken for it, and that chain went back with the number of
/// bytes written.
pub open spec fn shows(
    event: VuInputEvent,
    order: ByteOrder,
    space: GuestSpace,
    calls: Seq<VringCall>,
    at: int,
) -> bool {
    &&& calls[at] matches VringCall::Load { space: looked_up, memory }
    &&& looked_up == space
    &&& calls[at + 1] matches VringCall::Pop { memory: popped_from, chain: Some((head, addresses)) }
    &&& popped_from == memory
    &&& addresses.len() == 1
    &&& calls[at + 2] matches VringCall::Write {
        memory: written_to,
        bytes,
        address,
        written: Some(n),
    }
    &&& written_to == memory
    &&& bytes == event.bytes(order)
    &&& address == addresses[0]
    &&& calls[at + 3] matches VringCall::AddUsed { head: handed_back, len, ok: true }
    &&& handed_back == head
    &&& len == n
}

proof fn lemma_all_show(
    events: Seq<VuInputEvent>,
    order: ByteOrder,
    space: GuestSpace,
    calls: Seq<VringCall>,
)
    requires
        delivery(events, order, space, calls) matches Some(Ok(_)),
    ensures
        forall|k: int|
            0 <= k < events.len() ==> #[trigger] shows(events[k], order, space, calls, 4 * k),
    decreases events.len(),
{
    if events.len() > 0 {
        let rest = calls.skip(4);
        lemma_all_show(events.drop_first(), order, space, rest);
        lemma_delivery_len(events, order, space, calls);
        assert forall|k: int| 0 <= k < events.len() implies #[trigger] shows(
            events[k],
            order,
            space,
            calls,
            4 * k,
        ) by {
            if k > 0 {
                assert(events.drop_first()[k - 1] == events[k]);
                assert(shows(events.drop_first()[k - 1], order, space, rest, 4 * (k - 1)));
                assert(rest[4 * (k - 1)] == calls[4 * k]);
                assert(rest[4 * (k - 1) + 1] == calls[4 * k + 1]);
                assert(rest[4 * (k - 1) + 2] == calls[4 * k + 2]);
                assert(rest[4 * (k - 1) + 3] == calls[4 * k + 3]);
            } else {
                assert(shows(events[0], order, space, calls, 0));
            }
        }
    }
}

/// A pass in which all went well has delivered every event of the complete reports, each of them
/// once and in the order in which they came, and nothing else. What it leaves is the rest: no
/// event is lost, and no report is torn.
pub proof fn law_reports_are_delivered(
    pending: Seq<VuInputEvent>,
    order: ByteOrder,
    space: Option<GuestSpace>,
    calls: Seq<VringCall>,
)
    requires
        event_pass(pending, order, space, calls) matches Some((Ok(_), _)),
    ensures
        ({
            let n = complete_len(pending) as int;
            let (outcome, left) = event_pass(pending, order, space, calls)->0;
            &&& outcome == Ok::<bool, VuInputError>(true)
            &&& calls.len() == 4 * n
            &&& forall|k: int|
                0 <= k < n ==> #[trigger] shows(pending[k], order, space->0, calls, 4 * k)
            &&& pending.take(n) + left == pending
            &&& n > 0 ==> pending[n - 1].ends_report()
            &&& forall|i: int| 0 <= i < left.len() ==> !(#[trigger] left[i]).ends_report()
        }),
{
    let n = complete_len(pending) as int;
    let complete = pending.take(n);
    let left = pending.skip(n);
    law_complete_reports(pending);
    lemma_delivery_len(complete, order, space->0, calls);
    lemma_all_show(complete, order, space->0, calls);
    assert forall|k: int| 0 <= k < n implies #[trigger] shows(
        pending[k],
        order,
        space->0,
        calls,
        4 * k,
    ) by {
        assert(complete[k] == pending[k]);
        assert(shows(complete[k], order, space->0, calls, 4 * k));
    }
    assert(complete + left =~= pending);
    assert forall|i: int| 0 <= i < left.len() implies !(#[trigger] left[i]).ends_report() by {
        assert(left[i] == pending[n + i]);
    }
}

/// As long as no report is complete nothing is asked of the guest, and every event is kept.
pub proof fn law_incomplete_reports_wait(
    pending: Seq<VuInputEvent>,
    order: ByteOrder,
    space: Option<GuestSpace>,
    calls: Seq<VringCall>,
)
    requires
        complete_len(pending) == 0,
        event_pass(pending, order, space, calls) is Some,
    ensures
        calls.len() == 0,
        event_pass(pending, order, space, calls) == Some((Ok::<bool, VuInputError>(true), pending)),
{
    assert(pending.skip(0) =~= pending);
}

/// A pass that fails drops everything if the guest offered no descriptor, and keeps everything
/// otherwise.
pub proof fn law_failure_drops_or_keeps(
    pending: Seq<VuInputEvent>,
    order: ByteOrder,
    space: Option<GuestSpace>,
    calls: Seq<VringCall>,
)
    requires
        event_pass(pending, order, space, calls) matches Some((Err(_), _)),
    ensures
        ({
            let left = (event_pass(pending, order, space, calls)->0).1;
            let starved = calls.len() >= 2 && calls[calls.len() - 2] matches VringCall::Pop {
                memory: _,
                chain: None,
            };
            left == if starved {
                Seq::empty()
            } else {
                pending
            }
        }),
{
    lemma_how_it_failed(pending.take(complete_len(pending) as int), order, space->0, calls);
}

/// A delivery that failed for want of a descriptor, and no other, has a chain that was asked for
/// in vain as its last call but one.
proof fn lemma_how_it_failed(
    events: Seq<VuInputEvent>,
    order: ByteOrder,
    space: GuestSpace,
    calls: Seq<VringCall>,
)
    requires
        delivery(events, order, space, calls) matches Some(Err(_)),
    ensures
        ({
            let e = delivery(events, order, space, calls)->0->Err_0;
            let starved = calls.len() >= 2 && calls[calls.len() - 2] matches VringCall::Pop {
                memory: _,
                chain: None,
            };
            starved <==> e == VuInputError::UnexpectedReadDescriptor || e
                == VuInputError::SendNotificationFailed
        }),
    decreases events.len(),
{
    if attempt(events[0], order, space, calls) == Some(Ok::<(), VuInputError>(())) {
        let rest = calls.skip(4);
        lemma_delivery_len(events.drop_first(), order, space, rest);
        lemma_how_it_failed(events.drop_first(), order, space, rest);
        if calls.len() == 5 {
            assert(calls[3] is AddUsed);
            assert(attempt(events[1], order, space, rest) is None);
        } else {
            assert(rest[rest.len() - 2] == calls[calls.len() - 2]);
        }
    }
}

/// Where serving the guest went well, all its reports were delivered, then it was notified, and
/// only then may it notify the device again.
pub proof fn law_guest_is_notified(
    pending: Seq<VuInputEvent>,
    order: ByteOrder,
    space: Option<GuestSpace>,
    calls: Seq<VringCall>,
)
    requires
        handled_pass(pending, order, space, calls) matches Some((Ok(_), _)),
    ensures
        ({
            let (outcome, left) = handled_pass(pending, order, space, calls)->0;
            let n = 4 * complete_len(pending) as int;
            &&& outcome == Ok::<bool, VuInputError>(false)
            &&& calls.len() == n + 2
            &&& event_pass(pending, order, space, calls.take(n)) == Some(
                (Ok::<bool, VuInputError>(true), left),
            )
            &&& calls[n] == (VringCall::Signal { ok: true })
            &&& calls[n + 1] == (VringCall::EnableNotification { ok: true })
        }),
{
    let queue = calls.drop_last();
    let delivered = queue.drop_last();
    lemma_delivery_len(
        pending.take(complete_len(pending) as int),
        order,
        space->0,
        delivered,
    );
    law_complete_reports(pending);
    assert(delivered =~= calls.take(4 * complete_len(pending) as int));
}

/// It makes no difference to the reports whether events come all at once or in pieces: what is
/// complete of `first`, and then of its rest with `more`, is what is complete of both together.
pub proof fn law_pieces_add_up(first: Seq<VuInputEvent>, more: Seq<VuInputEvent>)
    ensures
        ({
            let n = complete_len(first) as int;
            complete_len(first + more) == n + complete_len(first.skip(n) + more)
        }),
{
    let n = complete_len(first) as int;
    let rest = first.skip(n) + more;
    let m = complete_len(rest) as int;
    let all = first + more;
    let k = complete_len(all) as int;
    law_complete_reports(first);
    law_complete_reports(rest);
    law_complete_reports(all);
    assert forall|i: int| n <= i < all.len() implies all[i] == #[trigger] rest[i - n] by {}
    if k < n + m {
        if m > 0 {
            assert(all[n + m - 1] == rest[m - 1]);
        } else {
            assert(all[n - 1] == first[n - 1]);
        }
    }
    if k > n + m {
        assert(all[k - 1] == rest[k - 1 - n]);
    }
}

/// A pass in which all went well made four calls for each event up to the last end of a report,
/// and no other call. Just the events behind that are left.
pub proof fn law_pass_delivers_complete_reports(
    pending: Seq<VuInputEvent>,
    order: ByteOrder,
    space: Option<GuestSpace>,
    calls: Seq<VringCall>,
)
    requires
        event_pass(pending, order, space, calls) matches Some((Ok(_), _)),
    ensures
        ({
            let n = complete_len(pending) as int;
            let (outcome, left) = event_pass(pending, order, space, calls)->0;
            &&& outcome == Ok::<bool, VuInputError>(true)
            &&& calls.len() == 4 * n
            &&& left == pending.skip(n)
        }),
{
    law_reports_are_delivered(pending, order, space, calls);
    let n = complete_len(pending) as int;
    let left = (event_pass(pending, order, space, calls)->0).1;
    assert((pending.take(n) + left).skip(n) =~= left);
}

/// How a delivery of `events` that failed with `e` shows in the record.
spec fn fails(
    events: Seq<VuInputEvent>,
    order: ByteOrder,
    space: GuestSpace,
    calls: Seq<VringCall>,
    e: VuInputError,
) -> bool {
    let k = (calls.len() - 1) / 4;
    &&& calls.len() >= 2
    &&& 0 <= k < events.len()
    &&& forall|j: int| 0 <= j < k ==> #[trigger] shows(events[j], order, space, calls, 4 * j)
    &&& attempt(events[k], order, space, calls.skip(4 * k)) == Some(Err::<(), VuInputError>(e))
}

proof fn lemma_fails(
    events: Seq<VuInputEvent>,
    order: ByteOrder,
    space: GuestSpace,
    calls: Seq<VringCall>,
)
    requires
        delivery(events, order, space, calls) matches Some(Err(_)),
    ensures
        fails(events, order, space, calls, delivery(events, order, space, calls)->0->Err_0),
    decreases events.len(),
{
    let e = delivery(events, order, space, calls)->0->Err_0;
    let k = (calls.len() - 1) / 4;
    if attempt(events[0], order, space, calls) == Some(Ok::<(), VuInputError>(())) {
        let later = events.drop_first();
        let rest = calls.skip(4);
        lemma_fails(later, order, space, rest);
        assert(k - 1 == (rest.len() - 1) / 4);
        assert(later[k - 1] == events[k]);
        assert(rest.skip(4 * (k - 1)) =~= calls.skip(4 * k));
        assert forall|j: int| 0 <= j < k implies #[trigger] shows(
            events[j],
            order,
            space,
            calls,
            4 * j,
        ) by {
            if j > 0 {
                assert(later[j - 1] == events[j]);
                assert(shows(later[j - 1], order, space, rest, 4 * (j - 1)));
                assert(rest[4 * (j - 1)] == calls[4 * j]);
                assert(rest[4 * (j - 1) + 1] == calls[4 * j + 1]);
                assert(rest[4 * (j - 1) + 2] == calls[4 * j + 2]);
                assert(rest[4 * (j - 1) + 3] == calls[4 * j + 3]);
            } else {
                assert(shows(events[0], order, space, calls, 0));
            }
        }
    } else {
        assert(k == 0);
        assert(calls.skip(0) =~= calls);
    }
}

/// A pass that failed had four calls for each event up to one, and stopped at that one because of
/// an answer that was a failure: there was no chain, or its descriptors were not one, or the event
/// could not be written, or the chain could not be handed back. The error names that failure.
/// Where there was no chain the guest was notified and all events are dropped, and else all are
/// kept.
pub proof fn law_pass_fails_for_a_reason(
    pending: Seq<VuInputEvent>,
    order: ByteOrder,
    space: Option<GuestSpace>,
    calls: Seq<VringCall>,
)
    requires
        event_pass(pending, order, space, calls) matches Some((Err(_), _)),
    ensures
        ({
            let (outcome, left) = event_pass(pending, order, space, calls)->0;
            let e = outcome->Err_0;
            let k = (calls.len() - 1) / 4;
            &&& calls.len() >= 2
            &&& 0 <= k < complete_len(pending)
            &&& calls[4 * k] matches VringCall::Load { space: from, memory }
            &&& from == space->0
            &&& calls[4 * k + 1] matches VringCall::Pop { memory: popped_from, chain }
            &&& popped_from == memory
            &&& chain is None ==> {
                &&& calls.len() == 4 * k + 3
                &&& calls[4 * k + 2] matches VringCall::Signal { ok }
                &&& ok ==> e == VuInputError::UnexpectedReadDescriptor
                &&& !ok ==> e == VuInputError::SendNotificationFailed
                &&& left.len() == 0
            }
            &&& chain matches Some((head, addresses)) ==> {
                &&& left == pending
                &&& addresses.len() != 1 ==> {
                    &&& calls.len() == 4 * k + 2
                    &&& e == VuInputError::UnexpectedDescriptorCount(addresses.len() as usize)
                }
                &&& addresses.len() == 1 ==> {
                    &&& calls[4 * k + 2] matches VringCall::Write {
                        memory: written_to,
                        bytes,
                        address,
                        written,
                    }
                    &&& written_to == memory
                    &&& bytes == pending[k].bytes(order)
                    &&& address == addresses[0]
                    &&& written is None ==> calls.len() == 4 * k + 3 && e
                        == VuInputError::DescriptorNotWritable
                    &&& written matches Some(len) ==> {
                        &&& calls.len() == 4 * k + 4
                        &&& calls[4 * k + 3] matches VringCall::AddUsed {
                            head: back,
                            len: used,
                            ok: false,
                        }
                        &&& back == head
                        &&& used == len
                        &&& e == VuInputError::UnexpectedWriteVringError
                    }
                }
            }
        }),
{
    let n = complete_len(pending) as int;
    let complete = pending.take(n);
    law_complete_reports(pending);
    lemma_fails(complete, order, space->0, calls);
    let k = (calls.len() - 1) / 4;
    let tail = calls.skip(4 * k);
    assert(complete[k] == pending[k]);
    assert(tail[0] == calls[4 * k]);
    assert(tail[1] == calls[4 * k + 1]);
    if tail.len() > 2 {
        assert(tail[2] == calls[4 * k + 2]);
    }
    if tail.len() > 3 {
        assert(tail[3] == calls[4 * k + 3]);
    }
}

/// However a pass ended, each event before the end was delivered by four calls: the memory of the
/// guest was found, a chain with one descriptor was taken, the bytes of the event were written to
/// the address of that descriptor, and the chain was handed back with the number of bytes written.
/// The events came in their order, the one with number `j` after four calls for each before it.
pub proof fn law_each_event_is_written_once(
    pending: Seq<VuInputEvent>,
    order: ByteOrder,
    space: Option<GuestSpace>,
    calls: Seq<VringCall>,
    j: int,
)
    requires
        0 <= j,
        match event_pass(pending, order, space, calls) {
            Some((Ok(_), _)) => 4 * j + 4 <= calls.len(),
            Some((Err(_), _)) => 4 * j + 4 < calls.len(),
            None => false,
        },
    ensures
        j < pending.len(),
        ({
            &&& calls[4 * j] matches VringCall::Load { space: from, memory }
            &&& from == space->0
            &&& calls[4 * j + 1] matches VringCall::Pop {
                memory: popped_from,
                chain: Some((head, addresses)),
            }
            &&& popped_from == memory
            &&& addresses.len() == 1
            &&& calls[4 * j + 2] matches VringCall::Write {
                memory: written_to,
                bytes,
                address,
                written: Some(len),
            }
            &&& written_to == memory
            &&& bytes == pending[j].bytes(order)
            &&& address == addresses[0]
            &&& calls[4 * j + 3] matches VringCall::AddUsed { head: back, len: used, ok: true }
            &&& back == head
            &&& used == len
        }),
{
    let complete = pending.take(complete_len(pending) as int);
    law_complete_reports(pending);
    lemma_delivery_len(complete, order, space->0, calls);
    if delivery(complete, order, space->0, calls) matches Some(Err(_)) {
        lemma_fails(complete, order, space->0, calls);
    } else {
        lemma_all_show(complete, order, space->0, calls);
    }
    assert(complete[j] == pending[j]);
    assert(shows(complete[j], order, space->0, calls, 4 * j));
}

/// If every chain that was asked for came with one descriptor, every write went well, and every
/// chain could be handed back, then the pass went well.
pub proof fn law_pass_without_failure_is_ok(
    pending: Seq<VuInputEvent>,
    order: ByteOrder,
    space: Option<GuestSpace>,
    calls: Seq<VringCall>,
)
    requires
        event_pass(pending, order, space, calls) is Some,
        forall|i: int|
            0 <= i < calls.len() ==> match #[trigger] calls[i] {
                VringCall::Pop { memory: _, chain } => chain is Some && (chain->0).1.len() == 1,
                VringCall::Write { memory: _, bytes: _, address: _, written } => written is Some,
                VringCall::AddUsed { head: _, len: _, ok } => ok,
                _ => true,
            },
    ensures
        (event_pass(pending, order, space, calls)->0).0 == Ok::<bool, VuInputError>(true),
{
    if (event_pass(pending, order, space, calls)->0).0 is Err {
        law_pass_fails_for_a_reason(pending, order, space, calls);
    } else {
        law_pass_delivers_complete_reports(pending, order, space, calls);
    }
}

/// A count of descriptors is an error only where it is not one.
pub proof fn law_one_descriptor_is_no_error(
    pending: Seq<VuInputEvent>,
    order: ByteOrder,
    space: Option<GuestSpace>,
    calls: Seq<VringCall>,
    n: usize,
)
    requires
        event_pass(pending, order, space, calls) matches Some((Err(e), _)) && e
            == VuInputError::UnexpectedDescriptorCount(n),
        forall|i: int|
            0 <= i < calls.len() ==> match #[trigger] calls[i] {
                VringCall::Pop { memory: _, chain: Some((_, addresses)) } => addresses.len()
                    <= usize::MAX,
                _ => true,
            },
    ensures
        n != 1,
{
    law_pass_fails_for_a_reason(pending, order, space, calls);
}

/// A pass with notification notifies the guest once, after all its reports were delivered, and
/// goes well just when both did. Where the delivery failed it is the whole pass.
pub proof fn law_notification_follows_delivery(
    pending: Seq<VuInputEvent>,
    order: ByteOrder,
    space: Option<GuestSpace>,
    calls: Seq<VringCall>,
)
    requires
        queue_pass(pending, order, space, calls) is Some,
    ensures
        ({
            let (outcome, left) = queue_pass(pending, order, space, calls)->0;
            let n = 4 * complete_len(pending) as int;
            ||| {
                &&& event_pass(pending, order, space, calls) == Some((outcome, left))
                &&& outcome is Err
                &&& 0 < calls.len() <= n
            }
            ||| {
                &&& event_pass(pending, order, space, calls.take(n)) == Some(
                    (Ok::<bool, VuInputError>(true), left),
                )
                &&& calls.len() == n + 1
                &&& calls[n] matches VringCall::Signal { ok }
                &&& ok ==> outcome == Ok::<bool, VuInputError>(true)
                &&& !ok ==> outcome == Err::<bool, VuInputError>(
                    VuInputError::SendNotificationFailed,
                )
            }
        }),
{
    let complete = pending.take(complete_len(pending) as int);
    law_complete_reports(pending);
    lemma_delivery_len(complete, order, space->0, calls);
    lemma_delivery_len(complete, order, space->0, calls.drop_last());
    if !(event_pass(pending, order, space, calls) matches Some((Err(_), _))) {
        assert(calls.drop_last() =~= calls.take(4 * complete_len(pending) as int));
    }
}

/// Serving the guest ends with letting it notify the device again, once, after a pass with
/// notification that went well, and goes well just when both did. Where that pass failed it is
/// all, and the guest may not notify the device.
pub proof fn law_notifications_come_back_last(
    pending: Seq<VuInputEvent>,
    order: ByteOrder,
    space: Option<GuestSpace>,
    calls: Seq<VringCall>,
)
    requires
        handled_pass(pending, order, space, calls) is Some,
    ensures
        ({
            let (outcome, left) = handled_pass(pending, order, space, calls)->0;
            let n = 4 * complete_len(pending) as int;
            ||| {
                &&& queue_pass(pending, order, space, calls) == Some((outcome, left))
                &&& outcome is Err
                &&& calls.len() <= n + 1
                &&& forall|i: int|
                    0 <= i < calls.len() ==> !(#[trigger] calls[i] is EnableNotification)
            }
            ||| {
                &&& queue_pass(pending, order, space, calls.take(n + 1)) == Some(
                    (Ok::<bool, VuInputError>(true), left),
                )
                &&& calls.len() == n + 2
                &&& calls[n + 1] matches VringCall::EnableNotification { ok }
                &&& ok ==> outcome == Ok::<bool, VuInputError>(false)
                &&& !ok ==> outcome == Err::<bool, VuInputError>(
                    VuInputError::NotificationSwitchFailed,
                )
            }
        }),
{
    let n = 4 * complete_len(pending) as int;
    if queue_pass(pending, order, space, calls) matches Some((Err(_), _)) {
        law_notification_follows_delivery(pending, order, space, calls);
        if event_pass(pending, order, space, calls) matches Some((Err(_), _)) {
            law_pass_fails_for_a_reason(pending, order, space, calls);
            assert forall|i: int| 0 <= i < calls.len() implies !(
            #[trigger] calls[i] is EnableNotification) by {
                assert(i == 4 * (i / 4) + i % 4);
                if 4 * (i / 4) + 4 < calls.len() {
                    law_each_event_is_written_once(pending, order, space, calls, i / 4);
                }
            }
        } else {
            let delivered = calls.take(n);
            law_pass_delivers_complete_reports(pending, order, space, delivered);
            assert forall|i: int| 0 <= i < calls.len() implies !(
            #[trigger] calls[i] is EnableNotification) by {
                assert(i == 4 * (i / 4) + i % 4);
                if i < n {
                    law_each_event_is_written_once(pending, order, space, delivered, i / 4);
                    assert(delivered[i] == calls[i]);
                }
            }
        }
    } else {
        law_notification_follows_delivery(pending, order, space, calls.drop_last());
        assert(calls.drop_last() =~= calls.take(n + 1));
    }
}

/// If no answer was a failure then serving the guest went well: every chain came with one
/// descriptor, every write went well, every chain could be handed back, the guest could be
/// notified, and notifications could be switched.
pub proof fn law_guest_is_served_unless_an_answer_failed(
    pending: Seq<VuInputEvent>,
    order: ByteOrder,
    space: Option<GuestSpace>,
    calls: Seq<VringCall>,
)
    requires
        handled_pass(pending, order, space, calls) is Some,
        forall|i: int|
            0 <= i < calls.len() ==> match #[trigger] calls[i] {
                VringCall::Load { space: _, memory: _ } => true,
                VringCall::Pop { memory: _, chain } => chain is Some && (chain->0).1.len() == 1,
                VringCall::Write { memory: _, bytes: _, address: _, written } => written is Some,
                VringCall::AddUsed { head: _, len: _, ok } => ok,
                VringCall::Signal { ok } => ok,
                VringCall::DisableNotification { ok } => ok,
                VringCall::EnableNotification { ok } => ok,
            },
    ensures
        (handled_pass(pending, order, space, calls)->0).0 == Ok::<bool, VuInputError>(false),
        (handled_pass(pending, order, space, calls)->0).1 == pending.skip(
            complete_len(pending) as int,
        ),
        calls.len() == 4 * complete_len(pending) + 2,
{
    let n = 4 * complete_len(pending) as int;
    law_notifications_come_back_last(pending, order, space, calls);
    if queue_pass(pending, order, space, calls) matches Some((Err(_), _)) {
        law_notification_follows_delivery(pending, order, space, calls);
        if event_pass(pending, order, space, calls) matches Some((Err(_), _)) {
            law_pass_fails_for_a_reason(pending, order, space, calls);
        }
    }
    law_guest_is_notified(pending, order, space, calls);
    law_pass_delivers_complete_reports(pending, order, space, calls.take(n));
}

/// What the guest is owed for events of the input device: one event for each, with its type and
/// code, and with its value modulo two to the power of 32.
pub proof fn law_every_event_is_owed(events: Seq<DeviceEvent>)
    ensures
        for_guest(events).len() == events.len(),
        forall|i: int|
            0 <= i < events.len() ==> {
                let owed = #[trigger] for_guest(events)[i];
                &&& owed.ev_type == events[i].event_type
                &&& owed.code == events[i].code
                &&& (owed.value - events[i].value) % 0x1_0000_0000 == 0
            },
        forall|i: int|
            0 <= i < events.len() ==> #[trigger] for_guest(events)[i] == events[i].for_guest(),
{
    assert forall|i: int| 0 <= i < events.len() implies {
        let owed = #[trigger] for_guest(events)[i];
        &&& owed.ev_type == events[i].event_type
        &&& owed.code == events[i].code
        &&& (owed.value - events[i].value) % 0x1_0000_0000 == 0
    } by {
        law_event_is_kept(events[i]);
    }
}

/// Events that are read in two batches are owed as if they had come in one.
pub proof fn law_batches_add_up(a: Seq<DeviceEvent>, b: Seq<DeviceEvent>)
    ensures
        for_guest(a + b) == for_guest(a) + for_guest(b),
{
    assert(for_guest(a + b) =~= for_guest(a) + for_guest(b));
}

} // verus!
