//! The configuration space, in which the guest reads what the input device is.

use vstd::prelude::*;
use vstd::slice::slice_to_vec;
use vstd::utf8::valid_utf8;

use crate::error::VuInputError;
use crate::event::{u16_bytes, ByteOrder, EV_ABS, EV_KEY, EV_MSC, EV_REL, EV_SW};
use crate::text::string_from_utf8;

verus! {

/// Selects the name of the device.
pub const VIRTIO_INPUT_CFG_ID_NAME: u8 = 0x01;

/// Selects the identifiers of the device.
pub const VIRTIO_INPUT_CFG_ID_DEVIDS: u8 = 0x03;

/// Selects the codes that the device reports for one type of events.
pub const VIRTIO_INPUT_CFG_EV_BITS: u8 = 0x11;

/// How many bytes of data the configuration space holds.
pub const VIRTIO_INPUT_CFG_SIZE: usize = 128;

/// The configuration space as the guest reads it.
#[derive(Clone, Debug, PartialEq, Eq)]
pub struct VuInputConfig {
    pub select: u8,
    pub subsel: u8,
    pub size: u8,
    pub reserved: [u8; 5],
    pub val: [u8; VIRTIO_INPUT_CFG_SIZE],
}

/// The contents of the configuration space.
pub struct ConfigView {
    pub select: u8,
    pub subsel: u8,
    pub size: u8,
    pub reserved: Seq<u8>,
    pub val: Seq<u8>,
}

/// `n` bytes of zero.
pub open spec fn zeros(n: nat) -> Seq<u8> {
    Seq::new(n, |i: int| 0u8)
}

impl View for VuInputConfig {
    type V = ConfigView;

    open spec fn view(&self) -> ConfigView {
        ConfigView {
            select: self.select,
            subsel: self.subsel,
            size: self.size,
            reserved: self.reserved@,
            val: self.val@,
        }
    }
}

impl ConfigView {
    /// The bytes of the space: selection, size, what is reserved, and the data.
    pub open spec fn bytes(self) -> Seq<u8> {
        seq![self.select, self.subsel, self.size] + self.reserved + self.val
    }
}

/// What reading a part of the configuration gives, in terms of contents.
pub open spec fn contents(r: Result<VuInputConfig, VuInputError>) -> Result<
    ConfigView,
    VuInputError,
> {
    match r {
        Ok(config) => Ok(config@),
        Err(e) => Err(e),
    }
}

/// Appends all bytes of `from` to `out`.
fn push_all(out: &mut Vec<u8>, from: &[u8])
    ensures
        final(out)@ == old(out)@ + from@,
{
    let mut i: usize = 0;
    while i < from.len()
        invariant
            i <= from@.len(),
            out@ == old(out)@ + from@.take(i as int),
        decreases from@.len() - i,
    {
        out.push(from[i]);
        i += 1;
        proof {
            assert(out@ =~= old(out)@ + from@.take(i as int));
        }
    }
    proof {
        assert(from@.take(i as int) =~= from@);
    }
}

impl VuInputConfig {
    /// The bytes of the configuration space.
    pub fn to_bytes(&self) -> (r: Vec<u8>)
        ensures
            r@ == self@.bytes(),
            r@.len() == 136,
    {
        let mut out: Vec<u8> = Vec::new();
        out.push(self.select);
        out.push(self.subsel);
        out.push(self.size);
        push_all(&mut out, self.reserved.as_slice());
        push_all(&mut out, self.val.as_slice());
        proof {
            assert(out@ =~= self@.bytes());
        }
        out
    }
}

/// The types of events whose codes the guest can ask for.
#[derive(Clone, Copy, Debug, PartialEq, Eq, Structural)]
pub enum EvKind {
    Key,
    Relative,
    Absolute,
    Misc,
    Switch,
}

/// The type of events that `subsel` stands for, if the guest can ask for it.
pub open spec fn kind_of(subsel: u8) -> Option<EvKind> {
    if subsel == EV_KEY {
        Some(EvKind::Key)
    } else if subsel == EV_REL {
        Some(EvKind::Relative)
    } else if subsel == EV_ABS {
        Some(EvKind::Absolute)
    } else if subsel == EV_MSC {
        Some(EvKind::Misc)
    } else if subsel == EV_SW {
        Some(EvKind::Switch)
    } else {
        None
    }
}

impl EvKind {
    /// The number of the control request that reads the codes of this type of events.
    pub open spec fn request_number(self) -> u8 {
        match self {
            EvKind::Key => 0x21,
            EvKind::Relative => 0x22,
            EvKind::Absolute => 0x23,
            EvKind::Misc => 0x24,
            EvKind::Switch => 0x25,
        }
    }

    /// The number of the control request that reads the codes of this type of events.
    pub fn request(self) -> (r: u8)
        ensures
            r == self.request_number(),
    {
        match self {
            EvKind::Key => 0x21,
            EvKind::Relative => 0x22,
            EvKind::Absolute => 0x23,
            EvKind::Misc => 0x24,
            EvKind::Switch => 0x25,
        }
    }

    /// The type of events that `subsel` stands for, if the guest can ask for it.
    pub fn of(subsel: u8) -> (r: Option<EvKind>)
        ensures
            r == kind_of(subsel),
    {
        match subsel {
            EV_KEY => Some(EvKind::Key),
            EV_ABS => Some(EvKind::Absolute),
            EV_REL => Some(EvKind::Relative),
            EV_MSC => Some(EvKind::Misc),
            EV_SW => Some(EvKind::Switch),
            _ => None,
        }
    }
}

/// What the input device has to be asked before the guest can be answered.
#[derive(Clone, Copy, Debug, PartialEq, Eq, Structural)]
pub enum ConfigQuery {
    /// Nothing: the guest reads zeros.
    Nothing,
    /// The name of the device.
    Name,
    /// The identifiers of the device.
    Ids,
    /// The codes that the device reports for one type of events.
    EvBits(EvKind),
}

impl ConfigQuery {
    /// The number of the control request that reads the answer into a buffer, where it takes one.
    pub open spec fn request_number(self) -> Option<u8> {
        match self {
            ConfigQuery::Nothing => None,
            ConfigQuery::Name => Some(0x06),
            ConfigQuery::Ids => None,
            ConfigQuery::EvBits(kind) => Some(kind.request_number()),
        }
    }

    /// The number of the control request that reads the answer into a buffer, where it takes one.
    pub fn request(self) -> (r: Option<u8>)
        ensures
            r == self.request_number(),
    {
        match self {
            ConfigQuery::Name => Some(0x06),
            ConfigQuery::EvBits(kind) => Some(kind.request()),
            ConfigQuery::Nothing | ConfigQuery::Ids => None,
        }
    }
}

/// What has to be asked for a selection of the guest.
pub open spec fn query_for(select: u8, subsel: u8) -> ConfigQuery {
    if select == VIRTIO_INPUT_CFG_ID_NAME {
        ConfigQuery::Name
    } else if select == VIRTIO_INPUT_CFG_ID_DEVIDS {
        ConfigQuery::Ids
    } else if select == VIRTIO_INPUT_CFG_EV_BITS {
        match kind_of(subsel) {
            Some(kind) => ConfigQuery::EvBits(kind),
            None => ConfigQuery::Nothing,
        }
    } else {
        ConfigQuery::Nothing
    }
}

/// The identifiers of an input device.
#[derive(Clone, Copy, Debug, PartialEq, Eq, Structural)]
pub struct InputId {
    pub bus_type: u16,
    pub vendor: u16,
    pub product: u16,
    pub version: u16,
}

impl InputId {
    /// The bytes of the identifiers, one after the other.
    pub open spec fn bytes(self, order: ByteOrder) -> Seq<u8> {
        u16_bytes(self.bus_type, order) + u16_bytes(self.vendor, order) + u16_bytes(
            self.product,
            order,
        ) + u16_bytes(self.version, order)
    }

    /// The bytes of the identifiers.
    pub fn to_bytes(&self, order: ByteOrder) -> (r: Vec<u8>)
        ensures
            r@ == self.bytes(order),
            r@.len() == 8,
    {
        let mut out: Vec<u8> = Vec::new();
        order.push_u16(self.bus_type, &mut out);
        order.push_u16(self.vendor, &mut out);
        order.push_u16(self.product, &mut out);
        order.push_u16(self.version, &mut out);
        out
    }
}

/// How a control request to the input device ended.
#[derive(Clone, Copy, Debug, PartialEq, Eq)]
pub enum IoctlReply {
    /// The request failed.
    Failed,
    /// The request returned `len` and left `data` in the buffer.
    Done { len: i32, data: [u8; VIRTIO_INPUT_CFG_SIZE] },
}

/// What the input device answered.
#[derive(Clone, Copy, Debug, PartialEq, Eq)]
pub enum ConfigReply {
    /// It was not asked.
    Nothing,
    /// To the request for its name.
    Name(IoctlReply),
    /// Its identifiers.
    Ids(InputId),
    /// To the request for the codes of one type of events.
    EvBits(IoctlReply),
}

/// Whether `reply` is an answer to `query`.
pub open spec fn answers(query: ConfigQuery, reply: ConfigReply) -> bool {
    match query {
        ConfigQuery::Nothing => reply is Nothing,
        ConfigQuery::Name => reply is Name,
        ConfigQuery::Ids => reply is Ids,
        ConfigQuery::EvBits(_) => reply is EvBits,
    }
}

/// How many bytes of `data` are in use: all up to the last that is not zero.
pub open spec fn used_len(data: Seq<u8>) -> nat
    decreases data.len(),
{
    if data.len() == 0 {
        0
    } else if data.last() != 0 {
        data.len()
    } else {
        used_len(data.drop_last())
    }
}

/// Whether a request for the name that returned `len` gave one: no longer than the buffer, and
/// not empty.
pub open spec fn is_name_len(len: i32) -> bool {
    2 <= len <= VIRTIO_INPUT_CFG_SIZE
}

/// Whether the buffer that came with a name is text.
pub open spec fn name_is_text(reply: IoctlReply) -> bool {
    reply matches IoctlReply::Done { len, data } ==> is_name_len(len) ==> valid_utf8(data@)
}

/// The configuration space with the name of the device: the whole buffer is handed on.
pub open spec fn name_config(select: u8, reply: IoctlReply) -> Result<ConfigView, VuInputError> {
    match reply {
        IoctlReply::Done { len, data } => if is_name_len(len) {
            Ok(
                ConfigView {
                    select,
                    subsel: 0,
                    size: VIRTIO_INPUT_CFG_SIZE as u8,
                    reserved: zeros(5),
                    val: data@,
                },
            )
        } else {
            Err(VuInputError::UnexpectedInputDeviceError)
        },
        IoctlReply::Failed => Err(VuInputError::UnexpectedInputDeviceError),
    }
}

/// The configuration space with the identifiers of the device.
pub open spec fn id_config(order: ByteOrder, id: InputId) -> ConfigView {
    ConfigView {
        select: VIRTIO_INPUT_CFG_ID_DEVIDS,
        subsel: 0,
        size: VIRTIO_INPUT_CFG_SIZE as u8,
        reserved: zeros(5),
        val: id.bytes(order) + zeros(120),
    }
}

/// The configuration space with the codes that the device reports for a type of events.
pub open spec fn event_config(select: u8, subsel: u8, reply: IoctlReply) -> Result<
    ConfigView,
    VuInputError,
> {
    if kind_of(subsel) is None {
        Err(VuInputError::HandleEventUnknownEvent)
    } else {
        match reply {
            IoctlReply::Done { len: _, data } => Ok(
                ConfigView {
                    select,
                    subsel,
                    size: used_len(data@) as u8,
                    reserved: zeros(5),
                    val: data@,
                },
            ),
            IoctlReply::Failed => Err(VuInputError::UnexpectedInputDeviceError),
        }
    }
}

/// What the guest reads: the configuration space, or `size` zeros where there is none.
pub open spec fn bytes_or_zeros(config: Result<ConfigView, VuInputError>, size: nat) -> Seq<u8> {
    match config {
        Ok(c) => c.bytes(),
        Err(_) => zeros(size),
    }
}

/// What the guest reads when it asks for `size` bytes and the device answered `reply`.
pub open spec fn config_bytes(
    select: u8,
    subsel: u8,
    order: ByteOrder,
    size: u32,
    reply: ConfigReply,
) -> Seq<u8> {
    match reply {
        ConfigReply::Nothing => zeros(size as nat),
        ConfigReply::Name(r) => bytes_or_zeros(name_config(select, r), size as nat),
        ConfigReply::Ids(id) => id_config(order, id).bytes(),
        ConfigReply::EvBits(r) => bytes_or_zeros(event_config(select, subsel, r), size as nat),
    }
}

/// Tells whether the buffer that came with a name is text.
pub fn name_can_be_read(reply: &IoctlReply) -> (r: bool)
    ensures
        r == name_is_text(*reply),
{
    match reply {
        IoctlReply::Failed => true,
        IoctlReply::Done { len, data } => {
            *len < 2 || *len > 128 || string_from_utf8(slice_to_vec(data.as_slice())).is_ok()
        },
    }
}

/// Counts the bytes of `data` that are in use.
pub fn count_used(data: &[u8; VIRTIO_INPUT_CFG_SIZE]) -> (r: u8)
    ensures
        r == used_len(data@),
{
    let mut counter: u8 = 0;
    let mut index: u8 = 0;
    while index < 128
        invariant
            index <= 128,
            data@.len() == 128,
            counter == used_len(data@.take(index as int)),
        decreases 128 - index,
    {
        let val = data[index as usize];
        index += 1;
        if val != 0 {
            counter = index;
        }
        proof {
            let seen = data@.take(index as int);
            assert(seen.drop_last() =~= data@.take(index - 1));
            assert(seen.last() == val);
        }
    }
    proof {
        assert(data@.take(index as int) =~= data@);
    }
    counter
}

/// The data of a configuration space that starts with `bytes` and is zero from there on.
pub fn padded(bytes: &Vec<u8>) -> (r: [u8; VIRTIO_INPUT_CFG_SIZE])
    requires
        bytes@.len() <= VIRTIO_INPUT_CFG_SIZE,
    ensures
        r@ == bytes@ + zeros((VIRTIO_INPUT_CFG_SIZE - bytes@.len()) as nat),
{
    let mut val: [u8; VIRTIO_INPUT_CFG_SIZE] = [0; VIRTIO_INPUT_CFG_SIZE];
    let mut i: usize = 0;
    while i < bytes.len()
        invariant
            i <= bytes@.len() <= VIRTIO_INPUT_CFG_SIZE,
            val@ == bytes@.take(i as int) + zeros((VIRTIO_INPUT_CFG_SIZE - i) as nat),
        decreases bytes@.len() - i,
    {
        val[i] = bytes[i];
        i += 1;
        proof {
            assert(val@ =~= bytes@.take(i as int) + zeros((VIRTIO_INPUT_CFG_SIZE - i) as nat));
        }
    }
    proof {
        assert(bytes@.take(i as int) =~= bytes@);
    }
    val
}

/// What is in use ends with a byte that is not zero, and only zeros follow it.
pub proof fn law_unused_is_zero(data: Seq<u8>)
    ensures
        used_len(data) <= data.len(),
        used_len(data) > 0 ==> data[used_len(data) - 1] != 0,
        forall|i: int| used_len(data) <= i < data.len() ==> #[trigger] data[i] == 0,
    decreases data.len(),
{
    if data.len() > 0 && data.last() == 0 {
        law_unused_is_zero(data.drop_last());
        assert forall|i: int| used_len(data) <= i < data.len() implies #[trigger] data[i] == 0 by {
            if i < data.len() - 1 {
                assert(data.drop_last()[i] == data[i]);
            }
        }
    }
}

/// The bytes of a configuration space tell all of its contents.
pub proof fn law_config_bytes_are_unambiguous(a: VuInputConfig, b: VuInputConfig)
    ensures
        a@.bytes() == b@.bytes() <==> a@ == b@,
        a@.bytes().len() == 136,
{
    let s = a@.bytes();
    let t = b@.bytes();
    if s == t {
        assert(s[0] == t[0] && s[1] == t[1] && s[2] == t[2]);
        assert(a@.reserved =~= s.subrange(3, 8));
        assert(b@.reserved =~= t.subrange(3, 8));
        assert(a@.val =~= s.subrange(8, 136));
        assert(b@.val =~= t.subrange(8, 136));
    }
}

/// For the codes of a type of events the device gets the request with the number 0x20 plus the
/// subselection, and for no other subselection does it get one.
pub proof fn law_request_follows_subselection(subsel: u8)
    ensures
        query_for(VIRTIO_INPUT_CFG_EV_BITS, subsel).request_number() == if 1 <= subsel <= 5 {
            Some((0x20 + subsel) as u8)
        } else {
            None
        },
{
}

/// What the guest reads goes by what it selected last. It reads as many zeros as it asked for
/// bytes, or else a whole configuration space that repeats the selection. Where nothing has to
/// be asked of the input device it reads zeros.
pub proof fn law_reading_follows_selection(
    select: u8,
    subsel: u8,
    order: ByteOrder,
    size: u32,
    reply: ConfigReply,
)
    requires
        answers(query_for(select, subsel), reply),
    ensures
        ({
            let bytes = config_bytes(select, subsel, order, size, reply);
            ||| bytes == zeros(size as nat)
            ||| {
                &&& query_for(select, subsel) != ConfigQuery::Nothing
                &&& bytes.len() == 136
                &&& bytes[0] == select
                &&& bytes[1] == if select == VIRTIO_INPUT_CFG_EV_BITS {
                    subsel
                } else {
                    0
                }
                &&& forall|i: int| 3 <= i < 8 ==> #[trigger] bytes[i] == 0
            }
        }),
{
}

/// The fields of a configuration space lie one after the other, each at its place, and the bytes
/// of the arrays in their order.
pub proof fn law_fields_have_their_places(config: VuInputConfig)
    ensures
        ({
            let b = config@.bytes();
            &&& b.len() == 136
            &&& b[0] == config.select
            &&& b[1] == config.subsel
            &&& b[2] == config.size
            &&& forall|i: int| 3 <= i < 8 ==> #[trigger] b[i] == config.reserved@[i - 3]
            &&& forall|i: int| 8 <= i < 136 ==> #[trigger] b[i] == config.val@[i - 8]
        }),
{
}

/// The contents of a configuration space are its fields, and an error stays what it is.
pub proof fn law_contents_are_the_fields(config: VuInputConfig, e: VuInputError)
    ensures
        contents(Err(e)) == Err::<ConfigView, VuInputError>(e),
        contents(Ok(config)) matches Ok(c) && {
            &&& c.select == config.select
            &&& c.subsel == config.subsel
            &&& c.size == config.size
            &&& c.reserved == config.reserved@
            &&& c.val == config.val@
        },
        forall|n: nat| #[trigger] zeros(n).len() == n,
        forall|n: nat, i: int| 0 <= i < n ==> #[trigger] zeros(n)[i] == 0,
{
}

/// What the guest selects decides what the device is asked, and only an answer to that will do:
/// 1 stands for its name, 3 for its identifiers, and 0x11 with 1 to 5 for the codes of a type of
/// events. For the name it gets the request with the number 6, for the codes that with 0x20 plus
/// the subselection, and else none.
pub proof fn law_selection_decides_the_question(select: u8, subsel: u8, reply: ConfigReply)
    ensures
        ({
            let query = query_for(select, subsel);
            let codes = select == 0x11 && 1 <= subsel <= 5;
            &&& query == ConfigQuery::Name <==> select == 1
            &&& query == ConfigQuery::Ids <==> select == 3
            &&& query is EvBits <==> codes
            &&& query == ConfigQuery::Nothing <==> select != 1 && select != 3 && !codes
            &&& answers(query, reply) && reply is Name <==> select == 1 && reply is Name
            &&& answers(query, reply) && reply is Ids <==> select == 3 && reply is Ids
            &&& answers(query, reply) && reply is EvBits <==> codes && reply is EvBits
            &&& answers(query, reply) && reply is Nothing <==> select != 1 && select != 3 && !codes
                && reply is Nothing
            &&& query.request_number() == if select == 1 {
                Some(6u8)
            } else if codes {
                Some((0x20 + subsel) as u8)
            } else {
                None
            }
        }),
        forall|kind: EvKind|
            kind_of(subsel) == Some(kind) ==> 0x20 + subsel == #[trigger] kind.request_number(),
        kind_of(subsel) is Some <==> 1 <= subsel <= 5,
        kind_of(subsel) == Some(EvKind::Key) <==> subsel == 1,
        kind_of(subsel) == Some(EvKind::Relative) <==> subsel == 2,
        kind_of(subsel) == Some(EvKind::Absolute) <==> subsel == 3,
        kind_of(subsel) == Some(EvKind::Misc) <==> subsel == 4,
        kind_of(subsel) == Some(EvKind::Switch) <==> subsel == 5,
{
}

/// The numbers of the requests for codes follow the types of events without a gap, so that no two
/// types share one.
pub proof fn law_each_kind_has_its_request(a: EvKind, b: EvKind)
    ensures
        0x21 <= a.request_number() <= 0x25,
        a.request_number() == b.request_number() <==> a == b,
        a.request_number() == 0x21 <==> a == EvKind::Key,
        a.request_number() == 0x22 <==> a == EvKind::Relative,
        a.request_number() == 0x23 <==> a == EvKind::Absolute,
        a.request_number() == 0x24 <==> a == EvKind::Misc,
        a.request_number() == 0x25 <==> a == EvKind::Switch,
{
}

/// The codes of a type of events are read as the device gave them, together with their size,
/// which is up to the last byte that is not zero: for each type that there is, whatever was
/// selected, and with no error unless the request failed or the type is none of 1 to 5.
pub proof fn law_codes_are_read_as_given(
    select: u8,
    subsel: u8,
    len: i32,
    data: [u8; VIRTIO_INPUT_CFG_SIZE],
)
    ensures
        subsel < 1 || subsel > 5 ==> {
            &&& event_config(select, subsel, IoctlReply::Done { len, data }) == Err::<
                ConfigView,
                VuInputError,
            >(VuInputError::HandleEventUnknownEvent)
            &&& event_config(select, subsel, IoctlReply::Failed) == Err::<ConfigView, VuInputError>(
                VuInputError::HandleEventUnknownEvent,
            )
        },
        1 <= subsel <= 5 ==> {
            &&& event_config(select, subsel, IoctlReply::Failed) == Err::<ConfigView, VuInputError>(
                VuInputError::UnexpectedInputDeviceError,
            )
            &&& event_config(select, subsel, IoctlReply::Done { len, data }) matches Ok(c)
            &&& c.select == select
            &&& c.subsel == subsel
            &&& c.size <= 128
            &&& c.size > 0 ==> data@[c.size - 1] != 0
            &&& forall|i: int| c.size <= i < 128 ==> #[trigger] data@[i] == 0
            &&& c.reserved.len() == 5
            &&& forall|i: int| 0 <= i < 5 ==> #[trigger] c.reserved[i] == 0
            &&& c.val == data@
        },
{
    law_unused_is_zero(data@);
}

/// For the codes of a type of events the guest reads 136 bytes: what it selected, the size of the
/// codes, which is up to the last byte that is not zero, and the codes as the device gave them.
/// Where the request failed, or there is no such type, it reads zeros.
pub proof fn law_guest_reads_codes(
    subsel: u8,
    order: ByteOrder,
    size: u32,
    len: i32,
    data: [u8; VIRTIO_INPUT_CFG_SIZE],
)
    ensures
        1 <= subsel <= 5 ==> {
            let b = config_bytes(
                0x11,
                subsel,
                order,
                size,
                ConfigReply::EvBits(IoctlReply::Done { len, data }),
            );
            &&& b.len() == 136
            &&& b[0] == 0x11
            &&& b[1] == subsel
            &&& b[2] <= 128
            &&& b[2] > 0 ==> data@[b[2] - 1] != 0
            &&& forall|i: int| b[2] <= i < 128 ==> #[trigger] data@[i] == 0
            &&& forall|i: int| 3 <= i < 8 ==> #[trigger] b[i] == 0
            &&& b.subrange(8, 136) == data@
        },
        ({
            let b = config_bytes(
                0x11,
                subsel,
                order,
                size,
                ConfigReply::EvBits(IoctlReply::Failed),
            );
            &&& b.len() == size
            &&& forall|i: int| 0 <= i < size ==> #[trigger] b[i] == 0
        }),
        subsel < 1 || subsel > 5 ==> {
            let b = config_bytes(
                0x11,
                subsel,
                order,
                size,
                ConfigReply::EvBits(IoctlReply::Done { len, data }),
            );
            &&& b.len() == size
            &&& forall|i: int| 0 <= i < size ==> #[trigger] b[i] == 0
        },
{
    law_codes_are_read_as_given(0x11, subsel, len, data);
    let b = config_bytes(
        0x11,
        subsel,
        order,
        size,
        ConfigReply::EvBits(IoctlReply::Done { len, data }),
    );
    if 1 <= subsel <= 5 {
        assert(b.subrange(8, 136) =~= data@);
    }
}

/// A name of two to 128 bytes is read with the whole buffer in which the device gave it, and any
/// other is refused. The guest reads zeros in place of one that was refused.
pub proof fn law_guest_reads_name(
    select: u8,
    subsel: u8,
    order: ByteOrder,
    size: u32,
    len: i32,
    data: [u8; VIRTIO_INPUT_CFG_SIZE],
)
    ensures
        ({
            let done = IoctlReply::Done { len, data };
            let b = config_bytes(select, subsel, order, size, ConfigReply::Name(done));
            &&& 2 <= len <= 128 ==> {
                &&& name_config(select, done) matches Ok(c)
                &&& c.select == select
                &&& c.subsel == 0
                &&& c.size == 128
                &&& c.reserved.len() == 5
                &&& forall|i: int| 0 <= i < 5 ==> #[trigger] c.reserved[i] == 0
                &&& c.val == data@
                &&& b.len() == 136
                &&& b[0] == select
                &&& b[1] == 0
                &&& b[2] == 128
                &&& forall|i: int| 3 <= i < 8 ==> #[trigger] b[i] == 0
                &&& b.subrange(8, 136) == data@
            }
            &&& len < 2 || len > 128 ==> {
                &&& name_config(select, done) == Err::<ConfigView, VuInputError>(
                    VuInputError::UnexpectedInputDeviceError,
                )
                &&& b.len() == size
                &&& forall|i: int| 0 <= i < size ==> #[trigger] b[i] == 0
            }
            &&& name_is_text(done) <==> (2 <= len <= 128 ==> valid_utf8(data@))
        }),
        ({
            let b = config_bytes(
                select,
                subsel,
                order,
                size,
                ConfigReply::Name(IoctlReply::Failed),
            );
            &&& name_config(select, IoctlReply::Failed) == Err::<ConfigView, VuInputError>(
                VuInputError::UnexpectedInputDeviceError,
            )
            &&& b.len() == size
            &&& forall|i: int| 0 <= i < size ==> #[trigger] b[i] == 0
            &&& name_is_text(IoctlReply::Failed)
        }),
{
    let done = IoctlReply::Done { len, data };
    let b = config_bytes(select, subsel, order, size, ConfigReply::Name(done));
    if 2 <= len <= 128 {
        assert(b.subrange(8, 136) =~= data@);
    }
}

/// The guest reads back each identifier from its place in the configuration space, in the byte
/// order of the machine, and zeros behind them.
pub proof fn law_guest_reads_identifiers(
    select: u8,
    subsel: u8,
    order: ByteOrder,
    size: u32,
    id: InputId,
)
    ensures
        ({
            let b = config_bytes(select, subsel, order, size, ConfigReply::Ids(id));
            let c = id_config(order, id);
            &&& c.select == 3
            &&& c.subsel == 0
            &&& c.size == 128
            &&& c.reserved.len() == 5
            &&& c.val.len() == 128
            &&& id.bytes(order).len() == 8
            &&& forall|i: int| 0 <= i < 8 ==> c.val[i] == #[trigger] id.bytes(order)[i]
            &&& b.len() == 136
            &&& b[0] == 3
            &&& b[1] == 0
            &&& b[2] == 128
            &&& forall|i: int| 3 <= i < 8 ==> #[trigger] b[i] == 0
            &&& forall|i: int| 8 <= i < 136 ==> #[trigger] b[i] == c.val[i - 8]
            &&& order == ByteOrder::Little ==> {
                &&& b[8] + 0x100 * b[9] == id.bus_type
                &&& b[10] + 0x100 * b[11] == id.vendor
                &&& b[12] + 0x100 * b[13] == id.product
                &&& b[14] + 0x100 * b[15] == id.version
            }
            &&& order == ByteOrder::Big ==> {
                &&& b[9] + 0x100 * b[8] == id.bus_type
                &&& b[11] + 0x100 * b[10] == id.vendor
                &&& b[13] + 0x100 * b[12] == id.product
                &&& b[15] + 0x100 * b[14] == id.version
            }
            &&& forall|i: int| 16 <= i < 136 ==> #[trigger] b[i] == 0
        }),
{
}

/// Where the device is not asked the guest reads as many zeros as it wants bytes.
pub proof fn law_guest_reads_zeros(select: u8, subsel: u8, order: ByteOrder, size: u32)
    ensures
        ({
            let b = config_bytes(select, subsel, order, size, ConfigReply::Nothing);
            &&& b.len() == size
            &&& forall|i: int| 0 <= i < size ==> #[trigger] b[i] == 0
        }),
{
}

} // verus!
