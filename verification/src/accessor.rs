//! The property accessor protocol.
//!
//! Every property of a component is read and written in the same way,
//! whatever it means: a getter entry and a setter entry of the interface's
//! table, and one of four value shapes. A read invokes the getter with a
//! zeroed value and, if the status reports success, takes what is then in
//! it. A write invokes the setter with the value and checks the status; a
//! write without a value is refused before any call is made.
//!
//! Each operation comes in two halves and as a whole. The halves decide
//! which call to make ([`get_call`], [`put_call`]) and what its answer
//! means ([`read_scalar`], [`read_word`], [`read_text`], [`read_put`]);
//! they touch nothing. The whole operations make the call through a transport.
use crate::boundary::{
    accepts_request, answered, Call, CallView, Output, OutputView, Payload, PayloadView, Reply,
    ReplyView, Shape,
};
use crate::error::{check_status, status_outcome, succeeded, Error, S_OK};
use crate::handle::BinaryHandle;
use crate::layout::{getter_slot, setter_slot, LAST_PLACE, RESERVED_ENTRIES};
use crate::marshal::{inbound, inbound_outcome, outbound, text_of};
use crate::utf16::encode;
use vstd::prelude::*;

verus! {

/// A result that holds a call, with the call as its mathematical value.
pub open spec fn request_of(r: Result<Call, Error>) -> Result<CallView, Error> {
    match r {
        Ok(call) => Ok(call@),
        Err(e) => Err(e),
    }
}

/// An optional value, as its mathematical value.
pub open spec fn payload_of(value: Option<Payload>) -> Option<PayloadView> {
    match value {
        Some(v) => Some(v@),
        None => None,
    }
}

/// The call that reads a property: none on an empty handle.
pub open spec fn get_request(
    handle: BinaryHandle,
    slot: u32,
    shape: Shape,
) -> Result<CallView, Error> {
    if handle.is_null() {
        Err(Error::NullHandle)
    } else {
        Ok(CallView::Get { object: handle.ptr, slot, shape })
    }
}

/// The call that writes a property: none without a value, and none on an
/// empty handle.
pub open spec fn put_request(
    handle: BinaryHandle,
    slot: u32,
    value: Option<PayloadView>,
) -> Result<CallView, Error> {
    match value {
        None => Err(Error::InvalidArgument),
        Some(value) => if handle.is_null() {
            Err(Error::NullHandle)
        } else {
            Ok(CallView::Put { object: handle.ptr, slot, value })
        },
    }
}

/// The signed value in a getter's out-parameter: what was written, or the
/// zero it started as.
pub open spec fn scalar_written(output: OutputView) -> i32 {
    match output {
        OutputView::Value(PayloadView::Int(v)) => v,
        _ => 0,
    }
}

/// The unsigned value in a getter's out-parameter: what was written, or
/// the zero it started as.
pub open spec fn word_written(output: OutputView) -> u32 {
    match output {
        OutputView::Value(PayloadView::Word(v)) => v,
        _ => 0,
    }
}

/// The text in a getter's out-parameter: the units written, or none where
/// the pointer stayed null.
pub open spec fn wide_written(output: OutputView) -> Option<Seq<u16>> {
    match output {
        OutputView::Value(PayloadView::Wide(units)) => Some(units),
        _ => None,
    }
}

/// What the answer to a scalar getter means.
pub open spec fn scalar_outcome(reply: ReplyView) -> Result<i32, Error> {
    if succeeded(reply.status) {
        Ok(scalar_written(reply.output))
    } else {
        Err(Error::BoundaryCallFailed(reply.status))
    }
}

/// What the answer to a colour or flags getter means.
pub open spec fn word_outcome(reply: ReplyView) -> Result<u32, Error> {
    if succeeded(reply.status) {
        Ok(word_written(reply.output))
    } else {
        Err(Error::BoundaryCallFailed(reply.status))
    }
}

/// What the answer to a text getter means.
pub open spec fn text_outcome(reply: ReplyView) -> Result<Seq<char>, Error> {
    inbound_outcome(reply.status, wide_written(reply.output))
}

/// What the answer to a setter means.
pub open spec fn put_outcome(reply: ReplyView) -> Result<(), Error> {
    status_outcome(reply.status)
}

/// Plans a read: the call to make, or why none is made.
pub fn get_call(handle: &BinaryHandle, slot: u32, shape: Shape) -> (r: Result<Call, Error>)
    ensures
        request_of(r) == get_request(*handle, slot, shape),
{
    if handle.is_null() {
        Err(Error::NullHandle)
    } else {
        Ok(Call::Get { object: handle.as_ptr(), slot, shape })
    }
}

/// Plans a write: the call to make, or why none is made. Without a value
/// there is never a call.
pub fn put_call(
    handle: &BinaryHandle,
    slot: u32,
    value: Option<Payload>,
) -> (r: Result<Call, Error>)
    ensures
        request_of(r) == put_request(*handle, slot, payload_of(value)),
        value is None ==> r == Err::<Call, Error>(Error::InvalidArgument),
{
    match value {
        None => Err(Error::InvalidArgument),
        Some(value) => {
            if handle.is_null() {
                Err(Error::NullHandle)
            } else {
                Ok(Call::Put { object: handle.as_ptr(), slot, value })
            }
        },
    }
}

/// Reads the answer to a scalar getter.
pub fn read_scalar(reply: &Reply) -> (r: Result<i32, Error>)
    ensures
        r == scalar_outcome(reply@),
{
    match check_status(reply.status) {
        Err(e) => Err(e),
        Ok(()) => match &reply.output {
            Output::Value(Payload::Int(v)) => Ok(*v),
            _ => Ok(0),
        },
    }
}

/// Reads the answer to a colour or flags getter.
pub fn read_word(reply: &Reply) -> (r: Result<u32, Error>)
    ensures
        r == word_outcome(reply@),
{
    match check_status(reply.status) {
        Err(e) => Err(e),
        Ok(()) => match &reply.output {
            Output::Value(Payload::Word(v)) => Ok(*v),
            _ => Ok(0),
        },
    }
}

/// Reads the answer to a text getter.
pub fn read_text(reply: &Reply) -> (r: Result<String, Error>)
    ensures
        text_of(r) == text_outcome(reply@),
{
    match &reply.output {
        Output::Value(Payload::Wide(units)) => inbound(reply.status, Some(units)),
        _ => inbound(reply.status, None),
    }
}

/// Reads the answer to a setter.
pub fn read_put(reply: &Reply) -> (r: Result<(), Error>)
    ensures
        r == put_outcome(reply@),
{
    check_status(reply.status)
}

/// `r` is what a scalar read gives where its request is `request` and the
/// call, if there is one, goes through `transport`: the refusal, or the meaning
/// of an answer that the transport gave to exactly that call.
pub open spec fn scalar_through<F: Fn(&Call) -> Reply>(
    transport: &F,
    request: Result<CallView, Error>,
    r: Result<i32, Error>,
) -> bool {
    match request {
        Err(e) => r == Err::<i32, Error>(e),
        Ok(call) => exists|reply: Reply| #[trigger]
            answered(transport, call, reply) && r == scalar_outcome(reply@),
    }
}

/// As [`scalar_through`], for a colour or a field of flags.
pub open spec fn word_through<F: Fn(&Call) -> Reply>(
    transport: &F,
    request: Result<CallView, Error>,
    r: Result<u32, Error>,
) -> bool {
    match request {
        Err(e) => r == Err::<u32, Error>(e),
        Ok(call) => exists|reply: Reply| #[trigger]
            answered(transport, call, reply) && r == word_outcome(reply@),
    }
}

/// As [`scalar_through`], for text.
pub open spec fn text_through<F: Fn(&Call) -> Reply>(
    transport: &F,
    request: Result<CallView, Error>,
    r: Result<String, Error>,
) -> bool {
    match request {
        Err(e) => r == Err::<String, Error>(e),
        Ok(call) => exists|reply: Reply| #[trigger]
            answered(transport, call, reply) && text_of(r) == text_outcome(reply@),
    }
}

/// As [`scalar_through`], for a write.
pub open spec fn put_through<F: Fn(&Call) -> Reply>(
    transport: &F,
    request: Result<CallView, Error>,
    r: Result<(), Error>,
) -> bool {
    match request {
        Err(e) => r == Err::<(), Error>(e),
        Ok(call) => exists|reply: Reply| #[trigger]
            answered(transport, call, reply) && r == put_outcome(reply@),
    }
}

/// Reads a signed scalar property.
pub fn get_scalar<F: Fn(&Call) -> Reply>(
    handle: &BinaryHandle,
    slot: u32,
    transport: &F,
) -> (r: Result<i32, Error>)
    requires
        accepts_request(transport, get_request(*handle, slot, Shape::Scalar)),
    ensures
        scalar_through(transport, get_request(*handle, slot, Shape::Scalar), r),
{
    match get_call(handle, slot, Shape::Scalar) {
        Err(e) => Err(e),
        Ok(call) => {
            let reply = transport(&call);
            assert(answered(transport, call@, reply));
            read_scalar(&reply)
        },
    }
}

/// Reads an unsigned property of the given shape.
fn get_word<F: Fn(&Call) -> Reply>(
    handle: &BinaryHandle,
    slot: u32,
    shape: Shape,
    transport: &F,
) -> (r: Result<u32, Error>)
    requires
        accepts_request(transport, get_request(*handle, slot, shape)),
    ensures
        word_through(transport, get_request(*handle, slot, shape), r),
{
    match get_call(handle, slot, shape) {
        Err(e) => Err(e),
        Ok(call) => {
            let reply = transport(&call);
            assert(answered(transport, call@, reply));
            read_word(&reply)
        },
    }
}

/// Reads a packed colour property.
pub fn get_color<F: Fn(&Call) -> Reply>(
    handle: &BinaryHandle,
    slot: u32,
    transport: &F,
) -> (r: Result<u32, Error>)
    requires
        accepts_request(transport, get_request(*handle, slot, Shape::Color)),
    ensures
        word_through(transport, get_request(*handle, slot, Shape::Color), r),
{
    get_word(handle, slot, Shape::Color, transport)
}

/// Reads a flags property.
pub fn get_flags<F: Fn(&Call) -> Reply>(
    handle: &BinaryHandle,
    slot: u32,
    transport: &F,
) -> (r: Result<u32, Error>)
    requires
        accepts_request(transport, get_request(*handle, slot, Shape::Flags)),
    ensures
        word_through(transport, get_request(*handle, slot, Shape::Flags), r),
{
    get_word(handle, slot, Shape::Flags, transport)
}

/// Reads a text property.
pub fn get_text<F: Fn(&Call) -> Reply>(
    handle: &BinaryHandle,
    slot: u32,
    transport: &F,
) -> (r: Result<String, Error>)
    requires
        accepts_request(transport, get_request(*handle, slot, Shape::Text)),
    ensures
        text_through(transport, get_request(*handle, slot, Shape::Text), r),
{
    match get_call(handle, slot, Shape::Text) {
        Err(e) => Err(e),
        Ok(call) => {
            let reply = transport(&call);
            assert(answered(transport, call@, reply));
            read_text(&reply)
        },
    }
}

/// Writes a value, if there is one, through the transport.
fn put_value<F: Fn(&Call) -> Reply>(
    handle: &BinaryHandle,
    slot: u32,
    value: Option<Payload>,
    transport: &F,
) -> (r: Result<(), Error>)
    requires
        accepts_request(transport, put_request(*handle, slot, payload_of(value))),
    ensures
        put_through(transport, put_request(*handle, slot, payload_of(value)), r),
{
    match put_call(handle, slot, value) {
        Err(e) => Err(e),
        Ok(call) => {
            let reply = transport(&call);
            assert(answered(transport, call@, reply));
            read_put(&reply)
        },
    }
}

/// The value that a scalar write hands over.
pub open spec fn scalar_payload(value: Option<i32>) -> Option<PayloadView> {
    match value {
        Some(v) => Some(PayloadView::Int(v)),
        None => None,
    }
}

/// The value that a colour or flags write hands over.
pub open spec fn word_payload(value: Option<u32>) -> Option<PayloadView> {
    match value {
        Some(v) => Some(PayloadView::Word(v)),
        None => None,
    }
}

/// The value that a text write hands over: the units of the text.
pub open spec fn text_payload(value: Option<&str>) -> Option<PayloadView> {
    match value {
        Some(text) => Some(PayloadView::Wide(encode(text@))),
        None => None,
    }
}

/// Writes a signed scalar property.
pub fn put_scalar<F: Fn(&Call) -> Reply>(
    handle: &BinaryHandle,
    slot: u32,
    value: Option<i32>,
    transport: &F,
) -> (r: Result<(), Error>)
    requires
        accepts_request(transport, put_request(*handle, slot, scalar_payload(value))),
    ensures
        put_through(transport, put_request(*handle, slot, scalar_payload(value)), r),
        value is None ==> r == Err::<(), Error>(Error::InvalidArgument),
{
    match value {
        Some(v) => put_value(handle, slot, Some(Payload::Int(v)), transport),
        None => put_value(handle, slot, None, transport),
    }
}

/// Writes an unsigned property.
fn put_word<F: Fn(&Call) -> Reply>(
    handle: &BinaryHandle,
    slot: u32,
    value: Option<u32>,
    transport: &F,
) -> (r: Result<(), Error>)
    requires
        accepts_request(transport, put_request(*handle, slot, word_payload(value))),
    ensures
        put_through(transport, put_request(*handle, slot, word_payload(value)), r),
        value is None ==> r == Err::<(), Error>(Error::InvalidArgument),
{
    match value {
        Some(v) => put_value(handle, slot, Some(Payload::Word(v)), transport),
        None => put_value(handle, slot, None, transport),
    }
}

/// Writes a packed colour property.
pub fn put_color<F: Fn(&Call) -> Reply>(
    handle: &BinaryHandle,
    slot: u32,
    value: Option<u32>,
    transport: &F,
) -> (r: Result<(), Error>)
    requires
        accepts_request(transport, put_request(*handle, slot, word_payload(value))),
    ensures
        put_through(transport, put_request(*handle, slot, word_payload(value)), r),
        value is None ==> r == Err::<(), Error>(Error::InvalidArgument),
{
    put_word(handle, slot, value, transport)
}

/// Writes a flags property.
pub fn put_flags<F: Fn(&Call) -> Reply>(
    handle: &BinaryHandle,
    slot: u32,
    value: Option<u32>,
    transport: &F,
) -> (r: Result<(), Error>)
    requires
        accepts_request(transport, put_request(*handle, slot, word_payload(value))),
    ensures
        put_through(transport, put_request(*handle, slot, word_payload(value)), r),
        value is None ==> r == Err::<(), Error>(Error::InvalidArgument),
{
    put_word(handle, slot, value, transport)
}

/// Writes a text property. The text goes out as its wide units.
pub fn put_text<F: Fn(&Call) -> Reply>(
    handle: &BinaryHandle,
    slot: u32,
    value: Option<&str>,
    transport: &F,
) -> (r: Result<(), Error>)
    requires
        accepts_request(transport, put_request(*handle, slot, text_payload(value))),
    ensures
        put_through(transport, put_request(*handle, slot, text_payload(value)), r),
        value is None ==> r == Err::<(), Error>(Error::InvalidArgument),
{
    match outbound(value) {
        Err(e) => Err(e),
        Ok(units) => put_value(handle, slot, Some(Payload::Wide(units)), transport),
    }
}

/// Clears a text property that can be cleared: its setter is handed no
/// text at all, on purpose.
pub fn clear_text<F: Fn(&Call) -> Reply>(
    handle: &BinaryHandle,
    slot: u32,
    transport: &F,
) -> (r: Result<(), Error>)
    requires
        accepts_request(transport, put_request(*handle, slot, Some(PayloadView::Null))),
    ensures
        put_through(transport, put_request(*handle, slot, Some(PayloadView::Null)), r),
{
    put_value(handle, slot, Some(Payload::Null), transport)
}

/// What a component holds that keeps every property exactly as it was
/// put: for each place in declared order, the value last put there.
pub type Kept = Map<u32, PayloadView>;

/// The place whose getter an entry is, if it is a getter.
pub open spec fn getter_place(slot: u32) -> Option<u32> {
    if slot >= RESERVED_ENTRIES && (slot - RESERVED_ENTRIES) % 2 == 0 {
        Some(((slot - RESERVED_ENTRIES) / 2) as u32)
    } else {
        None
    }
}

/// The place whose setter an entry is, if it is a setter.
pub open spec fn setter_place(slot: u32) -> Option<u32> {
    if slot >= RESERVED_ENTRIES && (slot - RESERVED_ENTRIES) % 2 == 1 {
        Some(((slot - RESERVED_ENTRIES) / 2) as u32)
    } else {
        None
    }
}

/// What such a component holds after a call: a setter replaces the value
/// at its place, and nothing else changes anything.
pub open spec fn kept_after(kept: Kept, call: CallView) -> Kept {
    match call {
        CallView::Put { object, slot, value } => match setter_place(slot) {
            Some(place) => kept.insert(place, value),
            None => kept,
        },
        _ => kept,
    }
}

/// How such a component answers a call: always with success, and to a
/// getter with the value at its place, if one was ever put there.
pub open spec fn kept_answer(kept: Kept, call: CallView) -> ReplyView {
    match call {
        CallView::Get { object, slot, shape } => match getter_place(slot) {
            Some(place) => if kept.contains_key(place) {
                ReplyView { status: S_OK, output: OutputView::Value(kept[place]) }
            } else {
                ReplyView { status: S_OK, output: OutputView::Nothing }
            },
            None => ReplyView { status: S_OK, output: OutputView::Nothing },
        },
        _ => ReplyView { status: S_OK, output: OutputView::Nothing },
    }
}

/// The answer to reading the property at `place`, after `value` was
/// written to the property at `written`, by a component that keeps what it
/// is given and held `kept` before.
pub open spec fn read_after_write(
    kept: Kept,
    handle: BinaryHandle,
    written: u32,
    value: PayloadView,
    place: u32,
    shape: Shape,
) -> ReplyView
    recommends
        !handle.is_null(),
        written <= LAST_PLACE,
        place <= LAST_PLACE,
{
    let put = put_request(handle, setter_slot(written) as u32, Some(value));
    let get = get_request(handle, getter_slot(place) as u32, shape);
    kept_answer(kept_after(kept, put->Ok_0), get->Ok_0)
}

/// Round trip of a scalar: written to any property and read back from the
/// same property, through a component that keeps what it is given, it is
/// read back as the same value.
pub proof fn law_scalar_round_trip(kept: Kept, handle: BinaryHandle, place: u32, value: i32)
    requires
        !handle.is_null(),
        place <= LAST_PLACE,
    ensures
        put_request(handle, setter_slot(place) as u32, Some(PayloadView::Int(value))) is Ok,
        get_request(handle, getter_slot(place) as u32, Shape::Scalar) is Ok,
        scalar_outcome(
            read_after_write(kept, handle, place, PayloadView::Int(value), place, Shape::Scalar),
        ) == Ok::<i32, Error>(value),
{
    lemma_places(place);
}

/// Round trip of a colour or a field of flags.
pub proof fn law_word_round_trip(
    kept: Kept,
    handle: BinaryHandle,
    place: u32,
    shape: Shape,
    value: u32,
)
    requires
        !handle.is_null(),
        place <= LAST_PLACE,
    ensures
        put_request(handle, setter_slot(place) as u32, Some(PayloadView::Word(value))) is Ok,
        get_request(handle, getter_slot(place) as u32, shape) is Ok,
        word_outcome(read_after_write(kept, handle, place, PayloadView::Word(value), place, shape))
            == Ok::<u32, Error>(value),
{
    lemma_places(place);
}

/// Round trip of text: written as its wide units and read back from the
/// same property, through a component that keeps its units, it is read
/// back as the same text, whatever characters it holds.
pub proof fn law_text_round_trip(kept: Kept, handle: BinaryHandle, place: u32, text: Seq<char>)
    requires
        !handle.is_null(),
        place <= LAST_PLACE,
    ensures
        put_request(handle, setter_slot(place) as u32, Some(PayloadView::Wide(encode(text))))
            is Ok,
        get_request(handle, getter_slot(place) as u32, Shape::Text) is Ok,
        text_outcome(
            read_after_write(
                kept,
                handle,
                place,
                PayloadView::Wide(encode(text)),
                place,
                Shape::Text,
            ),
        ) == Ok::<Seq<char>, Error>(text),
{
    lemma_places(place);
    crate::utf16::law_text_round_trip(text);
}

/// A write to one property leaves every other as it was: reading another
/// property gives the same answer after the write as before.
pub proof fn law_write_leaves_others(
    kept: Kept,
    handle: BinaryHandle,
    written: u32,
    value: PayloadView,
    place: u32,
    shape: Shape,
)
    requires
        !handle.is_null(),
        written <= LAST_PLACE,
        place <= LAST_PLACE,
        written != place,
    ensures
        read_after_write(kept, handle, written, value, place, shape) == kept_answer(
            kept,
            get_request(handle, getter_slot(place) as u32, shape)->Ok_0,
        ),
{
    lemma_places(written);
    lemma_places(place);
}

/// A write without a value is refused as an invalid argument, on every
/// handle and property, and there is no call to make.
pub proof fn law_put_nothing_makes_no_call(handle: BinaryHandle, slot: u32)
    ensures
        put_request(handle, slot, None) == Err::<CallView, Error>(Error::InvalidArgument),
{
}

/// The entries of a place lead back to it.
proof fn lemma_places(place: u32)
    requires
        place <= LAST_PLACE,
    ensures
        getter_place(getter_slot(place) as u32) == Some(place),
        setter_place(setter_slot(place) as u32) == Some(place),
        getter_place(setter_slot(place) as u32) is None,
        setter_place(getter_slot(place) as u32) is None,
{
}

} // verus!
