//! The boundary as data: the calls that cross it and the answers that come
//! back.
//!
//! Nothing in this crate touches the component. An operation is described
//! by a [`Call`]; the host's *transport* makes it and hands back a [`Reply`].
//! An object on the far side is named by its address, which is never
//! looked behind here.
use crate::error::Error;
use crate::guids::Guid;
use vstd::prelude::*;

verus! {

/// How a property's value is shaped at the boundary.
#[derive(Clone, Copy, Debug, PartialEq, Eq, Structural, Hash)]
pub enum Shape {
    /// A signed 32-bit mode or enumeration value.
    Scalar,
    /// An unsigned 32-bit packed colour.
    Color,
    /// An unsigned 32-bit field of flags.
    Flags,
    /// Wide-character text.
    Text,
}

/// A value as it crosses the boundary.
#[derive(Clone, Debug, PartialEq, Eq, Hash)]
pub enum Payload {
    Int(i32),
    Word(u32),
    Wide(Vec<u16>),
    /// The deliberate absence of text, for a property that can be cleared.
    Null,
}

/// The mathematical value of a [`Payload`].
pub ghost enum PayloadView {
    Int(i32),
    Word(u32),
    Wide(Seq<u16>),
    Null,
}

impl View for Payload {
    type V = PayloadView;

    open spec fn view(&self) -> PayloadView {
        match *self {
            Payload::Int(v) => PayloadView::Int(v),
            Payload::Word(v) => PayloadView::Word(v),
            Payload::Wide(units) => PayloadView::Wide(units@),
            Payload::Null => PayloadView::Null,
        }
    }
}

/// One operation at the boundary.
#[derive(Clone, Debug, PartialEq, Eq, Hash)]
pub enum Call {
    /// Construct a new instance of a class, in process.
    Create { class: Guid },
    /// Ask an object for another of its interfaces.
    Query { object: usize, interface: Guid },
    /// Give up one reference to an object.
    Release { object: usize },
    /// Invoke a getter entry with a zeroed value of the given shape.
    Get { object: usize, slot: u32, shape: Shape },
    /// Invoke a setter entry with a value.
    Put { object: usize, slot: u32, value: Payload },
}

/// The mathematical value of a [`Call`].
pub ghost enum CallView {
    Create { class: Guid },
    Query { object: usize, interface: Guid },
    Release { object: usize },
    Get { object: usize, slot: u32, shape: Shape },
    Put { object: usize, slot: u32, value: PayloadView },
}

impl View for Call {
    type V = CallView;

    open spec fn view(&self) -> CallView {
        match *self {
            Call::Create { class } => CallView::Create { class },
            Call::Query { object, interface } => CallView::Query { object, interface },
            Call::Release { object } => CallView::Release { object },
            Call::Get { object, slot, shape } => CallView::Get { object, slot, shape },
            Call::Put { object, slot, value } => CallView::Put { object, slot, value: value@ },
        }
    }
}

/// What a call left behind, besides its status.
#[derive(Clone, Debug, PartialEq, Eq, Hash)]
pub enum Output {
    /// Nothing was written: a zeroed value stays zero, a pointer stays null.
    Nothing,
    /// The address of an object.
    Object(usize),
    /// A property's value.
    Value(Payload),
}

/// The mathematical value of an [`Output`].
pub ghost enum OutputView {
    Nothing,
    Object(usize),
    Value(PayloadView),
}

impl View for Output {
    type V = OutputView;

    open spec fn view(&self) -> OutputView {
        match *self {
            Output::Nothing => OutputView::Nothing,
            Output::Object(address) => OutputView::Object(address),
            Output::Value(value) => OutputView::Value(value@),
        }
    }
}

/// The answer to a call: its status and what it wrote.
#[derive(Clone, Debug, PartialEq, Eq, Hash)]
pub struct Reply {
    pub status: i32,
    pub output: Output,
}

/// The mathematical value of a [`Reply`].
pub ghost struct ReplyView {
    pub status: i32,
    pub output: OutputView,
}

impl View for Reply {
    type V = ReplyView;

    open spec fn view(&self) -> ReplyView {
        ReplyView { status: self.status, output: self.output@ }
    }
}

/// The transport may be handed a call with the value `call`.
pub open spec fn accepts<F: Fn(&Call) -> Reply>(transport: &F, call: CallView) -> bool {
    forall|made: Call| made@ == call ==> #[trigger] call_requires(transport, (&made,))
}

/// The transport may be handed the call of a request, where the request
/// comes to a call. Where it is refused there is no call, and nothing is
/// asked of the transport.
pub open spec fn accepts_request<F: Fn(&Call) -> Reply>(
    transport: &F,
    request: Result<CallView, Error>,
) -> bool {
    match request {
        Ok(call) => accepts(transport, call),
        Err(_) => true,
    }
}

/// `reply` is an answer that the transport gave to a call with the value
/// `call`.
pub open spec fn answered<F: Fn(&Call) -> Reply>(
    transport: &F,
    call: CallView,
    reply: Reply,
) -> bool {
    exists|made: Call| made@ == call && #[trigger] call_ensures(transport, (&made,), reply)
}

} // verus!
