//! The callback sink: the object through which the component calls back.
//!
//! The host makes a sink around a handler and registers it with the
//! component, which keeps it for as long as it likes and invokes it by a
//! numeric event identifier with positional arguments, on a thread of its
//! own choosing. One identifier is understood, the redirect notification,
//! with exactly one argument, a string. Everything else is accepted and
//! ignored: the component is trusted, and it may probe before it
//! dispatches. No dispatch ever reports a failure.
use crate::error::{E_NOINTERFACE, S_OK};
use crate::guids::{Guid, IID_ICChatFrameEvents, IID_IDispatch, IID_IUnknown};
use crate::utf16::{decode, decode_wide};
use vstd::prelude::*;

verus! {

/// The event identifier of the redirect notification.
pub const DISPID_ON_REDIRECT: i32 = 1;

/// One positional argument of a dispatch, as far as the sink looks at it:
/// a string, or anything else.
#[derive(Clone, Debug, PartialEq, Eq, Hash)]
pub enum Variant {
    /// A string, as its wide units. It is lent for the length of the call.
    Text(Vec<u16>),
    /// A value of any other type.
    Other,
}

/// The text that a dispatch hands to the handler, if it hands it any: the
/// argument, read as text, where the identifier is that of the redirect
/// notification and there is exactly one argument and it is a string.
pub open spec fn redirect_of(dispid: i32, args: Seq<Variant>) -> Option<Seq<char>> {
    if dispid == DISPID_ON_REDIRECT && args.len() == 1 {
        match args[0] {
            Variant::Text(units) => Some(decode(units@)),
            Variant::Other => None,
        }
    } else {
        None
    }
}

/// An optional string, with the string as a sequence of characters.
pub open spec fn text_in(r: Option<String>) -> Option<Seq<char>> {
    match r {
        Some(text) => Some(text@),
        None => None,
    }
}

/// Decides what a dispatch means: the text for the handler, or that the
/// dispatch is dropped.
pub fn redirect_target(dispid: i32, args: &[Variant]) -> (r: Option<String>)
    ensures
        text_in(r) == redirect_of(dispid, args@),
{
    if dispid == DISPID_ON_REDIRECT && args.len() == 1 {
        match &args[0] {
            Variant::Text(units) => Some(decode_wide(units.as_slice())),
            Variant::Other => None,
        }
    } else {
        None
    }
}

/// Whether a sink grants an interface: its own event interface, and the
/// two that every dispatch object has.
pub open spec fn sink_grants(iid: u128) -> bool {
    iid == IID_ICChatFrameEvents || iid == IID_IDispatch || iid == IID_IUnknown
}

/// An event sink for the chat frame's notifications.
///
/// It holds the handler and counts the references held on it. The host
/// holds the first; the component takes and gives up its own. When the
/// last is given up the sink is dead and its owner may free it.
pub struct ChatFrameEventSink<F> {
    ref_count: u32,
    on_redirect: F,
}

impl<F: Fn(String) + Send + Sync + 'static> ChatFrameEventSink<F> {
    /// The number of references held.
    pub closed spec fn count(&self) -> u32 {
        self.ref_count
    }

    /// The registered handler.
    pub closed spec fn handler(&self) -> F {
        self.on_redirect
    }

    /// Whether the handler may be called with the given text.
    pub open spec fn handler_takes(&self, text: Seq<char>) -> bool {
        forall|given: String| given@ == text ==> #[trigger] call_requires(self.handler(), (given,))
    }

    /// A sink around a handler, with the host's reference on it.
    pub fn new(handler: F) -> (r: Box<Self>)
        ensures
            r.count() == 1,
            r.handler() == handler,
    {
        Box::new(ChatFrameEventSink { ref_count: 1, on_redirect: handler })
    }

    /// The number of references held.
    pub fn ref_count(&self) -> (r: u32)
        ensures
            r == self.count(),
    {
        self.ref_count
    }

    /// Whether any reference is still held.
    pub fn is_live(&self) -> (r: bool)
        ensures
            r == (self.count() > 0),
    {
        self.ref_count > 0
    }

    /// Takes one more reference, and says how many are then held.
    pub fn add_ref(&mut self) -> (r: u32)
        requires
            old(self).count() < u32::MAX,
        ensures
            final(self).count() == old(self).count() + 1,
            final(self).handler() == old(self).handler(),
            r == final(self).count(),
    {
        self.ref_count = self.ref_count + 1;
        self.ref_count
    }

    /// Gives up one reference, and says how many are left. At zero the
    /// sink is dead.
    pub fn release(&mut self) -> (r: u32)
        requires
            old(self).count() > 0,
        ensures
            final(self).count() == old(self).count() - 1,
            final(self).handler() == old(self).handler(),
            r == final(self).count(),
    {
        self.ref_count = self.ref_count - 1;
        self.ref_count
    }

    /// Answers a request for one of the sink's interfaces. An interface
    /// that the sink has is granted with a reference of its own; any
    /// other is declined and nothing changes.
    pub fn query_interface(&mut self, iid: &Guid) -> (status: i32)
        requires
            sink_grants(iid@) ==> old(self).count() < u32::MAX,
        ensures
            final(self).handler() == old(self).handler(),
            sink_grants(iid@) ==> status == S_OK && final(self).count() == old(self).count() + 1,
            !sink_grants(iid@) ==> status == E_NOINTERFACE && final(self).count() == old(
                self,
            ).count(),
    {
        let value = iid.to_u128();
        if value == IID_ICChatFrameEvents || value == IID_IDispatch || value == IID_IUnknown {
            self.ref_count = self.ref_count + 1;
            S_OK
        } else {
            E_NOINTERFACE
        }
    }

    /// Answers a request for the number of type descriptions: there are
    /// none, and that is no failure.
    pub fn get_type_info_count(&self) -> (r: (i32, u32))
        ensures
            r == (S_OK, 0u32),
    {
        (S_OK, 0)
    }

    /// Answers a request for a type description: success, and no
    /// description.
    pub fn get_type_info(&self, _index: u32, _locale: u32) -> (r: (i32, usize))
        ensures
            r == (S_OK, 0usize),
    {
        (S_OK, 0)
    }

    /// Answers a request to resolve names to identifiers: success, and
    /// nothing resolved.
    pub fn get_ids_of_names(&self, _names: u32, _locale: u32) -> (status: i32)
        ensures
            status == S_OK,
    {
        S_OK
    }

    /// Dispatch by identifier. Where [`redirect_of`] gives a text, the
    /// handler has run on it before this returns. In every other case the
    /// dispatch is dropped: nothing is asked of the handler there, so it
    /// is not called. The status is success either way.
    pub fn invoke(&self, dispid: i32, args: &[Variant]) -> (status: i32)
        requires
            redirect_of(dispid, args@) matches Some(text) ==> self.handler_takes(text),
        ensures
            status == S_OK,
            redirect_of(dispid, args@) matches Some(text) ==> exists|given: String|
                given@ == text && #[trigger] call_ensures(self.handler(), (given,), ()),
    {
        match redirect_target(dispid, args) {
            Some(text) => {
                assert(call_requires(self.handler(), (text,)));
                (self.on_redirect)(text);
            },
            None => {},
        }
        S_OK
    }
}

} // verus!
