//! The component resolver: from a class identifier to a usable handle.
//!
//! A component passes through three states. *Uninstantiated*: nothing is
//! held but the class identifier. *Instantiated*: the component system has
//! constructed an instance, held here as an [`Instance`]. *Negotiated*: the
//! instance has granted the interface asked for, held as a
//! [`BinaryHandle`]. [`create`] takes the first step and [`query`] the
//! second; there is no other way to a handle.
//!
//! As in the accessor protocol, each step has a half that names the call
//! and a half that reads the answer, and a whole that goes through a transport.
use crate::boundary::{
    accepts, answered, Call, CallView, Output, OutputView, Reply, ReplyView,
};
use crate::error::{check_status, succeeded, Error};
use crate::guids::Guid;
use crate::handle::BinaryHandle;
use vstd::prelude::*;

verus! {

/// A constructed component, held through the interface it was created
/// with. It stands for one reference to the object, and its address is
/// never null.
#[derive(Debug)]
pub struct Instance {
    ptr: usize,
}

impl Instance {
    #[verifier::type_invariant]
    spec fn live(self) -> bool {
        self.ptr != 0
    }

    /// The address of the instance.
    pub closed spec fn addr(self) -> usize {
        self.ptr
    }

    /// The address of the instance, for calls that take one.
    pub fn as_ptr(&self) -> (r: usize)
        ensures
            r == self.addr(),
            r != 0,
    {
        proof {
            use_type_invariant(self);
        }
        self.ptr
    }
}

/// A result that holds an instance, with the instance as its address.
pub open spec fn instance_of(r: Result<Instance, Error>) -> Result<usize, Error> {
    match r {
        Ok(instance) => Ok(instance.addr()),
        Err(e) => Err(e),
    }
}

/// The address in a call's out-parameter: the one written, or the null it
/// started as.
pub open spec fn object_written(output: OutputView) -> usize {
    match output {
        OutputView::Object(address) => address,
        _ => 0,
    }
}

/// What the answer to a construction means: the address of the new
/// instance where the call succeeded and left one, and otherwise that the
/// component could not be created.
pub open spec fn created_outcome(reply: ReplyView) -> Result<usize, Error> {
    if succeeded(reply.status) && object_written(reply.output) != 0 {
        Ok(object_written(reply.output))
    } else {
        Err(Error::ComponentCreationFailed)
    }
}

/// What the answer to a query means: a handle on the interface asked for
/// where the call succeeded and left an address, and otherwise that the
/// interface is not supported.
pub open spec fn queried_outcome(
    interface_id: Guid,
    reply: ReplyView,
) -> Result<BinaryHandle, Error> {
    if succeeded(reply.status) && object_written(reply.output) != 0 {
        Ok(BinaryHandle { ptr: object_written(reply.output), iid: interface_id })
    } else {
        Err(Error::InterfaceNotSupported)
    }
}

/// The address that a reply carries, null where it carries none.
fn object_in(reply: &Reply) -> (r: usize)
    ensures
        r == object_written(reply@.output),
{
    match &reply.output {
        Output::Object(address) => *address,
        _ => 0,
    }
}

/// The call that constructs an instance of a class.
pub fn create_call(class_id: Guid) -> (r: Call)
    ensures
        r@ == (CallView::Create { class: class_id }),
{
    Call::Create { class: class_id }
}

/// Reads the answer to a construction. A failed call gives no instance,
/// whatever its status.
pub fn instantiated(reply: &Reply) -> (r: Result<Instance, Error>)
    ensures
        instance_of(r) == created_outcome(reply@),
        !succeeded(reply.status) ==> r is Err && r->Err_0 == Error::ComponentCreationFailed,
{
    let address = object_in(reply);
    match check_status(reply.status) {
        Ok(()) if address != 0 => Ok(Instance { ptr: address }),
        _ => Err(Error::ComponentCreationFailed),
    }
}

/// The call that asks an instance for an interface.
pub fn query_call(instance: &Instance, interface_id: Guid) -> (r: Call)
    ensures
        r@ == (CallView::Query { object: instance.addr(), interface: interface_id }),
{
    Call::Query { object: instance.as_ptr(), interface: interface_id }
}

/// Reads the answer to a query. A failed call gives no handle, whatever
/// its status.
pub fn negotiated(interface_id: Guid, reply: &Reply) -> (r: Result<BinaryHandle, Error>)
    ensures
        r == queried_outcome(interface_id, reply@),
        !succeeded(reply.status) ==> r == Err::<BinaryHandle, Error>(Error::InterfaceNotSupported),
        r is Ok ==> !r->Ok_0.is_null() && r->Ok_0.iid == interface_id,
{
    let address = object_in(reply);
    match check_status(reply.status) {
        Ok(()) if address != 0 => Ok(BinaryHandle::from_raw(address, interface_id)),
        _ => Err(Error::InterfaceNotSupported),
    }
}

/// The call that gives up the reference that an instance stands for.
pub fn release_call(instance: Instance) -> (r: Call)
    ensures
        r@ == (CallView::Release { object: instance.addr() }),
{
    Call::Release { object: instance.as_ptr() }
}

/// `r` is what constructing `class_id` through `transport` gives: the meaning
/// of an answer that the transport gave to exactly that call.
pub open spec fn created_through<F: Fn(&Call) -> Reply>(
    transport: &F,
    class_id: Guid,
    r: Result<usize, Error>,
) -> bool {
    exists|reply: Reply| #[trigger]
        answered(transport, CallView::Create { class: class_id }, reply) && r == created_outcome(
            reply@,
        )
}

/// `r` is what asking the object at `object` for `interface_id` through
/// `transport` gives.
pub open spec fn queried_through<F: Fn(&Call) -> Reply>(
    transport: &F,
    object: usize,
    interface_id: Guid,
    r: Result<BinaryHandle, Error>,
) -> bool {
    exists|reply: Reply| #[trigger]
        answered(transport, CallView::Query { object, interface: interface_id }, reply) && r
            == queried_outcome(interface_id, reply@)
}

/// The transport was handed the release of the object at `object`.
pub open spec fn released_through<F: Fn(&Call) -> Reply>(transport: &F, object: usize) -> bool {
    exists|reply: Reply| #[trigger] answered(transport, CallView::Release { object }, reply)
}

/// Asks the component system for a new instance of a class.
pub fn create<F: Fn(&Call) -> Reply>(class_id: Guid, transport: &F) -> (r: Result<Instance, Error>)
    requires
        accepts(transport, CallView::Create { class: class_id }),
    ensures
        created_through(transport, class_id, instance_of(r)),
{
    let call = create_call(class_id);
    let reply = transport(&call);
    assert(answered(transport, call@, reply));
    instantiated(&reply)
}

/// Asks an instance for an interface, and gives a handle on it.
pub fn query<F: Fn(&Call) -> Reply>(
    instance: &Instance,
    interface_id: Guid,
    transport: &F,
) -> (r: Result<BinaryHandle, Error>)
    requires
        accepts(transport, CallView::Query { object: instance.addr(), interface: interface_id }),
    ensures
        queried_through(transport, instance.addr(), interface_id, r),
        r is Ok ==> !r->Ok_0.is_null() && r->Ok_0.iid == interface_id,
{
    let call = query_call(instance, interface_id);
    let reply = transport(&call);
    assert(answered(transport, call@, reply));
    negotiated(interface_id, &reply)
}

/// Gives up an instance.
pub fn release<F: Fn(&Call) -> Reply>(instance: Instance, transport: &F)
    requires
        accepts(transport, CallView::Release { object: instance.addr() }),
    ensures
        released_through(transport, instance.addr()),
{
    let call = release_call(instance);
    let reply = transport(&call);
    assert(answered(transport, call@, reply));
}

/// The transport may be handed every call that resolving may come to: the
/// construction of the class and, on whatever instance that gives, the
/// query for the interface and the release.
pub open spec fn accepts_resolution<F: Fn(&Call) -> Reply>(
    transport: &F,
    class_id: Guid,
    interface_id: Guid,
) -> bool {
    &&& accepts(transport, CallView::Create { class: class_id })
    &&& forall|object: usize|
        object != 0 ==> #[trigger] accepts(
            transport,
            CallView::Query { object, interface: interface_id },
        ) && accepts(transport, CallView::Release { object })
}

/// `r` is what both steps through `transport` give: the refusal of the
/// construction, or the result of the query on the instance constructed,
/// which is given up afterwards whether it granted the interface or not.
pub open spec fn resolved_through<F: Fn(&Call) -> Reply>(
    transport: &F,
    class_id: Guid,
    interface_id: Guid,
    r: Result<BinaryHandle, Error>,
) -> bool {
    exists|created: Result<usize, Error>| #[trigger]
        created_through(transport, class_id, created) && match created {
            Err(e) => r == Err::<BinaryHandle, Error>(e),
            Ok(object) => queried_through(transport, object, interface_id, r) && released_through(
                transport,
                object,
            ),
        }
}

/// Takes both steps: constructs an instance of `class_id`, asks it for
/// `interface_id`, and gives the instance up again. The handle that comes
/// back is on the interface asked for and is not empty.
pub fn resolve<F: Fn(&Call) -> Reply>(
    class_id: Guid,
    interface_id: Guid,
    transport: &F,
) -> (r: Result<BinaryHandle, Error>)
    requires
        accepts_resolution(transport, class_id, interface_id),
    ensures
        resolved_through(transport, class_id, interface_id, r),
        r is Ok ==> !r->Ok_0.is_null() && r->Ok_0.iid == interface_id,
{
    let created = create(class_id, transport);
    match created {
        Err(e) => Err(e),
        Ok(instance) => {
            let r = query(&instance, interface_id, transport);
            release(instance, transport);
            r
        },
    }
}

} // verus!
