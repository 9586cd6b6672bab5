//! The settings component: the chat frame's sibling, with a few
//! properties of its own. Each follows the accessor protocol.
use crate::accessor::{
    get_color, get_request, get_text, put_color, put_request, put_text, put_through,
    text_payload, text_through, word_payload, word_through,
};
use crate::boundary::{accepts_request, Call, CallView, PayloadView, Reply, Shape};
use crate::error::Error;
use crate::guids::{Guid, CLSID_ChatSettings, IID_IChatSettings};
use crate::handle::BinaryHandle;
use crate::layout;
use crate::resolver::{accepts_resolution, resolve, resolved_through};
use vstd::prelude::*;

verus! {

/// The properties of the settings component, in the order in which its
/// interface declares them.
#[derive(Clone, Copy, Debug, PartialEq, Eq, Structural, Hash)]
pub enum SettingsProperty {
    BackColor,
    ForeColor,
    RedirectUrl,
    ResDll,
}

impl SettingsProperty {
    /// How many properties the interface declares.
    pub const COUNT: u32 = 4;

    /// The property's place in the declared order, from zero.
    pub open spec fn position(self) -> u32 {
        match self {
            SettingsProperty::BackColor => 0,
            SettingsProperty::ForeColor => 1,
            SettingsProperty::RedirectUrl => 2,
            SettingsProperty::ResDll => 3,
        }
    }

    /// The shape of the property's value.
    pub open spec fn shape_of(self) -> Shape {
        match self {
            SettingsProperty::BackColor
            | SettingsProperty::ForeColor => Shape::Color,
            _ => Shape::Text,
        }
    }

    /// The table entry of the property's getter.
    pub open spec fn getter_slot(self) -> u32 {
        layout::getter_slot(self.position()) as u32
    }

    /// The table entry of the property's setter.
    pub open spec fn setter_slot(self) -> u32 {
        layout::setter_slot(self.position()) as u32
    }

    /// The property's place in the declared order, from zero.
    pub fn index(self) -> (r: u32)
        ensures
            r == self.position(),
            r < Self::COUNT,
    {
        match self {
            SettingsProperty::BackColor => 0,
            SettingsProperty::ForeColor => 1,
            SettingsProperty::RedirectUrl => 2,
            SettingsProperty::ResDll => 3,
        }
    }

    /// The shape of the property's value.
    pub fn shape(self) -> (r: Shape)
        ensures
            r == self.shape_of(),
    {
        match self {
            SettingsProperty::BackColor
            | SettingsProperty::ForeColor => Shape::Color,
            _ => Shape::Text,
        }
    }

    /// The table entry of the property's getter.
    pub fn getter(self) -> (r: u32)
        ensures
            r == self.getter_slot(),
            r == layout::getter_slot(self.position()),
    {
        layout::getter(self.index())
    }

    /// The table entry of the property's setter.
    pub fn setter(self) -> (r: u32)
        ensures
            r == self.setter_slot(),
            r == layout::setter_slot(self.position()),
    {
        layout::setter(self.index())
    }

    /// Every property has a place of its own among those declared, and so
    /// entries of its own: no two properties share a getter or a setter.
    pub proof fn law_places_apart(p: SettingsProperty, q: SettingsProperty)
        ensures
            p.position() < Self::COUNT,
            p != q ==> p.position() != q.position(),
            p != q ==> p.getter_slot() != q.getter_slot() && p.setter_slot() != q.setter_slot(),
            p.getter_slot() != q.setter_slot(),
    {
    }
}

/// A handle on the settings component's property interface.
#[derive(Clone, Debug)]
pub struct ChatSettings {
    ptr: usize,
}

impl ChatSettings {
    /// The address of the component.
    pub closed spec fn addr(&self) -> usize {
        self.ptr
    }

    /// The handle that the component is reached through: its address, on
    /// the property interface.
    pub open spec fn handle_of(&self) -> BinaryHandle {
        BinaryHandle { ptr: self.addr(), iid: Guid::cut(IID_IChatSettings) }
    }

    /// The call that reads a property, or why there is none.
    pub open spec fn reads(&self, property: SettingsProperty) -> Result<CallView, Error> {
        get_request(self.handle_of(), property.getter_slot(), property.shape_of())
    }

    /// The call that writes a property, or why there is none.
    pub open spec fn writes(
        &self,
        property: SettingsProperty,
        value: Option<PayloadView>,
    ) -> Result<CallView, Error> {
        put_request(self.handle_of(), property.setter_slot(), value)
    }

    /// A result that holds a component, with the component as its handle.
    pub open spec fn handle_in(r: Result<ChatSettings, Error>) -> Result<BinaryHandle, Error> {
        match r {
            Ok(component) => Ok(component.handle_of()),
            Err(e) => Err(e),
        }
    }

    /// Wraps an address. Nothing is checked: the caller vouches that it is
    /// null or that of a live object with this interface.
    pub fn from_raw(ptr: usize) -> (r: ChatSettings)
        ensures
            r.addr() == ptr,
    {
        ChatSettings { ptr }
    }

    /// The address of the component.
    pub fn as_ptr(&self) -> (r: usize)
        ensures
            r == self.addr(),
    {
        self.ptr
    }

    /// The handle that the component is reached through.
    pub fn handle(&self) -> (r: BinaryHandle)
        ensures
            r == self.handle_of(),
    {
        BinaryHandle::from_raw(self.ptr, Guid::from_u128(IID_IChatSettings))
    }

    /// Constructs the component and negotiates its property interface.
    pub fn create<F: Fn(&Call) -> Reply>(transport: &F) -> (r: Result<ChatSettings, Error>)
        requires
            accepts_resolution(
                transport,
                Guid::cut(CLSID_ChatSettings),
                Guid::cut(IID_IChatSettings),
            ),
        ensures
            resolved_through(
                transport,
                Guid::cut(CLSID_ChatSettings),
                Guid::cut(IID_IChatSettings),
                Self::handle_in(r),
            ),
            r is Ok ==> r->Ok_0.addr() != 0,
    {
        let class_id = Guid::from_u128(CLSID_ChatSettings);
        let interface_id = Guid::from_u128(IID_IChatSettings);
        match resolve(class_id, interface_id, transport) {
            Ok(handle) => Ok(ChatSettings { ptr: handle.as_ptr() }),
            Err(e) => Err(e),
        }
    }

    /// Reads the background colour.
    pub fn get_back_color<F: Fn(&Call) -> Reply>(&self, transport: &F) -> (r: Result<u32, Error>)
        requires
            accepts_request(transport, self.reads(SettingsProperty::BackColor)),
        ensures
            word_through(transport, self.reads(SettingsProperty::BackColor), r),
    {
        get_color(&self.handle(), SettingsProperty::BackColor.getter(), transport)
    }

    /// Writes the background colour.
    pub fn set_back_color<F: Fn(&Call) -> Reply>(
        &self,
        val: Option<u32>,
        transport: &F,
    ) -> (r: Result<(), Error>)
        requires
            accepts_request(transport, self.writes(SettingsProperty::BackColor, word_payload(val))),
        ensures
            put_through(transport, self.writes(SettingsProperty::BackColor, word_payload(val)), r),
    {
        put_color(&self.handle(), SettingsProperty::BackColor.setter(), val, transport)
    }

    /// Reads the foreground colour.
    pub fn get_fore_color<F: Fn(&Call) -> Reply>(&self, transport: &F) -> (r: Result<u32, Error>)
        requires
            accepts_request(transport, self.reads(SettingsProperty::ForeColor)),
        ensures
            word_through(transport, self.reads(SettingsProperty::ForeColor), r),
    {
        get_color(&self.handle(), SettingsProperty::ForeColor.getter(), transport)
    }

    /// Writes the foreground colour.
    pub fn set_fore_color<F: Fn(&Call) -> Reply>(
        &self,
        val: Option<u32>,
        transport: &F,
    ) -> (r: Result<(), Error>)
        requires
            accepts_request(transport, self.writes(SettingsProperty::ForeColor, word_payload(val))),
        ensures
            put_through(transport, self.writes(SettingsProperty::ForeColor, word_payload(val)), r),
    {
        put_color(&self.handle(), SettingsProperty::ForeColor.setter(), val, transport)
    }

    /// Reads the redirect address.
    pub fn get_redirect_url<F: Fn(&Call) -> Reply>(
        &self,
        transport: &F,
    ) -> (r: Result<String, Error>)
        requires
            accepts_request(transport, self.reads(SettingsProperty::RedirectUrl)),
        ensures
            text_through(transport, self.reads(SettingsProperty::RedirectUrl), r),
    {
        get_text(&self.handle(), SettingsProperty::RedirectUrl.getter(), transport)
    }

    /// Writes the redirect address.
    pub fn set_redirect_url<F: Fn(&Call) -> Reply>(
        &self,
        val: Option<&str>,
        transport: &F,
    ) -> (r: Result<(), Error>)
        requires
            accepts_request(
                transport,
                self.writes(SettingsProperty::RedirectUrl, text_payload(val)),
            ),
        ensures
            put_through(
                transport,
                self.writes(SettingsProperty::RedirectUrl, text_payload(val)),
                r,
            ),
    {
        put_text(&self.handle(), SettingsProperty::RedirectUrl.setter(), val, transport)
    }

    /// Reads the resource library.
    pub fn get_res_dll<F: Fn(&Call) -> Reply>(&self, transport: &F) -> (r: Result<String, Error>)
        requires
            accepts_request(transport, self.reads(SettingsProperty::ResDll)),
        ensures
            text_through(transport, self.reads(SettingsProperty::ResDll), r),
    {
        get_text(&self.handle(), SettingsProperty::ResDll.getter(), transport)
    }

    /// Writes the resource library.
    pub fn set_res_dll<F: Fn(&Call) -> Reply>(
        &self,
        val: Option<&str>,
        transport: &F,
    ) -> (r: Result<(), Error>)
        requires
            accepts_request(transport, self.writes(SettingsProperty::ResDll, text_payload(val))),
        ensures
            put_through(transport, self.writes(SettingsProperty::ResDll, text_payload(val)), r),
    {
        put_text(&self.handle(), SettingsProperty::ResDll.setter(), val, transport)
    }
}

} // verus!
