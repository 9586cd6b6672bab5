//! The chat frame: the control itself, with its colours, its modes and
//! the texts that place it in a room.
//!
//! Each property has a getter and a setter. All of them follow the accessor
//! protocol; they differ in the table entries they reach and in the shape
//! of the value.
use crate::accessor::{
    get_color, get_flags, get_request, get_scalar, get_text, put_color, put_flags, put_request,
    put_scalar, put_text, put_through, scalar_payload, scalar_through, text_payload,
    text_through, word_payload, word_through,
};
use crate::boundary::{accepts_request, Call, CallView, PayloadView, Reply, Shape};
use crate::error::Error;
use crate::guids::{Guid, CLSID_MSNChatFrame, IID_IChatFrame};
use crate::handle::BinaryHandle;
use crate::layout;
use crate::resolver::{accepts_resolution, resolve, resolved_through};
use vstd::prelude::*;

verus! {

/// The properties of the chat frame, in the order in which its
/// interface declares them.
#[derive(Clone, Copy, Debug, PartialEq, Eq, Structural, Hash)]
pub enum FrameProperty {
    BackColor,
    BackHighlightColor,
    ButtonFrameColor,
    TopBackHighlightColor,
    InputBorderColor,
    ButtonTextColor,
    ButtonBackColor,
    ChatMode,
    Feature,
    RoomName,
    HexRoomName,
    NickName,
    Server,
    UrlBack,
    Category,
    Topic,
    WelcomeMsg,
    BaseUrl,
    CreateRoom,
    ChatHome,
    Locale,
    ResDll,
    PassportTicket,
    PassportProfile,
    MessageOfTheDay,
    ChannelLanguage,
    InvitationCode,
    NicknameToInvite,
    MsnregCookie,
    CreationModes,
    MsnProfile,
    Market,
    WhisperContent,
    UserRole,
    AuditMessage,
    SubscriberInfo,
    UpsellUrl,
}

impl FrameProperty {
    /// How many properties the interface declares.
    pub const COUNT: u32 = 37;

    /// The property's place in the declared order, from zero.
    pub open spec fn position(self) -> u32 {
        match self {
            FrameProperty::BackColor => 0,
            FrameProperty::BackHighlightColor => 1,
            FrameProperty::ButtonFrameColor => 2,
            FrameProperty::TopBackHighlightColor => 3,
            FrameProperty::InputBorderColor => 4,
            FrameProperty::ButtonTextColor => 5,
            FrameProperty::ButtonBackColor => 6,
            FrameProperty::ChatMode => 7,
            FrameProperty::Feature => 8,
            FrameProperty::RoomName => 9,
            FrameProperty::HexRoomName => 10,
            FrameProperty::NickName => 11,
            FrameProperty::Server => 12,
            FrameProperty::UrlBack => 13,
            FrameProperty::Category => 14,
            FrameProperty::Topic => 15,
            FrameProperty::WelcomeMsg => 16,
            FrameProperty::BaseUrl => 17,
            FrameProperty::CreateRoom => 18,
            FrameProperty::ChatHome => 19,
            FrameProperty::Locale => 20,
            FrameProperty::ResDll => 21,
            FrameProperty::PassportTicket => 22,
            FrameProperty::PassportProfile => 23,
            FrameProperty::MessageOfTheDay => 24,
            FrameProperty::ChannelLanguage => 25,
            FrameProperty::InvitationCode => 26,
            FrameProperty::NicknameToInvite => 27,
            FrameProperty::MsnregCookie => 28,
            FrameProperty::CreationModes => 29,
            FrameProperty::MsnProfile => 30,
            FrameProperty::Market => 31,
            FrameProperty::WhisperContent => 32,
            FrameProperty::UserRole => 33,
            FrameProperty::AuditMessage => 34,
            FrameProperty::SubscriberInfo => 35,
            FrameProperty::UpsellUrl => 36,
        }
    }

    /// The shape of the property's value.
    pub open spec fn shape_of(self) -> Shape {
        match self {
            FrameProperty::BackColor
            | FrameProperty::BackHighlightColor
            | FrameProperty::ButtonFrameColor
            | FrameProperty::TopBackHighlightColor
            | FrameProperty::InputBorderColor
            | FrameProperty::ButtonTextColor
            | FrameProperty::ButtonBackColor => Shape::Color,
            FrameProperty::ChatMode => Shape::Scalar,
            FrameProperty::Feature => Shape::Flags,
            _ => Shape::Text,
        }
    }

    /// The table entry of the property's getter.
    pub open spec fn getter_slot(self) -> u32 {
        layout::getter_slot(self.position()) as u32
    }

    /// The table entry of the property's setter.
    pub open spec fn setter_slot(self) -> u32 {
        layout::setter_slot(self.position()) as u32
    }

    /// The property's place in the declared order, from zero.
    pub fn index(self) -> (r: u32)
        ensures
            r == self.position(),
            r < Self::COUNT,
    {
        match self {
            FrameProperty::BackColor => 0,
            FrameProperty::BackHighlightColor => 1,
            FrameProperty::ButtonFrameColor => 2,
            FrameProperty::TopBackHighlightColor => 3,
            FrameProperty::InputBorderColor => 4,
            FrameProperty::ButtonTextColor => 5,
            FrameProperty::ButtonBackColor => 6,
            FrameProperty::ChatMode => 7,
            FrameProperty::Feature => 8,
            FrameProperty::RoomName => 9,
            FrameProperty::HexRoomName => 10,
            FrameProperty::NickName => 11,
            FrameProperty::Server => 12,
            FrameProperty::UrlBack => 13,
            FrameProperty::Category => 14,
            FrameProperty::Topic => 15,
            FrameProperty::WelcomeMsg => 16,
            FrameProperty::BaseUrl => 17,
            FrameProperty::CreateRoom => 18,
            FrameProperty::ChatHome => 19,
            FrameProperty::Locale => 20,
            FrameProperty::ResDll => 21,
            FrameProperty::PassportTicket => 22,
            FrameProperty::PassportProfile => 23,
            FrameProperty::MessageOfTheDay => 24,
            FrameProperty::ChannelLanguage => 25,
            FrameProperty::InvitationCode => 26,
            FrameProperty::NicknameToInvite => 27,
            FrameProperty::MsnregCookie => 28,
            FrameProperty::CreationModes => 29,
            FrameProperty::MsnProfile => 30,
            FrameProperty::Market => 31,
            FrameProperty::WhisperContent => 32,
            FrameProperty::UserRole => 33,
            FrameProperty::AuditMessage => 34,
            FrameProperty::SubscriberInfo => 35,
            FrameProperty::UpsellUrl => 36,
        }
    }

    /// The shape of the property's value.
    pub fn shape(self) -> (r: Shape)
        ensures
            r == self.shape_of(),
    {
        match self {
            FrameProperty::BackColor
            | FrameProperty::BackHighlightColor
            | FrameProperty::ButtonFrameColor
            | FrameProperty::TopBackHighlightColor
            | FrameProperty::InputBorderColor
            | FrameProperty::ButtonTextColor
            | FrameProperty::ButtonBackColor => Shape::Color,
            FrameProperty::ChatMode => Shape::Scalar,
            FrameProperty::Feature => Shape::Flags,
            _ => Shape::Text,
        }
    }

    /// The table entry of the property's getter.
    pub fn getter(self) -> (r: u32)
        ensures
            r == self.getter_slot(),
            r == layout::getter_slot(self.position()),
    {
        layout::getter(self.index())
    }

    /// The table entry of the property's setter.
    pub fn setter(self) -> (r: u32)
        ensures
            r == self.setter_slot(),
            r == layout::setter_slot(self.position()),
    {
        layout::setter(self.index())
    }

    /// Every property has a place of its own among those declared, and so
    /// entries of its own: no two properties share a getter or a setter.
    pub proof fn law_places_apart(p: FrameProperty, q: FrameProperty)
        ensures
            p.position() < Self::COUNT,
            p != q ==> p.position() != q.position(),
            p != q ==> p.getter_slot() != q.getter_slot() && p.setter_slot() != q.setter_slot(),
            p.getter_slot() != q.setter_slot(),
    {
    }
}

/// A handle on the chat frame's property interface.
#[derive(Clone, Debug)]
pub struct ChatFrame {
    ptr: usize,
}

impl ChatFrame {
    /// The address of the component.
    pub closed spec fn addr(&self) -> usize {
        self.ptr
    }

    /// The handle that the component is reached through: its address, on
    /// the property interface.
    pub open spec fn handle_of(&self) -> BinaryHandle {
        BinaryHandle { ptr: self.addr(), iid: Guid::cut(IID_IChatFrame) }
    }

    /// The call that reads a property, or why there is none.
    pub open spec fn reads(&self, property: FrameProperty) -> Result<CallView, Error> {
        get_request(self.handle_of(), property.getter_slot(), property.shape_of())
    }

    /// The call that writes a property, or why there is none.
    pub open spec fn writes(
        &self,
        property: FrameProperty,
        value: Option<PayloadView>,
    ) -> Result<CallView, Error> {
        put_request(self.handle_of(), property.setter_slot(), value)
    }

    /// A result that holds a component, with the component as its handle.
    pub open spec fn handle_in(r: Result<ChatFrame, Error>) -> Result<BinaryHandle, Error> {
        match r {
            Ok(component) => Ok(component.handle_of()),
            Err(e) => Err(e),
        }
    }

    /// Wraps an address. Nothing is checked: the caller vouches that it is
    /// null or that of a live object with this interface.
    pub fn from_raw(ptr: usize) -> (r: ChatFrame)
        ensures
            r.addr() == ptr,
    {
        ChatFrame { ptr }
    }

    /// The address of the component.
    pub fn as_ptr(&self) -> (r: usize)
        ensures
            r == self.addr(),
    {
        self.ptr
    }

    /// The handle that the component is reached through.
    pub fn handle(&self) -> (r: BinaryHandle)
        ensures
            r == self.handle_of(),
    {
        BinaryHandle::from_raw(self.ptr, Guid::from_u128(IID_IChatFrame))
    }

    /// Constructs the component and negotiates its property interface.
    pub fn create<F: Fn(&Call) -> Reply>(transport: &F) -> (r: Result<ChatFrame, Error>)
        requires
            accepts_resolution(
                transport,
                Guid::cut(CLSID_MSNChatFrame),
                Guid::cut(IID_IChatFrame),
            ),
        ensures
            resolved_through(
                transport,
                Guid::cut(CLSID_MSNChatFrame),
                Guid::cut(IID_IChatFrame),
                Self::handle_in(r),
            ),
            r is Ok ==> r->Ok_0.addr() != 0,
    {
        let class_id = Guid::from_u128(CLSID_MSNChatFrame);
        let interface_id = Guid::from_u128(IID_IChatFrame);
        match resolve(class_id, interface_id, transport) {
            Ok(handle) => Ok(ChatFrame { ptr: handle.as_ptr() }),
            Err(e) => Err(e),
        }
    }

    /// Reads the background colour.
    pub fn get_back_color<F: Fn(&Call) -> Reply>(&self, transport: &F) -> (r: Result<u32, Error>)
        requires
            accepts_request(transport, self.reads(FrameProperty::BackColor)),
        ensures
            word_through(transport, self.reads(FrameProperty::BackColor), r),
    {
        get_color(&self.handle(), FrameProperty::BackColor.getter(), transport)
    }

    /// Writes the background colour.
    pub fn set_back_color<F: Fn(&Call) -> Reply>(
        &self,
        val: Option<u32>,
        transport: &F,
    ) -> (r: Result<(), Error>)
        requires
            accepts_request(transport, self.writes(FrameProperty::BackColor, word_payload(val))),
        ensures
            put_through(transport, self.writes(FrameProperty::BackColor, word_payload(val)), r),
    {
        put_color(&self.handle(), FrameProperty::BackColor.setter(), val, transport)
    }

    /// Reads the background highlight colour.
    pub fn get_back_highlight_color<F: Fn(&Call) -> Reply>(
        &self,
        transport: &F,
    ) -> (r: Result<u32, Error>)
        requires
            accepts_request(transport, self.reads(FrameProperty::BackHighlightColor)),
        ensures
            word_through(transport, self.reads(FrameProperty::BackHighlightColor), r),
    {
        get_color(&self.handle(), FrameProperty::BackHighlightColor.getter(), transport)
    }

    /// Writes the background highlight colour.
    pub fn set_back_highlight_color<F: Fn(&Call) -> Reply>(
        &self,
        val: Option<u32>,
        transport: &F,
    ) -> (r: Result<(), Error>)
        requires
            accepts_request(
                transport,
                self.writes(FrameProperty::BackHighlightColor, word_payload(val)),
            ),
        ensures
            put_through(
                transport,
                self.writes(FrameProperty::BackHighlightColor, word_payload(val)),
                r,
            ),
    {
        put_color(&self.handle(), FrameProperty::BackHighlightColor.setter(), val, transport)
    }

    /// Reads the colour of button frames.
    pub fn get_button_frame_color<F: Fn(&Call) -> Reply>(
        &self,
        transport: &F,
    ) -> (r: Result<u32, Error>)
        requires
            accepts_request(transport, self.reads(FrameProperty::ButtonFrameColor)),
        ensures
            word_through(transport, self.reads(FrameProperty::ButtonFrameColor), r),
    {
        get_color(&self.handle(), FrameProperty::ButtonFrameColor.getter(), transport)
    }

    /// Writes the colour of button frames.
    pub fn set_button_frame_color<F: Fn(&Call) -> Reply>(
        &self,
        val: Option<u32>,
        transport: &F,
    ) -> (r: Result<(), Error>)
        requires
            accepts_request(
                transport,
                self.writes(FrameProperty::ButtonFrameColor, word_payload(val)),
            ),
        ensures
            put_through(
                transport,
                self.writes(FrameProperty::ButtonFrameColor, word_payload(val)),
                r,
            ),
    {
        put_color(&self.handle(), FrameProperty::ButtonFrameColor.setter(), val, transport)
    }

    /// Reads the highlight colour of the top background.
    pub fn get_top_back_highlight_color<F: Fn(&Call) -> Reply>(
        &self,
        transport: &F,
    ) -> (r: Result<u32, Error>)
        requires
            accepts_request(transport, self.reads(FrameProperty::TopBackHighlightColor)),
        ensures
            word_through(transport, self.reads(FrameProperty::TopBackHighlightColor), r),
    {
        get_color(&self.handle(), FrameProperty::TopBackHighlightColor.getter(), transport)
    }

    /// Writes the highlight colour of the top background.
    pub fn set_top_back_highlight_color<F: Fn(&Call) -> Reply>(
        &self,
        val: Option<u32>,
        transport: &F,
    ) -> (r: Result<(), Error>)
        requires
            accepts_request(
                transport,
                self.writes(FrameProperty::TopBackHighlightColor, word_payload(val)),
            ),
        ensures
            put_through(
                transport,
                self.writes(FrameProperty::TopBackHighlightColor, word_payload(val)),
                r,
            ),
    {
        put_color(&self.handle(), FrameProperty::TopBackHighlightColor.setter(), val, transport)
    }

    /// Reads the colour of the input border.
    pub fn get_input_border_color<F: Fn(&Call) -> Reply>(
        &self,
        transport: &F,
    ) -> (r: Result<u32, Error>)
        requires
            accepts_request(transport, self.reads(FrameProperty::InputBorderColor)),
        ensures
            word_through(transport, self.reads(FrameProperty::InputBorderColor), r),
    {
        get_color(&self.handle(), FrameProperty::InputBorderColor.getter(), transport)
    }

    /// Writes the colour of the input border.
    pub fn set_input_border_color<F: Fn(&Call) -> Reply>(
        &self,
        val: Option<u32>,
        transport: &F,
    ) -> (r: Result<(), Error>)
        requires
            accepts_request(
                transport,
                self.writes(FrameProperty::InputBorderColor, word_payload(val)),
            ),
        ensures
            put_through(
                transport,
                self.writes(FrameProperty::InputBorderColor, word_payload(val)),
                r,
            ),
    {
        put_color(&self.handle(), FrameProperty::InputBorderColor.setter(), val, transport)
    }

    /// Reads the colour of button text.
    pub fn get_button_text_color<F: Fn(&Call) -> Reply>(
        &self,
        transport: &F,
    ) -> (r: Result<u32, Error>)
        requires
            accepts_request(transport, self.reads(FrameProperty::ButtonTextColor)),
        ensures
            word_through(transport, self.reads(FrameProperty::ButtonTextColor), r),
    {
        get_color(&self.handle(), FrameProperty::ButtonTextColor.getter(), transport)
    }

    /// Writes the colour of button text.
    pub fn set_button_text_color<F: Fn(&Call) -> Reply>(
        &self,
        val: Option<u32>,
        transport: &F,
    ) -> (r: Result<(), Error>)
        requires
            accepts_request(
                transport,
                self.writes(FrameProperty::ButtonTextColor, word_payload(val)),
            ),
        ensures
            put_through(
                transport,
                self.writes(FrameProperty::ButtonTextColor, word_payload(val)),
                r,
            ),
    {
        put_color(&self.handle(), FrameProperty::ButtonTextColor.setter(), val, transport)
    }

    /// Reads the background colour of buttons.
    pub fn get_button_back_color<F: Fn(&Call) -> Reply>(
        &self,
        transport: &F,
    ) -> (r: Result<u32, Error>)
        requires
            accepts_request(transport, self.reads(FrameProperty::ButtonBackColor)),
        ensures
            word_through(transport, self.reads(FrameProperty::ButtonBackColor), r),
    {
        get_color(&self.handle(), FrameProperty::ButtonBackColor.getter(), transport)
    }

    /// Writes the background colour of buttons.
    pub fn set_button_back_color<F: Fn(&Call) -> Reply>(
        &self,
        val: Option<u32>,
        transport: &F,
    ) -> (r: Result<(), Error>)
        requires
            accepts_request(
                transport,
                self.writes(FrameProperty::ButtonBackColor, word_payload(val)),
            ),
        ensures
            put_through(
                transport,
                self.writes(FrameProperty::ButtonBackColor, word_payload(val)),
                r,
            ),
    {
        put_color(&self.handle(), FrameProperty::ButtonBackColor.setter(), val, transport)
    }

    /// Reads the chat mode.
    pub fn get_chat_mode<F: Fn(&Call) -> Reply>(&self, transport: &F) -> (r: Result<i32, Error>)
        requires
            accepts_request(transport, self.reads(FrameProperty::ChatMode)),
        ensures
            scalar_through(transport, self.reads(FrameProperty::ChatMode), r),
    {
        get_scalar(&self.handle(), FrameProperty::ChatMode.getter(), transport)
    }

    /// Writes the chat mode.
    pub fn set_chat_mode<F: Fn(&Call) -> Reply>(
        &self,
        val: Option<i32>,
        transport: &F,
    ) -> (r: Result<(), Error>)
        requires
            accepts_request(transport, self.writes(FrameProperty::ChatMode, scalar_payload(val))),
        ensures
            put_through(transport, self.writes(FrameProperty::ChatMode, scalar_payload(val)), r),
    {
        put_scalar(&self.handle(), FrameProperty::ChatMode.setter(), val, transport)
    }

    /// Reads the feature flags.
    pub fn get_feature<F: Fn(&Call) -> Reply>(&self, transport: &F) -> (r: Result<u32, Error>)
        requires
            accepts_request(transport, self.reads(FrameProperty::Feature)),
        ensures
            word_through(transport, self.reads(FrameProperty::Feature), r),
    {
        get_flags(&self.handle(), FrameProperty::Feature.getter(), transport)
    }

    /// Writes the feature flags.
    pub fn set_feature<F: Fn(&Call) -> Reply>(
        &self,
        val: Option<u32>,
        transport: &F,
    ) -> (r: Result<(), Error>)
        requires
            accepts_request(transport, self.writes(FrameProperty::Feature, word_payload(val))),
        ensures
            put_through(transport, self.writes(FrameProperty::Feature, word_payload(val)), r),
    {
        put_flags(&self.handle(), FrameProperty::Feature.setter(), val, transport)
    }

    /// Reads the room name.
    pub fn get_room_name<F: Fn(&Call) -> Reply>(&self, transport: &F) -> (r: Result<String, Error>)
        requires
            accepts_request(transport, self.reads(FrameProperty::RoomName)),
        ensures
            text_through(transport, self.reads(FrameProperty::RoomName), r),
    {
        get_text(&self.handle(), FrameProperty::RoomName.getter(), transport)
    }

    /// Writes the room name.
    pub fn set_room_name<F: Fn(&Call) -> Reply>(
        &self,
        val: Option<&str>,
        transport: &F,
    ) -> (r: Result<(), Error>)
        requires
            accepts_request(transport, self.writes(FrameProperty::RoomName, text_payload(val))),
        ensures
            put_through(transport, self.writes(FrameProperty::RoomName, text_payload(val)), r),
    {
        put_text(&self.handle(), FrameProperty::RoomName.setter(), val, transport)
    }

    /// Reads the room name in hexadecimal form.
    pub fn get_hex_room_name<F: Fn(&Call) -> Reply>(
        &self,
        transport: &F,
    ) -> (r: Result<String, Error>)
        requires
            accepts_request(transport, self.reads(FrameProperty::HexRoomName)),
        ensures
            text_through(transport, self.reads(FrameProperty::HexRoomName), r),
    {
        get_text(&self.handle(), FrameProperty::HexRoomName.getter(), transport)
    }

    /// Writes the room name in hexadecimal form.
    pub fn set_hex_room_name<F: Fn(&Call) -> Reply>(
        &self,
        val: Option<&str>,
        transport: &F,
    ) -> (r: Result<(), Error>)
        requires
            accepts_request(transport, self.writes(FrameProperty::HexRoomName, text_payload(val))),
        ensures
            put_through(transport, self.writes(FrameProperty::HexRoomName, text_payload(val)), r),
    {
        put_text(&self.handle(), FrameProperty::HexRoomName.setter(), val, transport)
    }

    /// Reads the nickname.
    pub fn get_nick_name<F: Fn(&Call) -> Reply>(&self, transport: &F) -> (r: Result<String, Error>)
        requires
            accepts_request(transport, self.reads(FrameProperty::NickName)),
        ensures
            text_through(transport, self.reads(FrameProperty::NickName), r),
    {
        get_text(&self.handle(), FrameProperty::NickName.getter(), transport)
    }

    /// Writes the nickname.
    pub fn set_nick_name<F: Fn(&Call) -> Reply>(
        &self,
        val: Option<&str>,
        transport: &F,
    ) -> (r: Result<(), Error>)
        requires
            accepts_request(transport, self.writes(FrameProperty::NickName, text_payload(val))),
        ensures
            put_through(transport, self.writes(FrameProperty::NickName, text_payload(val)), r),
    {
        put_text(&self.handle(), FrameProperty::NickName.setter(), val, transport)
    }

    /// Reads the server.
    pub fn get_server<F: Fn(&Call) -> Reply>(&self, transport: &F) -> (r: Result<String, Error>)
        requires
            accepts_request(transport, self.reads(FrameProperty::Server)),
        ensures
            text_through(transport, self.reads(FrameProperty::Server), r),
    {
        get_text(&self.handle(), FrameProperty::Server.getter(), transport)
    }

    /// Writes the server.
    pub fn set_server<F: Fn(&Call) -> Reply>(
        &self,
        val: Option<&str>,
        transport: &F,
    ) -> (r: Result<(), Error>)
        requires
            accepts_request(transport, self.writes(FrameProperty::Server, text_payload(val))),
        ensures
            put_through(transport, self.writes(FrameProperty::Server, text_payload(val)), r),
    {
        put_text(&self.handle(), FrameProperty::Server.setter(), val, transport)
    }

    /// Reads the address to go back to.
    pub fn get_url_back<F: Fn(&Call) -> Reply>(&self, transport: &F) -> (r: Result<String, Error>)
        requires
            accepts_request(transport, self.reads(FrameProperty::UrlBack)),
        ensures
            text_through(transport, self.reads(FrameProperty::UrlBack), r),
    {
        get_text(&self.handle(), FrameProperty::UrlBack.getter(), transport)
    }

    /// Writes the address to go back to.
    pub fn set_url_back<F: Fn(&Call) -> Reply>(
        &self,
        val: Option<&str>,
        transport: &F,
    ) -> (r: Result<(), Error>)
        requires
            accepts_request(transport, self.writes(FrameProperty::UrlBack, text_payload(val))),
        ensures
            put_through(transport, self.writes(FrameProperty::UrlBack, text_payload(val)), r),
    {
        put_text(&self.handle(), FrameProperty::UrlBack.setter(), val, transport)
    }

    /// Reads the category.
    pub fn get_category<F: Fn(&Call) -> Reply>(&self, transport: &F) -> (r: Result<String, Error>)
        requires
            accepts_request(transport, self.reads(FrameProperty::Category)),
        ensures
            text_through(transport, self.reads(FrameProperty::Category), r),
    {
        get_text(&self.handle(), FrameProperty::Category.getter(), transport)
    }

    /// Writes the category.
    pub fn set_category<F: Fn(&Call) -> Reply>(
        &self,
        val: Option<&str>,
        transport: &F,
    ) -> (r: Result<(), Error>)
        requires
            accepts_request(transport, self.writes(FrameProperty::Category, text_payload(val))),
        ensures
            put_through(transport, self.writes(FrameProperty::Category, text_payload(val)), r),
    {
        put_text(&self.handle(), FrameProperty::Category.setter(), val, transport)
    }

    /// Reads the topic.
    pub fn get_topic<F: Fn(&Call) -> Reply>(&self, transport: &F) -> (r: Result<String, Error>)
        requires
            accepts_request(transport, self.reads(FrameProperty::Topic)),
        ensures
            text_through(transport, self.reads(FrameProperty::Topic), r),
    {
        get_text(&self.handle(), FrameProperty::Topic.getter(), transport)
    }

    /// Writes the topic.
    pub fn set_topic<F: Fn(&Call) -> Reply>(
        &self,
        val: Option<&str>,
        transport: &F,
    ) -> (r: Result<(), Error>)
        requires
            accepts_request(transport, self.writes(FrameProperty::Topic, text_payload(val))),
        ensures
            put_through(transport, self.writes(FrameProperty::Topic, text_payload(val)), r),
    {
        put_text(&self.handle(), FrameProperty::Topic.setter(), val, transport)
    }

    /// Reads the welcome message.
    pub fn get_welcome_msg<F: Fn(&Call) -> Reply>(
        &self,
        transport: &F,
    ) -> (r: Result<String, Error>)
        requires
            accepts_request(transport, self.reads(FrameProperty::WelcomeMsg)),
        ensures
            text_through(transport, self.reads(FrameProperty::WelcomeMsg), r),
    {
        get_text(&self.handle(), FrameProperty::WelcomeMsg.getter(), transport)
    }

    /// Writes the welcome message.
    pub fn set_welcome_msg<F: Fn(&Call) -> Reply>(
        &self,
        val: Option<&str>,
        transport: &F,
    ) -> (r: Result<(), Error>)
        requires
            accepts_request(transport, self.writes(FrameProperty::WelcomeMsg, text_payload(val))),
        ensures
            put_through(transport, self.writes(FrameProperty::WelcomeMsg, text_payload(val)), r),
    {
        put_text(&self.handle(), FrameProperty::WelcomeMsg.setter(), val, transport)
    }

    /// Reads the base address.
    pub fn get_base_url<F: Fn(&Call) -> Reply>(&self, transport: &F) -> (r: Result<String, Error>)
        requires
            accepts_request(transport, self.reads(FrameProperty::BaseUrl)),
        ensures
            text_through(transport, self.reads(FrameProperty::BaseUrl), r),
    {
        get_text(&self.handle(), FrameProperty::BaseUrl.getter(), transport)
    }

    /// Writes the base address.
    pub fn set_base_url<F: Fn(&Call) -> Reply>(
        &self,
        val: Option<&str>,
        transport: &F,
    ) -> (r: Result<(), Error>)
        requires
            accepts_request(transport, self.writes(FrameProperty::BaseUrl, text_payload(val))),
        ensures
            put_through(transport, self.writes(FrameProperty::BaseUrl, text_payload(val)), r),
    {
        put_text(&self.handle(), FrameProperty::BaseUrl.setter(), val, transport)
    }

    /// Reads the room-creation setting.
    pub fn get_create_room<F: Fn(&Call) -> Reply>(
        &self,
        transport: &F,
    ) -> (r: Result<String, Error>)
        requires
            accepts_request(transport, self.reads(FrameProperty::CreateRoom)),
        ensures
            text_through(transport, self.reads(FrameProperty::CreateRoom), r),
    {
        get_text(&self.handle(), FrameProperty::CreateRoom.getter(), transport)
    }

    /// Writes the room-creation setting.
    pub fn set_create_room<F: Fn(&Call) -> Reply>(
        &self,
        val: Option<&str>,
        transport: &F,
    ) -> (r: Result<(), Error>)
        requires
            accepts_request(transport, self.writes(FrameProperty::CreateRoom, text_payload(val))),
        ensures
            put_through(transport, self.writes(FrameProperty::CreateRoom, text_payload(val)), r),
    {
        put_text(&self.handle(), FrameProperty::CreateRoom.setter(), val, transport)
    }

    /// Reads the chat home address.
    pub fn get_chat_home<F: Fn(&Call) -> Reply>(&self, transport: &F) -> (r: Result<String, Error>)
        requires
            accepts_request(transport, self.reads(FrameProperty::ChatHome)),
        ensures
            text_through(transport, self.reads(FrameProperty::ChatHome), r),
    {
        get_text(&self.handle(), FrameProperty::ChatHome.getter(), transport)
    }

    /// Writes the chat home address.
    pub fn set_chat_home<F: Fn(&Call) -> Reply>(
        &self,
        val: Option<&str>,
        transport: &F,
    ) -> (r: Result<(), Error>)
        requires
            accepts_request(transport, self.writes(FrameProperty::ChatHome, text_payload(val))),
        ensures
            put_through(transport, self.writes(FrameProperty::ChatHome, text_payload(val)), r),
    {
        put_text(&self.handle(), FrameProperty::ChatHome.setter(), val, transport)
    }

    /// Reads the locale.
    pub fn get_locale<F: Fn(&Call) -> Reply>(&self, transport: &F) -> (r: Result<String, Error>)
        requires
            accepts_request(transport, self.reads(FrameProperty::Locale)),
        ensures
            text_through(transport, self.reads(FrameProperty::Locale), r),
    {
        get_text(&self.handle(), FrameProperty::Locale.getter(), transport)
    }

    /// Writes the locale.
    pub fn set_locale<F: Fn(&Call) -> Reply>(
        &self,
        val: Option<&str>,
        transport: &F,
    ) -> (r: Result<(), Error>)
        requires
            accepts_request(transport, self.writes(FrameProperty::Locale, text_payload(val))),
        ensures
            put_through(transport, self.writes(FrameProperty::Locale, text_payload(val)), r),
    {
        put_text(&self.handle(), FrameProperty::Locale.setter(), val, transport)
    }

    /// Reads the resource library.
    pub fn get_res_dll<F: Fn(&Call) -> Reply>(&self, transport: &F) -> (r: Result<String, Error>)
        requires
            accepts_request(transport, self.reads(FrameProperty::ResDll)),
        ensures
            text_through(transport, self.reads(FrameProperty::ResDll), r),
    {
        get_text(&self.handle(), FrameProperty::ResDll.getter(), transport)
    }

    /// Writes the resource library.
    pub fn set_res_dll<F: Fn(&Call) -> Reply>(
        &self,
        val: Option<&str>,
        transport: &F,
    ) -> (r: Result<(), Error>)
        requires
            accepts_request(transport, self.writes(FrameProperty::ResDll, text_payload(val))),
        ensures
            put_through(transport, self.writes(FrameProperty::ResDll, text_payload(val)), r),
    {
        put_text(&self.handle(), FrameProperty::ResDll.setter(), val, transport)
    }

    /// Reads the passport ticket.
    pub fn get_passport_ticket<F: Fn(&Call) -> Reply>(
        &self,
        transport: &F,
    ) -> (r: Result<String, Error>)
        requires
            accepts_request(transport, self.reads(FrameProperty::PassportTicket)),
        ensures
            text_through(transport, self.reads(FrameProperty::PassportTicket), r),
    {
        get_text(&self.handle(), FrameProperty::PassportTicket.getter(), transport)
    }

    /// Writes the passport ticket.
    pub fn set_passport_ticket<F: Fn(&Call) -> Reply>(
        &self,
        val: Option<&str>,
        transport: &F,
    ) -> (r: Result<(), Error>)
        requires
            accepts_request(
                transport,
                self.writes(FrameProperty::PassportTicket, text_payload(val)),
            ),
        ensures
            put_through(
                transport,
                self.writes(FrameProperty::PassportTicket, text_payload(val)),
                r,
            ),
    {
        put_text(&self.handle(), FrameProperty::PassportTicket.setter(), val, transport)
    }

    /// Reads the passport profile.
    pub fn get_passport_profile<F: Fn(&Call) -> Reply>(
        &self,
        transport: &F,
    ) -> (r: Result<String, Error>)
        requires
            accepts_request(transport, self.reads(FrameProperty::PassportProfile)),
        ensures
            text_through(transport, self.reads(FrameProperty::PassportProfile), r),
    {
        get_text(&self.handle(), FrameProperty::PassportProfile.getter(), transport)
    }

    /// Writes the passport profile.
    pub fn set_passport_profile<F: Fn(&Call) -> Reply>(
        &self,
        val: Option<&str>,
        transport: &F,
    ) -> (r: Result<(), Error>)
        requires
            accepts_request(
                transport,
                self.writes(FrameProperty::PassportProfile, text_payload(val)),
            ),
        ensures
            put_through(
                transport,
                self.writes(FrameProperty::PassportProfile, text_payload(val)),
                r,
            ),
    {
        put_text(&self.handle(), FrameProperty::PassportProfile.setter(), val, transport)
    }

    /// Reads the message of the day.
    pub fn get_message_of_the_day<F: Fn(&Call) -> Reply>(
        &self,
        transport: &F,
    ) -> (r: Result<String, Error>)
        requires
            accepts_request(transport, self.reads(FrameProperty::MessageOfTheDay)),
        ensures
            text_through(transport, self.reads(FrameProperty::MessageOfTheDay), r),
    {
        get_text(&self.handle(), FrameProperty::MessageOfTheDay.getter(), transport)
    }

    /// Writes the message of the day.
    pub fn set_message_of_the_day<F: Fn(&Call) -> Reply>(
        &self,
        val: Option<&str>,
        transport: &F,
    ) -> (r: Result<(), Error>)
        requires
            accepts_request(
                transport,
                self.writes(FrameProperty::MessageOfTheDay, text_payload(val)),
            ),
        ensures
            put_through(
                transport,
                self.writes(FrameProperty::MessageOfTheDay, text_payload(val)),
                r,
            ),
    {
        put_text(&self.handle(), FrameProperty::MessageOfTheDay.setter(), val, transport)
    }

    /// Reads the channel language.
    pub fn get_channel_language<F: Fn(&Call) -> Reply>(
        &self,
        transport: &F,
    ) -> (r: Result<String, Error>)
        requires
            accepts_request(transport, self.reads(FrameProperty::ChannelLanguage)),
        ensures
            text_through(transport, self.reads(FrameProperty::ChannelLanguage), r),
    {
        get_text(&self.handle(), FrameProperty::ChannelLanguage.getter(), transport)
    }

    /// Writes the channel language.
    pub fn set_channel_language<F: Fn(&Call) -> Reply>(
        &self,
        val: Option<&str>,
        transport: &F,
    ) -> (r: Result<(), Error>)
        requires
            accepts_request(
                transport,
                self.writes(FrameProperty::ChannelLanguage, text_payload(val)),
            ),
        ensures
            put_through(
                transport,
                self.writes(FrameProperty::ChannelLanguage, text_payload(val)),
                r,
            ),
    {
        put_text(&self.handle(), FrameProperty::ChannelLanguage.setter(), val, transport)
    }

    /// Reads the invitation code.
    pub fn get_invitation_code<F: Fn(&Call) -> Reply>(
        &self,
        transport: &F,
    ) -> (r: Result<String, Error>)
        requires
            accepts_request(transport, self.reads(FrameProperty::InvitationCode)),
        ensures
            text_through(transport, self.reads(FrameProperty::InvitationCode), r),
    {
        get_text(&self.handle(), FrameProperty::InvitationCode.getter(), transport)
    }

    /// Writes the invitation code.
    pub fn set_invitation_code<F: Fn(&Call) -> Reply>(
        &self,
        val: Option<&str>,
        transport: &F,
    ) -> (r: Result<(), Error>)
        requires
            accepts_request(
                transport,
                self.writes(FrameProperty::InvitationCode, text_payload(val)),
            ),
        ensures
            put_through(
                transport,
                self.writes(FrameProperty::InvitationCode, text_payload(val)),
                r,
            ),
    {
        put_text(&self.handle(), FrameProperty::InvitationCode.setter(), val, transport)
    }

    /// Reads the nickname to invite.
    pub fn get_nickname_to_invite<F: Fn(&Call) -> Reply>(
        &self,
        transport: &F,
    ) -> (r: Result<String, Error>)
        requires
            accepts_request(transport, self.reads(FrameProperty::NicknameToInvite)),
        ensures
            text_through(transport, self.reads(FrameProperty::NicknameToInvite), r),
    {
        get_text(&self.handle(), FrameProperty::NicknameToInvite.getter(), transport)
    }

    /// Writes the nickname to invite.
    pub fn set_nickname_to_invite<F: Fn(&Call) -> Reply>(
        &self,
        val: Option<&str>,
        transport: &F,
    ) -> (r: Result<(), Error>)
        requires
            accepts_request(
                transport,
                self.writes(FrameProperty::NicknameToInvite, text_payload(val)),
            ),
        ensures
            put_through(
                transport,
                self.writes(FrameProperty::NicknameToInvite, text_payload(val)),
                r,
            ),
    {
        put_text(&self.handle(), FrameProperty::NicknameToInvite.setter(), val, transport)
    }

    /// Reads the registration cookie.
    pub fn get_msnreg_cookie<F: Fn(&Call) -> Reply>(
        &self,
        transport: &F,
    ) -> (r: Result<String, Error>)
        requires
            accepts_request(transport, self.reads(FrameProperty::MsnregCookie)),
        ensures
            text_through(transport, self.reads(FrameProperty::MsnregCookie), r),
    {
        get_text(&self.handle(), FrameProperty::MsnregCookie.getter(), transport)
    }

    /// Writes the registration cookie.
    pub fn set_msnreg_cookie<F: Fn(&Call) -> Reply>(
        &self,
        val: Option<&str>,
        transport: &F,
    ) -> (r: Result<(), Error>)
        requires
            accepts_request(transport, self.writes(FrameProperty::MsnregCookie, text_payload(val))),
        ensures
            put_through(transport, self.writes(FrameProperty::MsnregCookie, text_payload(val)), r),
    {
        put_text(&self.handle(), FrameProperty::MsnregCookie.setter(), val, transport)
    }

    /// Reads the creation modes.
    pub fn get_creation_modes<F: Fn(&Call) -> Reply>(
        &self,
        transport: &F,
    ) -> (r: Result<String, Error>)
        requires
            accepts_request(transport, self.reads(FrameProperty::CreationModes)),
        ensures
            text_through(transport, self.reads(FrameProperty::CreationModes), r),
    {
        get_text(&self.handle(), FrameProperty::CreationModes.getter(), transport)
    }

    /// Writes the creation modes.
    pub fn set_creation_modes<F: Fn(&Call) -> Reply>(
        &self,
        val: Option<&str>,
        transport: &F,
    ) -> (r: Result<(), Error>)
        requires
            accepts_request(
                transport,
                self.writes(FrameProperty::CreationModes, text_payload(val)),
            ),
        ensures
            put_through(transport, self.writes(FrameProperty::CreationModes, text_payload(val)), r),
    {
        put_text(&self.handle(), FrameProperty::CreationModes.setter(), val, transport)
    }

    /// Reads the profile.
    pub fn get_msn_profile<F: Fn(&Call) -> Reply>(
        &self,
        transport: &F,
    ) -> (r: Result<String, Error>)
        requires
            accepts_request(transport, self.reads(FrameProperty::MsnProfile)),
        ensures
            text_through(transport, self.reads(FrameProperty::MsnProfile), r),
    {
        get_text(&self.handle(), FrameProperty::MsnProfile.getter(), transport)
    }

    /// Writes the profile.
    pub fn set_msn_profile<F: Fn(&Call) -> Reply>(
        &self,
        val: Option<&str>,
        transport: &F,
    ) -> (r: Result<(), Error>)
        requires
            accepts_request(transport, self.writes(FrameProperty::MsnProfile, text_payload(val))),
        ensures
            put_through(transport, self.writes(FrameProperty::MsnProfile, text_payload(val)), r),
    {
        put_text(&self.handle(), FrameProperty::MsnProfile.setter(), val, transport)
    }

    /// Reads the market.
    pub fn get_market<F: Fn(&Call) -> Reply>(&self, transport: &F) -> (r: Result<String, Error>)
        requires
            accepts_request(transport, self.reads(FrameProperty::Market)),
        ensures
            text_through(transport, self.reads(FrameProperty::Market), r),
    {
        get_text(&self.handle(), FrameProperty::Market.getter(), transport)
    }

    /// Writes the market.
    pub fn set_market<F: Fn(&Call) -> Reply>(
        &self,
        val: Option<&str>,
        transport: &F,
    ) -> (r: Result<(), Error>)
        requires
            accepts_request(transport, self.writes(FrameProperty::Market, text_payload(val))),
        ensures
            put_through(transport, self.writes(FrameProperty::Market, text_payload(val)), r),
    {
        put_text(&self.handle(), FrameProperty::Market.setter(), val, transport)
    }

    /// Reads the whisper content.
    pub fn get_whisper_content<F: Fn(&Call) -> Reply>(
        &self,
        transport: &F,
    ) -> (r: Result<String, Error>)
        requires
            accepts_request(transport, self.reads(FrameProperty::WhisperContent)),
        ensures
            text_through(transport, self.reads(FrameProperty::WhisperContent), r),
    {
        get_text(&self.handle(), FrameProperty::WhisperContent.getter(), transport)
    }

    /// Writes the whisper content.
    pub fn set_whisper_content<F: Fn(&Call) -> Reply>(
        &self,
        val: Option<&str>,
        transport: &F,
    ) -> (r: Result<(), Error>)
        requires
            accepts_request(
                transport,
                self.writes(FrameProperty::WhisperContent, text_payload(val)),
            ),
        ensures
            put_through(
                transport,
                self.writes(FrameProperty::WhisperContent, text_payload(val)),
                r,
            ),
    {
        put_text(&self.handle(), FrameProperty::WhisperContent.setter(), val, transport)
    }

    /// Reads the user role.
    pub fn get_user_role<F: Fn(&Call) -> Reply>(&self, transport: &F) -> (r: Result<String, Error>)
        requires
            accepts_request(transport, self.reads(FrameProperty::UserRole)),
        ensures
            text_through(transport, self.reads(FrameProperty::UserRole), r),
    {
        get_text(&self.handle(), FrameProperty::UserRole.getter(), transport)
    }

    /// Writes the user role.
    pub fn set_user_role<F: Fn(&Call) -> Reply>(
        &self,
        val: Option<&str>,
        transport: &F,
    ) -> (r: Result<(), Error>)
        requires
            accepts_request(transport, self.writes(FrameProperty::UserRole, text_payload(val))),
        ensures
            put_through(transport, self.writes(FrameProperty::UserRole, text_payload(val)), r),
    {
        put_text(&self.handle(), FrameProperty::UserRole.setter(), val, transport)
    }

    /// Reads the audit message.
    pub fn get_audit_message<F: Fn(&Call) -> Reply>(
        &self,
        transport: &F,
    ) -> (r: Result<String, Error>)
        requires
            accepts_request(transport, self.reads(FrameProperty::AuditMessage)),
        ensures
            text_through(transport, self.reads(FrameProperty::AuditMessage), r),
    {
        get_text(&self.handle(), FrameProperty::AuditMessage.getter(), transport)
    }

    /// Writes the audit message.
    pub fn set_audit_message<F: Fn(&Call) -> Reply>(
        &self,
        val: Option<&str>,
        transport: &F,
    ) -> (r: Result<(), Error>)
        requires
            accepts_request(transport, self.writes(FrameProperty::AuditMessage, text_payload(val))),
        ensures
            put_through(transport, self.writes(FrameProperty::AuditMessage, text_payload(val)), r),
    {
        put_text(&self.handle(), FrameProperty::AuditMessage.setter(), val, transport)
    }

    /// Reads the subscriber information.
    pub fn get_subscriber_info<F: Fn(&Call) -> Reply>(
        &self,
        transport: &F,
    ) -> (r: Result<String, Error>)
        requires
            accepts_request(transport, self.reads(FrameProperty::SubscriberInfo)),
        ensures
            text_through(transport, self.reads(FrameProperty::SubscriberInfo), r),
    {
        get_text(&self.handle(), FrameProperty::SubscriberInfo.getter(), transport)
    }

    /// Writes the subscriber information.
    pub fn set_subscriber_info<F: Fn(&Call) -> Reply>(
        &self,
        val: Option<&str>,
        transport: &F,
    ) -> (r: Result<(), Error>)
        requires
            accepts_request(
                transport,
                self.writes(FrameProperty::SubscriberInfo, text_payload(val)),
            ),
        ensures
            put_through(
                transport,
                self.writes(FrameProperty::SubscriberInfo, text_payload(val)),
                r,
            ),
    {
        put_text(&self.handle(), FrameProperty::SubscriberInfo.setter(), val, transport)
    }

    /// Reads the upsell address.
    pub fn get_upsell_url<F: Fn(&Call) -> Reply>(&self, transport: &F) -> (r: Result<String, Error>)
        requires
            accepts_request(transport, self.reads(FrameProperty::UpsellUrl)),
        ensures
            text_through(transport, self.reads(FrameProperty::UpsellUrl), r),
    {
        get_text(&self.handle(), FrameProperty::UpsellUrl.getter(), transport)
    }

    /// Writes the upsell address.
    pub fn set_upsell_url<F: Fn(&Call) -> Reply>(
        &self,
        val: Option<&str>,
        transport: &F,
    ) -> (r: Result<(), Error>)
        requires
            accepts_request(transport, self.writes(FrameProperty::UpsellUrl, text_payload(val))),
        ensures
            put_through(transport, self.writes(FrameProperty::UpsellUrl, text_payload(val)), r),
    {
        put_text(&self.handle(), FrameProperty::UpsellUrl.setter(), val, transport)
    }
}

} // verus!
