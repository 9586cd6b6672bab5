use msnchat::accessor::{
    clear_text, get_call, get_color, get_flags, get_scalar, get_text, put_call, put_color,
    put_flags, put_scalar, put_text, read_put, read_scalar, read_text, read_word,
};
use msnchat::boundary::{Call, Output, Payload, Reply, Shape};
use msnchat::chat_frame::ChatFrame;
use msnchat::chat_settings::ChatSettings;
use msnchat::error::Error;
use msnchat::guids::{
    Guid, CLSID_ChatSettings, CLSID_MSNChatFrame, IID_IChatFrame, IID_IChatSettings,
};
use msnchat::handle::BinaryHandle;
use msnchat::resolver::{
    create, create_call, instantiated, negotiated, query, query_call, release, release_call,
    resolve,
};
use std::cell::RefCell;
use std::collections::HashMap;

const CLASS_NOT_REGISTERED: i32 = -2147221164;
const NO_INTERFACE: i32 = -2147467262;
const BAD_POINTER: i32 = -2147467261;
const IID_CREATION: u128 = 0x00000112_0000_0000_c000_000000000046;

/// A component system in memory: it constructs registered classes, grants
/// their interfaces, and keeps every property exactly as it was put.
struct Stub {
    classes: Vec<(u128, Vec<u128>)>,
    addresses: HashMap<usize, (usize, u128)>,
    store: HashMap<(usize, u32), Payload>,
    components: usize,
    next_address: usize,
    calls: Vec<Call>,
    refuse_properties_with: Option<i32>,
}

impl Stub {
    fn new() -> Stub {
        Stub {
            classes: vec![
                (CLSID_MSNChatFrame, vec![IID_CREATION, IID_IChatFrame]),
                (CLSID_ChatSettings, vec![IID_CREATION, IID_IChatSettings]),
            ],
            addresses: HashMap::new(),
            store: HashMap::new(),
            components: 0,
            next_address: 0x1000,
            calls: Vec::new(),
            refuse_properties_with: None,
        }
    }

    fn fresh_address(&mut self, component: usize, class: u128) -> usize {
        let address = self.next_address;
        self.next_address += 0x10;
        self.addresses.insert(address, (component, class));
        address
    }

    fn perform(&mut self, call: &Call) -> Reply {
        self.calls.push(call.clone());
        match call {
            Call::Create { class } => {
                let class = class.to_u128();
                if self.classes.iter().any(|(known, _)| *known == class) {
                    self.components += 1;
                    let component = self.components;
                    let address = self.fresh_address(component, class);
                    Reply { status: 0, output: Output::Object(address) }
                } else {
                    Reply { status: CLASS_NOT_REGISTERED, output: Output::Nothing }
                }
            }
            Call::Query { object, interface } => {
                let Some((component, class)) = self.addresses.get(object).copied() else {
                    return Reply { status: BAD_POINTER, output: Output::Nothing };
                };
                let interface = interface.to_u128();
                let granted = self
                    .classes
                    .iter()
                    .any(|(known, interfaces)| *known == class && interfaces.contains(&interface));
                if granted {
                    let address = self.fresh_address(component, class);
                    Reply { status: 0, output: Output::Object(address) }
                } else {
                    Reply { status: NO_INTERFACE, output: Output::Nothing }
                }
            }
            Call::Release { object } => {
                self.addresses.remove(object);
                Reply { status: 0, output: Output::Nothing }
            }
            Call::Get { object, slot, shape: _ } => {
                if let Some(status) = self.refuse_properties_with {
                    return Reply { status, output: Output::Nothing };
                }
                let Some((component, _)) = self.addresses.get(object).copied() else {
                    return Reply { status: BAD_POINTER, output: Output::Nothing };
                };
                assert!(*slot >= 3 && (*slot - 3) % 2 == 0, "not a getter entry");
                match self.store.get(&(component, (*slot - 3) / 2)) {
                    Some(value) => Reply { status: 0, output: Output::Value(value.clone()) },
                    None => Reply { status: 0, output: Output::Nothing },
                }
            }
            Call::Put { object, slot, value } => {
                if let Some(status) = self.refuse_properties_with {
                    return Reply { status, output: Output::Nothing };
                }
                let Some((component, _)) = self.addresses.get(object).copied() else {
                    return Reply { status: BAD_POINTER, output: Output::Nothing };
                };
                assert!(*slot >= 4 && (*slot - 4) % 2 == 0, "not a setter entry");
                self.store.insert((component, (*slot - 4) / 2), value.clone());
                Reply { status: 0, output: Output::Nothing }
            }
        }
    }
}

fn frame_handle(stub: &RefCell<Stub>) -> BinaryHandle {
    let transport = |call: &Call| stub.borrow_mut().perform(call);
    let class = Guid::from_u128(CLSID_MSNChatFrame);
    resolve(class, Guid::from_u128(IID_IChatFrame), &transport).unwrap()
}

#[test]
fn get_call_names_the_getter() {
    let handle = BinaryHandle::from_raw(0x40, Guid::from_u128(IID_IChatFrame));
    assert_eq!(
        get_call(&handle, 17, Shape::Scalar),
        Ok(Call::Get { object: 0x40, slot: 17, shape: Shape::Scalar })
    );
}

#[test]
fn get_call_on_an_empty_handle_is_refused() {
    let handle = BinaryHandle::empty(Guid::from_u128(IID_IChatFrame));
    assert!(handle.is_null());
    assert_eq!(handle.as_ptr(), 0);
    assert_eq!(handle.iid().to_u128(), IID_IChatFrame);
    assert_eq!(get_call(&handle, 3, Shape::Color), Err(Error::NullHandle));
}

#[test]
fn put_call_names_the_setter_and_carries_the_value() {
    let handle = BinaryHandle::from_raw(0x40, Guid::from_u128(IID_IChatFrame));
    assert_eq!(
        put_call(&handle, 4, Some(Payload::Word(0x00FF00))),
        Ok(Call::Put { object: 0x40, slot: 4, value: Payload::Word(0x00FF00) })
    );
}

#[test]
fn put_call_without_a_value_is_an_invalid_argument() {
    let handle = BinaryHandle::from_raw(0x40, Guid::from_u128(IID_IChatFrame));
    assert_eq!(put_call(&handle, 4, None), Err(Error::InvalidArgument));
    let empty = BinaryHandle::empty(Guid::from_u128(IID_IChatFrame));
    assert_eq!(put_call(&empty, 4, None), Err(Error::InvalidArgument));
}

#[test]
fn put_call_on_an_empty_handle_is_refused() {
    let empty = BinaryHandle::empty(Guid::from_u128(IID_IChatFrame));
    assert_eq!(put_call(&empty, 4, Some(Payload::Int(1))), Err(Error::NullHandle));
}

#[test]
fn read_takes_what_was_written_after_success() {
    let reply = Reply { status: 0, output: Output::Value(Payload::Int(-3)) };
    assert_eq!(read_scalar(&reply), Ok(-3));
    let reply = Reply { status: 0, output: Output::Value(Payload::Word(0x00FF00)) };
    assert_eq!(read_word(&reply), Ok(0x00FF00));
    let reply = Reply { status: 0, output: Output::Value(Payload::Wide(vec![0x68, 0x69])) };
    assert_eq!(read_text(&reply), Ok("hi".to_string()));
    assert_eq!(read_put(&Reply { status: 0, output: Output::Nothing }), Ok(()));
}

#[test]
fn read_of_an_untouched_value_is_zero_or_empty() {
    let reply = Reply { status: 0, output: Output::Nothing };
    assert_eq!(read_scalar(&reply), Ok(0));
    assert_eq!(read_word(&reply), Ok(0));
    assert_eq!(read_text(&reply), Ok(String::new()));
    let null = Reply { status: 0, output: Output::Value(Payload::Null) };
    assert_eq!(read_text(&null), Ok(String::new()));
}

#[test]
fn read_after_failure_carries_the_status() {
    let reply = Reply { status: -9, output: Output::Value(Payload::Word(5)) };
    assert_eq!(read_scalar(&reply), Err(Error::BoundaryCallFailed(-9)));
    assert_eq!(read_word(&reply), Err(Error::BoundaryCallFailed(-9)));
    assert_eq!(read_text(&reply), Err(Error::BoundaryCallFailed(-9)));
    assert_eq!(read_put(&reply), Err(Error::BoundaryCallFailed(-9)));
}

#[test]
fn scalar_round_trip_on_every_entry() {
    let stub = RefCell::new(Stub::new());
    let handle = frame_handle(&stub);
    let transport = |call: &Call| stub.borrow_mut().perform(call);
    for index in 0..40u32 {
        for value in [0, 1, -1, i32::MAX, i32::MIN, 0x00FF00] {
            assert_eq!(put_scalar(&handle, 4 + 2 * index, Some(value), &transport), Ok(()));
            assert_eq!(get_scalar(&handle, 3 + 2 * index, &transport), Ok(value));
        }
        for value in [0, 1, u32::MAX, 0x00FF00, 0x8000_0000] {
            assert_eq!(put_color(&handle, 4 + 2 * index, Some(value), &transport), Ok(()));
            assert_eq!(get_color(&handle, 3 + 2 * index, &transport), Ok(value));
            assert_eq!(put_flags(&handle, 4 + 2 * index, Some(value ^ 1), &transport), Ok(()));
            assert_eq!(get_flags(&handle, 3 + 2 * index, &transport), Ok(value ^ 1));
        }
    }
}

#[test]
fn put_none_fails_and_makes_no_call() {
    let stub = RefCell::new(Stub::new());
    let handle = frame_handle(&stub);
    let transport = |call: &Call| stub.borrow_mut().perform(call);
    let before = stub.borrow().calls.len();
    for slot in [4u32, 6, 20, 22] {
        assert_eq!(put_scalar(&handle, slot, None, &transport), Err(Error::InvalidArgument));
        assert_eq!(put_color(&handle, slot, None, &transport), Err(Error::InvalidArgument));
        assert_eq!(put_flags(&handle, slot, None, &transport), Err(Error::InvalidArgument));
        assert_eq!(put_text(&handle, slot, None, &transport), Err(Error::InvalidArgument));
    }
    let empty = BinaryHandle::empty(Guid::from_u128(IID_IChatFrame));
    assert_eq!(put_color(&empty, 4, None, &transport), Err(Error::InvalidArgument));
    assert_eq!(stub.borrow().calls.len(), before);
}

#[test]
fn operations_on_an_empty_handle_fail_and_make_no_call() {
    let stub = RefCell::new(Stub::new());
    let transport = |call: &Call| stub.borrow_mut().perform(call);
    let empty = BinaryHandle::empty(Guid::from_u128(IID_IChatFrame));
    assert_eq!(get_scalar(&empty, 3, &transport), Err(Error::NullHandle));
    assert_eq!(get_color(&empty, 3, &transport), Err(Error::NullHandle));
    assert_eq!(get_flags(&empty, 3, &transport), Err(Error::NullHandle));
    assert_eq!(get_text(&empty, 3, &transport), Err(Error::NullHandle));
    assert_eq!(put_scalar(&empty, 4, Some(1), &transport), Err(Error::NullHandle));
    assert_eq!(put_color(&empty, 4, Some(1), &transport), Err(Error::NullHandle));
    assert_eq!(put_flags(&empty, 4, Some(1), &transport), Err(Error::NullHandle));
    assert_eq!(put_text(&empty, 4, Some("x"), &transport), Err(Error::NullHandle));
    assert_eq!(clear_text(&empty, 4, &transport), Err(Error::NullHandle));
    assert!(stub.borrow().calls.is_empty());
}

#[test]
fn failed_boundary_calls_carry_their_status() {
    let stub = RefCell::new(Stub::new());
    let handle = frame_handle(&stub);
    let transport = |call: &Call| stub.borrow_mut().perform(call);
    stub.borrow_mut().refuse_properties_with = Some(-2147467259);
    let failed = Error::BoundaryCallFailed(-2147467259);
    assert_eq!(get_scalar(&handle, 3, &transport), Err(failed));
    assert_eq!(get_color(&handle, 3, &transport), Err(failed));
    assert_eq!(get_text(&handle, 3, &transport), Err(failed));
    assert_eq!(put_scalar(&handle, 4, Some(1), &transport), Err(failed));
    assert_eq!(put_text(&handle, 4, Some("x"), &transport), Err(failed));
    stub.borrow_mut().refuse_properties_with = Some(1);
    assert_eq!(get_color(&handle, 3, &transport), Err(Error::BoundaryCallFailed(1)));
}

#[test]
fn string_round_trip_non_ascii() {
    let stub = RefCell::new(Stub::new());
    let handle = frame_handle(&stub);
    let transport = |call: &Call| stub.borrow_mut().perform(call);
    let text = "\u{65E5}\u{672C}\u{8A9E}";
    assert_eq!(put_text(&handle, 22, Some(text), &transport), Ok(()));
    assert_eq!(
        stub.borrow().calls.last(),
        Some(&Call::Put {
            object: handle.as_ptr(),
            slot: 22,
            value: Payload::Wide(vec![0x65E5, 0x672C, 0x8A9E]),
        })
    );
    assert_eq!(get_text(&handle, 21, &transport), Ok(text.to_string()));
}

#[test]
fn string_round_trip_beyond_the_basic_plane() {
    let stub = RefCell::new(Stub::new());
    let handle = frame_handle(&stub);
    let transport = |call: &Call| stub.borrow_mut().perform(call);
    for text in ["", "room", "\u{1F600} and \u{10FFFF}", "nul\u{0}inside"] {
        assert_eq!(put_text(&handle, 22, Some(text), &transport), Ok(()));
        assert_eq!(get_text(&handle, 21, &transport), Ok(text.to_string()));
    }
}

#[test]
fn text_never_put_reads_as_empty() {
    let stub = RefCell::new(Stub::new());
    let handle = frame_handle(&stub);
    let transport = |call: &Call| stub.borrow_mut().perform(call);
    assert_eq!(get_text(&handle, 21, &transport), Ok(String::new()));
    assert_eq!(get_color(&handle, 3, &transport), Ok(0));
    assert_eq!(get_scalar(&handle, 17, &transport), Ok(0));
}

#[test]
fn clear_text_hands_over_no_text() {
    let stub = RefCell::new(Stub::new());
    let handle = frame_handle(&stub);
    let transport = |call: &Call| stub.borrow_mut().perform(call);
    assert_eq!(put_text(&handle, 22, Some("topic"), &transport), Ok(()));
    assert_eq!(clear_text(&handle, 22, &transport), Ok(()));
    assert_eq!(
        stub.borrow().calls.last(),
        Some(&Call::Put { object: handle.as_ptr(), slot: 22, value: Payload::Null })
    );
    assert_eq!(get_text(&handle, 21, &transport), Ok(String::new()));
}

#[test]
fn create_call_and_its_answers() {
    let class = Guid::from_u128(CLSID_MSNChatFrame);
    assert_eq!(create_call(class), Call::Create { class });
    let instance = instantiated(&Reply { status: 0, output: Output::Object(0x2000) }).unwrap();
    assert_eq!(instance.as_ptr(), 0x2000);
    let refused = instantiated(&Reply { status: CLASS_NOT_REGISTERED, output: Output::Nothing });
    assert_eq!(refused.unwrap_err(), Error::ComponentCreationFailed);
    let refused = instantiated(&Reply { status: -1, output: Output::Object(0x2000) });
    assert_eq!(refused.unwrap_err(), Error::ComponentCreationFailed);
    let null = instantiated(&Reply { status: 0, output: Output::Nothing });
    assert_eq!(null.unwrap_err(), Error::ComponentCreationFailed);
    let null = instantiated(&Reply { status: 0, output: Output::Object(0) });
    assert_eq!(null.unwrap_err(), Error::ComponentCreationFailed);
}

#[test]
fn query_call_and_its_answers() {
    let instance = instantiated(&Reply { status: 0, output: Output::Object(0x2000) }).unwrap();
    let interface = Guid::from_u128(IID_IChatFrame);
    assert_eq!(query_call(&instance, interface), Call::Query { object: 0x2000, interface });
    let granted = negotiated(interface, &Reply { status: 0, output: Output::Object(0x2010) });
    assert_eq!(granted, Ok(BinaryHandle::from_raw(0x2010, interface)));
    let declined = negotiated(interface, &Reply { status: NO_INTERFACE, output: Output::Nothing });
    assert_eq!(declined, Err(Error::InterfaceNotSupported));
    let declined = negotiated(interface, &Reply { status: 5, output: Output::Object(0x2010) });
    assert_eq!(declined, Err(Error::InterfaceNotSupported));
    let null = negotiated(interface, &Reply { status: 0, output: Output::Object(0) });
    assert_eq!(null, Err(Error::InterfaceNotSupported));
    assert_eq!(release_call(instance), Call::Release { object: 0x2000 });
}

#[test]
fn create_of_an_unregistered_class_fails() {
    let stub = RefCell::new(Stub::new());
    let transport = |call: &Call| stub.borrow_mut().perform(call);
    let unknown = Guid::from_u128(0xdeadbeef_0000_0000_0000_000000000001);
    assert_eq!(create(unknown, &transport).unwrap_err(), Error::ComponentCreationFailed);
    assert_eq!(
        resolve(unknown, Guid::from_u128(IID_IChatFrame), &transport),
        Err(Error::ComponentCreationFailed)
    );
    assert_eq!(stub.borrow().calls.len(), 2);
    assert!(stub.borrow().addresses.is_empty());
}

#[test]
fn query_of_an_unregistered_interface_fails() {
    let stub = RefCell::new(Stub::new());
    let transport = |call: &Call| stub.borrow_mut().perform(call);
    let instance = create(Guid::from_u128(CLSID_MSNChatFrame), &transport).unwrap();
    let unknown = Guid::from_u128(0xdeadbeef_0000_0000_0000_000000000002);
    assert_eq!(query(&instance, unknown, &transport), Err(Error::InterfaceNotSupported));
    let other = Guid::from_u128(IID_IChatSettings);
    assert_eq!(query(&instance, other, &transport), Err(Error::InterfaceNotSupported));
    release(instance, &transport);
    assert!(stub.borrow().addresses.is_empty());
}

#[test]
fn resolve_gives_a_handle_on_the_interface_and_releases_the_instance() {
    let stub = RefCell::new(Stub::new());
    let transport = |call: &Call| stub.borrow_mut().perform(call);
    let class = Guid::from_u128(CLSID_MSNChatFrame);
    let interface = Guid::from_u128(IID_IChatFrame);
    let handle = resolve(class, interface, &transport).unwrap();
    assert!(!handle.is_null());
    assert_eq!(handle.iid(), interface);
    let calls = stub.borrow().calls.clone();
    assert_eq!(
        calls,
        vec![
            Call::Create { class },
            Call::Query { object: 0x1000, interface },
            Call::Release { object: 0x1000 },
        ]
    );
    assert_eq!(handle.as_ptr(), 0x1010);
}

#[test]
fn resolve_releases_the_instance_when_the_interface_is_declined() {
    let stub = RefCell::new(Stub::new());
    let transport = |call: &Call| stub.borrow_mut().perform(call);
    let class = Guid::from_u128(CLSID_MSNChatFrame);
    let interface = Guid::from_u128(IID_IChatSettings);
    assert_eq!(resolve(class, interface, &transport), Err(Error::InterfaceNotSupported));
    assert_eq!(stub.borrow().calls.last(), Some(&Call::Release { object: 0x1000 }));
    assert!(stub.borrow().addresses.is_empty());
}

#[test]
fn create_query_put_get_back_color() {
    let stub = RefCell::new(Stub::new());
    let transport = |call: &Call| stub.borrow_mut().perform(call);
    let instance = create(Guid::from_u128(CLSID_MSNChatFrame), &transport).unwrap();
    let handle = query(&instance, Guid::from_u128(IID_IChatFrame), &transport).unwrap();
    let frame = ChatFrame::from_raw(handle.as_ptr());
    assert_eq!(frame.set_back_color(Some(0x00FF00), &transport), Ok(()));
    assert_eq!(frame.get_back_color(&transport), Ok(0x00FF00));
}

#[test]
fn chat_frame_create_resolves_its_own_class_and_interface() {
    let stub = RefCell::new(Stub::new());
    let transport = |call: &Call| stub.borrow_mut().perform(call);
    let frame = ChatFrame::create(&transport).unwrap();
    assert_eq!(frame.as_ptr(), 0x1010);
    assert_eq!(
        frame.handle(),
        BinaryHandle::from_raw(0x1010, Guid::from_u128(IID_IChatFrame))
    );
    assert_eq!(
        stub.borrow().calls[..2],
        [
            Call::Create { class: Guid::from_u128(CLSID_MSNChatFrame) },
            Call::Query { object: 0x1000, interface: Guid::from_u128(IID_IChatFrame) },
        ]
    );
    let copy = frame.clone();
    assert_eq!(copy.as_ptr(), frame.as_ptr());
}

#[test]
fn chat_settings_create_resolves_its_own_class_and_interface() {
    let stub = RefCell::new(Stub::new());
    let transport = |call: &Call| stub.borrow_mut().perform(call);
    let settings = ChatSettings::create(&transport).unwrap();
    assert_eq!(settings.as_ptr(), 0x1010);
    assert_eq!(
        settings.handle(),
        BinaryHandle::from_raw(0x1010, Guid::from_u128(IID_IChatSettings))
    );
    assert_eq!(
        stub.borrow().calls[..2],
        [
            Call::Create { class: Guid::from_u128(CLSID_ChatSettings) },
            Call::Query { object: 0x1000, interface: Guid::from_u128(IID_IChatSettings) },
        ]
    );
}

#[test]
fn create_fails_where_the_class_is_not_registered() {
    let stub = RefCell::new(Stub::new());
    stub.borrow_mut().classes.clear();
    let transport = |call: &Call| stub.borrow_mut().perform(call);
    assert_eq!(ChatFrame::create(&transport).unwrap_err(), Error::ComponentCreationFailed);
    assert_eq!(ChatSettings::create(&transport).unwrap_err(), Error::ComponentCreationFailed);
}

#[test]
fn create_fails_where_the_interface_is_not_granted() {
    let stub = RefCell::new(Stub::new());
    stub.borrow_mut().classes =
        vec![(CLSID_MSNChatFrame, vec![IID_CREATION]), (CLSID_ChatSettings, vec![IID_CREATION])];
    let transport = |call: &Call| stub.borrow_mut().perform(call);
    assert_eq!(ChatFrame::create(&transport).unwrap_err(), Error::InterfaceNotSupported);
    assert_eq!(ChatSettings::create(&transport).unwrap_err(), Error::InterfaceNotSupported);
}

#[test]
fn a_frame_around_a_null_address_fails_every_operation() {
    let stub = RefCell::new(Stub::new());
    let transport = |call: &Call| stub.borrow_mut().perform(call);
    let frame = ChatFrame::from_raw(0);
    assert_eq!(frame.as_ptr(), 0);
    assert_eq!(frame.get_back_color(&transport), Err(Error::NullHandle));
    assert_eq!(frame.set_back_color(Some(1), &transport), Err(Error::NullHandle));
    assert_eq!(frame.get_room_name(&transport), Err(Error::NullHandle));
    assert_eq!(frame.set_room_name(Some("x"), &transport), Err(Error::NullHandle));
    assert_eq!(frame.set_room_name(None, &transport), Err(Error::InvalidArgument));
    let settings = ChatSettings::from_raw(0);
    assert_eq!(settings.get_fore_color(&transport), Err(Error::NullHandle));
    assert!(stub.borrow().calls.is_empty());
}
