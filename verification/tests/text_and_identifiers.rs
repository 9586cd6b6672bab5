use msnchat::error::{check_status, Error};
use msnchat::guids::{
    Guid, CLSID_ChatSettings, CLSID_MSNChatFrame, IID_ICChatFrameEvents, IID_IChatFrame,
    IID_IChatSettings, LIBID_MSNChat,
};
use msnchat::layout::{getter, setter, LAST_PLACE, RESERVED_ENTRIES};
use msnchat::marshal::{inbound, outbound};
use msnchat::utf16::{decode_wide, encode_wide, REPLACEMENT};

#[test]
fn guid_fields_follow_the_five_groups() {
    let g = Guid::from_u128(0x125e64fa_3304_4bb9_a756_d0d44cc8cd7d);
    assert_eq!(g.data1, 0x125e64fa);
    assert_eq!(g.data2, 0x3304);
    assert_eq!(g.data3, 0x4bb9);
    assert_eq!(g.data4, 0xa756_d0d44cc8cd7d);
}

#[test]
fn guid_value_round_trip() {
    for value in [
        LIBID_MSNChat,
        IID_IChatFrame,
        IID_IChatSettings,
        IID_ICChatFrameEvents,
        CLSID_MSNChatFrame,
        CLSID_ChatSettings,
        0,
        u128::MAX,
        1,
        1 << 127,
    ] {
        assert_eq!(Guid::from_u128(value).to_u128(), value);
    }
}

#[test]
fn guid_agrees_with_the_windows_type() {
    let values =
        [IID_IChatFrame, CLSID_MSNChatFrame, u128::MAX, 0x0123_4567_89ab_cdef_0011_2233_4455_6677];
    for value in values {
        let ours = Guid::from_u128(value);
        let theirs = windows_core::GUID::from_u128(value);
        assert_eq!(ours.data1, theirs.data1);
        assert_eq!(ours.data2, theirs.data2);
        assert_eq!(ours.data3, theirs.data3);
        assert_eq!(ours.data4.to_be_bytes(), theirs.data4);
        assert_eq!(ours.to_u128(), theirs.to_u128());
    }
}

#[test]
fn guid_same_is_equality_of_values() {
    let a = Guid::from_u128(IID_IChatFrame);
    let b = Guid::from_u128(IID_IChatFrame);
    let c = Guid::from_u128(IID_IChatSettings);
    assert!(a.same(&b));
    assert!(!a.same(&c));
    assert_eq!(a, b);
    assert_ne!(a, c);
}

#[test]
fn the_published_identifiers() {
    assert_eq!(LIBID_MSNChat, 0x0f0a655c_6c6d_4e0b_8038_f980b36f9c78);
    assert_eq!(IID_IChatFrame, 0x125e64fa_3304_4bb9_a756_d0d44cc8cd7d);
    assert_eq!(IID_IChatSettings, 0xd5ef4299_12f1_474d_98c5_3c658fd2e343);
    assert_eq!(IID_ICChatFrameEvents, 0x5eeb8014_53b2_448b_9f3b_c553424832e1);
    assert_eq!(CLSID_MSNChatFrame, 0xf58e1cef_a068_4d2f_b3c2_9a5be42525f8);
    assert_eq!(CLSID_ChatSettings, 0xfa980e7e_9e44_4d2f_b3c2_9a5be42525f8);
}

#[test]
fn status_zero_is_success() {
    assert_eq!(check_status(0), Ok(()));
}

#[test]
fn status_negative_is_failure_with_its_code() {
    assert_eq!(check_status(-2147467259), Err(Error::BoundaryCallFailed(-2147467259)));
    assert_eq!(check_status(i32::MIN), Err(Error::BoundaryCallFailed(i32::MIN)));
    assert_eq!(Error::BoundaryCallFailed(-7).code(), -7);
}

#[test]
fn status_positive_is_not_success() {
    assert_eq!(check_status(1), Err(Error::BoundaryCallFailed(1)));
}

#[test]
fn encode_ascii() {
    assert_eq!(encode_wide("hi"), vec![0x68, 0x69]);
    assert_eq!(encode_wide(""), Vec::<u16>::new());
}

#[test]
fn encode_basic_plane() {
    assert_eq!(encode_wide("\u{65E5}\u{672C}\u{8A9E}"), vec![0x65E5, 0x672C, 0x8A9E]);
    assert_eq!(encode_wide("\u{FFFF}"), vec![0xFFFF]);
    assert_eq!(encode_wide("\u{D7FF}\u{E000}"), vec![0xD7FF, 0xE000]);
}

#[test]
fn encode_surrogate_pairs() {
    assert_eq!(encode_wide("\u{1F600}"), vec![0xD83D, 0xDE00]);
    assert_eq!(encode_wide("\u{10000}"), vec![0xD800, 0xDC00]);
    assert_eq!(encode_wide("\u{10FFFF}"), vec![0xDBFF, 0xDFFF]);
    assert_eq!(encode_wide("a\u{1F600}b"), vec![0x61, 0xD83D, 0xDE00, 0x62]);
}

#[test]
fn decode_plain_and_pairs() {
    assert_eq!(decode_wide(&[]), "");
    assert_eq!(decode_wide(&[0x68, 0x69]), "hi");
    assert_eq!(decode_wide(&[0x65E5, 0x672C, 0x8A9E]), "\u{65E5}\u{672C}\u{8A9E}");
    assert_eq!(decode_wide(&[0xD83D, 0xDE00]), "\u{1F600}");
    assert_eq!(decode_wide(&[0xDBFF, 0xDFFF]), "\u{10FFFF}");
    assert_eq!(decode_wide(&[0, 0x41]), "\u{0}A");
}

#[test]
fn decode_replaces_lonely_surrogates() {
    assert_eq!(REPLACEMENT, '\u{FFFD}');
    assert_eq!(decode_wide(&[0xD800]), "\u{FFFD}");
    assert_eq!(decode_wide(&[0xDC00]), "\u{FFFD}");
    assert_eq!(decode_wide(&[0xD800, 0x41]), "\u{FFFD}A");
    assert_eq!(decode_wide(&[0xDC00, 0xD800]), "\u{FFFD}\u{FFFD}");
    assert_eq!(decode_wide(&[0xD800, 0xD800, 0xDC00]), "\u{FFFD}\u{10000}");
    assert_eq!(decode_wide(&[0x41, 0xDFFF, 0x42]), "A\u{FFFD}B");
}

#[test]
fn text_round_trip_through_units() {
    for text in [
        "",
        "plain",
        "\u{65E5}\u{672C}\u{8A9E}",
        "mixed \u{1F600} \u{E9} \u{10FFFF} end",
        "\u{0}\u{FFFD}\u{FFFF}",
    ] {
        assert_eq!(decode_wide(&encode_wide(text)), text);
    }
}

#[test]
fn units_round_trip_through_text_when_well_paired() {
    let units: Vec<u16> = vec![0x41, 0xD83D, 0xDE00, 0x65E5, 0xDBFF, 0xDFFF, 0];
    assert_eq!(encode_wide(&decode_wide(&units)), units);
}

#[test]
fn codec_agrees_with_the_standard_library() {
    let texts =
        ["", "hello", "\u{65E5}\u{672C}\u{8A9E}", "x\u{1F600}y\u{10000}z", "\u{FFFF}\u{E000}"];
    for text in texts {
        let expected: Vec<u16> = text.encode_utf16().collect();
        assert_eq!(encode_wide(text), expected);
    }
    let runs: [&[u16]; 6] = [
        &[],
        &[0x68, 0x69],
        &[0xD800],
        &[0xDC00, 0x41, 0xD83D, 0xDE00],
        &[0xD83D, 0xD83D, 0xDE00, 0xDE00],
        &[0xFFFF, 0xD7FF, 0xE000, 0xDBFF],
    ];
    for run in runs {
        assert_eq!(decode_wide(run), String::from_utf16_lossy(run));
    }
}

#[test]
fn every_unit_decodes_like_the_standard_library() {
    for unit in 0..=u16::MAX {
        assert_eq!(decode_wide(&[unit]), String::from_utf16_lossy(&[unit]));
    }
    for high in [0xD800u16, 0xD9AB, 0xDBFF] {
        for low in [0xDC00u16, 0xDD11, 0xDFFF] {
            assert_eq!(decode_wide(&[high, low]), String::from_utf16_lossy(&[high, low]));
        }
    }
}

#[test]
fn inbound_reads_text_after_success() {
    let units: Vec<u16> = vec![0x65E5, 0x672C, 0x8A9E];
    assert_eq!(inbound(0, Some(&units)), Ok("\u{65E5}\u{672C}\u{8A9E}".to_string()));
}

#[test]
fn inbound_null_or_empty_is_the_empty_string() {
    assert_eq!(inbound(0, None), Ok(String::new()));
    assert_eq!(inbound(0, Some(&Vec::new())), Ok(String::new()));
}

#[test]
fn inbound_failure_carries_the_status() {
    let units: Vec<u16> = vec![0x41];
    assert_eq!(inbound(-3, Some(&units)), Err(Error::BoundaryCallFailed(-3)));
    assert_eq!(inbound(-3, None), Err(Error::BoundaryCallFailed(-3)));
}

#[test]
fn outbound_writes_units() {
    assert_eq!(outbound(Some("hi")), Ok(vec![0x68, 0x69]));
    assert_eq!(outbound(Some("")), Ok(Vec::new()));
    assert_eq!(outbound(Some("\u{1F600}")), Ok(vec![0xD83D, 0xDE00]));
}

#[test]
fn outbound_without_text_is_an_invalid_argument() {
    assert_eq!(outbound(None), Err(Error::InvalidArgument));
}

#[test]
fn errors_have_a_status_and_words() {
    assert_eq!(Error::BoundaryCallFailed(-42).code(), -42);
    assert_eq!(Error::InvalidArgument.code(), 0x80004003u32 as i32);
    assert_eq!(Error::ComponentCreationFailed.code(), 0x80040154u32 as i32);
    assert_eq!(Error::InterfaceNotSupported.code(), 0x80004002u32 as i32);
    assert_eq!(Error::NullHandle.code(), 0x80070006u32 as i32);
    assert_eq!(
        Error::InvalidArgument.message(),
        "Attempted to set None on non-nullable COM property"
    );
    assert_eq!(Error::BoundaryCallFailed(-42).message(), "Boundary call failed");
    assert_eq!(Error::ComponentCreationFailed.message(), "Component could not be created");
    assert_eq!(Error::InterfaceNotSupported.message(), "Interface not supported");
    assert_eq!(Error::NullHandle.message(), "Operation attempted on an empty handle");
}

#[test]
fn status_check_agrees_with_the_windows_type_on_failures() {
    for status in [i32::MIN, -2147467259, -2147024890, -1] {
        let theirs = windows_core::HRESULT(status).ok().unwrap_err();
        assert_eq!(check_status(status), Err(Error::BoundaryCallFailed(theirs.code().0)));
    }
    assert!(windows_core::HRESULT(0).ok().is_ok());
    assert_eq!(check_status(0), Ok(()));
    assert_eq!(check_status(i32::MAX), Err(Error::BoundaryCallFailed(i32::MAX)));
    assert_eq!(check_status(0x535F4F4B), Err(Error::BoundaryCallFailed(0x535F4F4B)));
}

#[test]
fn entries_come_in_pairs_after_the_reserved_three() {
    assert_eq!(RESERVED_ENTRIES, 3);
    assert_eq!(getter(0), 3);
    assert_eq!(setter(0), 4);
    assert_eq!(getter(1), 5);
    assert_eq!(setter(1), 6);
    assert_eq!(getter(36), 75);
    assert_eq!(setter(36), 76);
}

#[test]
fn the_last_place_still_has_entries() {
    assert_eq!(getter(LAST_PLACE), u32::MAX - 2);
    assert_eq!(setter(LAST_PLACE), u32::MAX - 1);
}
