//! Class and interface identifiers.
//!
//! An identifier is a fixed 128-bit value, written in five hexadecimal
//! groups. It is only ever compared and handed across the boundary.
use vstd::prelude::*;

verus! {

/// Type library of the chat control.
pub const LIBID_MSNChat: u128 = 0x0f0a655c_6c6d_4e0b_8038_f980b36f9c78;

/// Property interface of the chat frame.
pub const IID_IChatFrame: u128 = 0x125e64fa_3304_4bb9_a756_d0d44cc8cd7d;

/// Property interface of the settings component.
pub const IID_IChatSettings: u128 = 0xd5ef4299_12f1_474d_98c5_3c658fd2e343;

/// Event-notification interface that a sink implements.
pub const IID_ICChatFrameEvents: u128 = 0x5eeb8014_53b2_448b_9f3b_c553424832e1;

/// Creatable class of the chat frame.
pub const CLSID_MSNChatFrame: u128 = 0xf58e1cef_a068_4d2f_b3c2_9a5be42525f8;

/// Creatable class of the settings component.
pub const CLSID_ChatSettings: u128 = 0xfa980e7e_9e44_4d2f_b3c2_9a5be42525f8;

/// The identity interface that every object has.
pub const IID_IUnknown: u128 = 0x00000000_0000_0000_c000_000000000046;

/// The late-bound dispatch interface.
pub const IID_IDispatch: u128 = 0x00020400_0000_0000_c000_000000000046;

/// A 128-bit identifier, held in the four fields in which it crosses the
/// boundary. `data4` is the last sixty-four bits, most significant byte
/// first.
#[derive(Clone, Copy, Debug, PartialEq, Eq, Structural, Hash)]
pub struct Guid {
    pub data1: u32,
    pub data2: u16,
    pub data3: u16,
    pub data4: u64,
}

impl View for Guid {
    type V = u128;

    /// The identifier as one number: the fields side by side.
    open spec fn view(&self) -> u128 {
        ((self.data1 as u128) << 96) | ((self.data2 as u128) << 80) | ((self.data3 as u128) << 64)
            | (self.data4 as u128)
    }
}

/// `windows_core::GUID::from_u128`, with the eight bytes of its last field
/// read back as one big-endian number. The contract repeats the shifts and
/// masks by which that function cuts the value into fields.
#[verifier::external_body]
fn guid_fields(value: u128) -> (r: (u32, u16, u16, u64))
    ensures
        r.0 == (value >> 96) as u32,
        r.1 == ((value >> 80) & 0xffff) as u16,
        r.2 == ((value >> 64) & 0xffff) as u16,
        r.3 == value as u64,
{
    let guid = windows_core::GUID::from_u128(value);
    (guid.data1, guid.data2, guid.data3, u64::from_be_bytes(guid.data4))
}

impl Guid {
    /// A value cut into the four fields: thirty-two bits, sixteen, sixteen,
    /// and the remaining sixty-four.
    pub open spec fn cut(value: u128) -> Guid {
        Guid {
            data1: (value >> 96) as u32,
            data2: ((value >> 80) & 0xffff) as u16,
            data3: ((value >> 64) & 0xffff) as u16,
            data4: value as u64,
        }
    }

    /// The identifier with the given value.
    pub fn from_u128(value: u128) -> (r: Guid)
        ensures
            r == Guid::cut(value),
            r@ == value,
    {
        let (data1, data2, data3, data4) = guid_fields(value);
        proof {
            Guid::law_fields_round_trip(value, Guid::cut(value));
        }
        Guid { data1, data2, data3, data4 }
    }

    /// The identifier's value.
    pub fn to_u128(&self) -> (r: u128)
        ensures
            r == self@,
    {
        ((self.data1 as u128) << 96) | ((self.data2 as u128) << 80) | ((self.data3 as u128) << 64)
            | (self.data4 as u128)
    }

    /// Whether two identifiers are the same.
    pub fn same(&self, other: &Guid) -> (r: bool)
        ensures
            r == (self@ == other@),
    {
        proof {
            Guid::law_value_determines_fields(*self, *other);
        }
        *self == *other
    }

    /// Two identifiers with the same value have the same fields: the value
    /// is a key.
    pub proof fn law_value_determines_fields(a: Guid, b: Guid)
        ensures
            a@ == b@ <==> a == b,
    {
        let (a1, a2, a3, a4) = (a.data1, a.data2, a.data3, a.data4);
        let (b1, b2, b3, b4) = (b.data1, b.data2, b.data3, b.data4);
        assert(((a1 as u128) << 96 | (a2 as u128) << 80 | (a3 as u128) << 64 | (a4 as u128))
            == ((b1 as u128) << 96 | (b2 as u128) << 80 | (b3 as u128) << 64 | (b4 as u128))
            ==> a1 == b1 && a2 == b2 && a3 == b3 && a4 == b4) by (bit_vector);
    }

    /// Cutting a value into fields and reading the fields back as a value
    /// gives the value again, and the other way round.
    pub proof fn law_fields_round_trip(value: u128, g: Guid)
        ensures
            Guid::cut(value)@ == value,
            Guid::cut(g@) == g,
    {
        assert((((value >> 96) as u32) as u128) << 96
            | ((((value >> 80) & 0xffff) as u16) as u128) << 80
            | ((((value >> 64) & 0xffff) as u16) as u128) << 64
            | ((value as u64) as u128) == value) by (bit_vector);
        let (g1, g2, g3, g4) = (g.data1, g.data2, g.data3, g.data4);
        let v = g@;
        assert(v == ((g1 as u128) << 96 | (g2 as u128) << 80 | (g3 as u128) << 64 | (g4 as u128))
            ==> (v >> 96) as u32 == g1 && ((v >> 80) & 0xffff) as u16 == g2
            && ((v >> 64) & 0xffff) as u16 == g3 && v as u64 == g4) by (bit_vector);
    }
}

} // verus!
