//! The type-tag registry: raw four-character codes mapped to the closed set
//! of recognized box kinds, with an explicit fallback for everything else.

use vstd::prelude::*;

verus! {

/// Raw code of the user-data container box, the characters `udta`.
pub const UDTA_TAG: u32 = 0x75647461;

/// Raw code of the metadata box, the characters `meta`.
pub const META_TAG: u32 = 0x6d657461;

/// A box kind: one of the recognized tags, or the unrecognized fallback
/// carrying the raw code.
#[derive(Debug, Clone, Copy, PartialEq, Eq, Structural)]
pub enum BoxType {
    UdtaBox,
    MetaBox,
    UnknownBox(u32),
}

/// The four characters a raw tag displays as, one per big-endian byte.
pub open spec fn fourcc_chars(t: u32) -> Seq<char> {
    seq![
        ((t / 0x1000000) as u8) as char,
        (((t / 0x10000) % 0x100) as u8) as char,
        (((t / 0x100) % 0x100) as u8) as char,
        ((t % 0x100) as u8) as char,
    ]
}

/// Relies on `String::push`: appends the one character to the string.
#[verifier::external_body]
fn push_char(s: &mut String, c: char)
    ensures
        final(s)@ == old(s)@.push(c),
{
    s.push(c);
}

impl BoxType {
    /// The kind a raw code dispatches to.
    pub open spec fn spec_from_u32(t: u32) -> BoxType {
        if t == UDTA_TAG {
            BoxType::UdtaBox
        } else if t == META_TAG {
            BoxType::MetaBox
        } else {
            BoxType::UnknownBox(t)
        }
    }

    /// The raw code a kind is written as.
    pub open spec fn spec_to_u32(self) -> u32 {
        match self {
            BoxType::UdtaBox => UDTA_TAG,
            BoxType::MetaBox => META_TAG,
            BoxType::UnknownBox(t) => t,
        }
    }

    /// Dispatches a raw code to its recognized kind, or to the fallback.
    pub fn from_u32(t: u32) -> (r: BoxType)
        ensures
            r == BoxType::spec_from_u32(t),
    {
        if t == UDTA_TAG {
            BoxType::UdtaBox
        } else if t == META_TAG {
            BoxType::MetaBox
        } else {
            BoxType::UnknownBox(t)
        }
    }

    /// The raw code of this kind.
    pub fn to_u32(self) -> (r: u32)
        ensures
            r == self.spec_to_u32(),
    {
        match self {
            BoxType::UdtaBox => UDTA_TAG,
            BoxType::MetaBox => META_TAG,
            BoxType::UnknownBox(t) => t,
        }
    }

    /// The four tag characters of this kind, one per byte of the raw code.
    pub fn to_string(&self) -> (r: String)
        ensures
            r@ == fourcc_chars(self.spec_to_u32()),
    {
        let t = self.to_u32();
        let mut s = String::new();
        push_char(&mut s, (t / 0x1000000) as u8 as char);
        push_char(&mut s, ((t / 0x10000) % 0x100) as u8 as char);
        push_char(&mut s, ((t / 0x100) % 0x100) as u8 as char);
        push_char(&mut s, (t % 0x100) as u8 as char);
        proof {
            assert(s@ =~= fourcc_chars(t));
        }
        s
    }
}

} // verus!
