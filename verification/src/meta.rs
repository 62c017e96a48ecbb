//! The metadata box, the one sub-box kind the user-data container
//! recognizes: a full-box version/flags word and nothing further is modeled;
//! its own children, if any, are skipped over by the declared size.

use vstd::prelude::*;

use crate::boxtype::BoxType;
use crate::boxtype::META_TAG;
use crate::bytes::be_bytes_of_u32;
use crate::bytes::u32_of_be_bytes;
use crate::error::Error;
use crate::header::header_bytes;
use crate::header::BoxHeader;
use crate::header::HEADER_SIZE;
use crate::stream::box_start;
use crate::stream::skip_bytes_to;
use crate::stream::ByteStream;

verus! {

/// The declared size of a serialized metadata box as written here: the
/// 8-byte header plus the 4-byte version/flags word.
pub const META_BOX_SIZE: u64 = 12;

/// A metadata box: a format version and a 24-bit flag word.
#[derive(Debug, Clone, Copy, PartialEq, Eq, Structural)]
pub struct MetaBox {
    pub version: u8,
    pub flags: u32,
}

/// The metadata box a version/flags word decodes to: the top byte is the
/// version, the low 24 bits are the flags.
pub open spec fn meta_of_word(vf: u32) -> MetaBox {
    MetaBox { version: (vf / 0x1000000) as u8, flags: (vf % 0x1000000) as u32 }
}

impl MetaBox {
    /// Well formed: the flags fit their 24-bit field.
    pub open spec fn wf(&self) -> bool {
        self.flags < 0x1000000
    }

    /// The version/flags word this box is written as.
    pub open spec fn spec_word(&self) -> u32 {
        (self.version * 0x1000000 + self.flags) as u32
    }

    /// The full serialized bytes of this box: header, then the word.
    pub open spec fn spec_bytes(&self) -> Seq<u8> {
        header_bytes(META_TAG, META_BOX_SIZE) + be_bytes_of_u32(self.spec_word())
    }

    /// The kind of this box.
    pub fn box_type(&self) -> (r: BoxType)
        ensures
            r == BoxType::MetaBox,
    {
        BoxType::MetaBox
    }

    /// The declared size this box is written with.
    pub fn box_size(&self) -> (r: u64)
        ensures
            r == META_BOX_SIZE,
    {
        META_BOX_SIZE
    }

    /// Reads the box's content from a stream positioned just past its
    /// header, given its declared size, then repositions the cursor to the
    /// box's end. Fails with an I/O error when the word cannot be read whole
    /// or the box's declared end lies beyond the stream.
    pub fn read_box(stream: &mut ByteStream, size: u64) -> (r: Result<MetaBox, Error>)
        requires
            old(stream).wf(),
            old(stream).pos >= 8,
            8 <= size <= u32::MAX as u64,
        ensures
            final(stream).wf(),
            final(stream).data@ == old(stream).data@,
            ({
                let pos = old(stream).pos as int;
                let len = old(stream).data@.len() as int;
                if pos + 4 <= len && pos - 8 + size <= len {
                    let m = meta_of_word(u32_of_be_bytes(old(stream).data@.subrange(pos, pos + 4)));
                    &&& r == Ok::<MetaBox, Error>(m)
                    &&& m.wf()
                    &&& final(stream).pos == pos - 8 + size
                } else {
                    r == Err::<MetaBox, Error>(Error::UnexpectedEof)
                }
            }),
    {
        let start = box_start(stream);
        let vf = match stream.read_u32_be() {
            Ok(v) => v,
            Err(e) => { return Err(e) },
        };
        let version = (vf / 0x1000000) as u8;
        let flags = vf % 0x1000000;
        let len: usize = stream.data.len();
        if size > u64::MAX - start {
            proof {
                assert(len <= usize::MAX && len as u64 <= u64::MAX);
            }
            return Err(Error::UnexpectedEof);
        }
        match skip_bytes_to(stream, start + size) {
            Ok(_) => Ok(MetaBox { version, flags }),
            Err(e) => Err(e),
        }
    }

    /// Writes the box whole: header with this kind's tag and size, then the
    /// version/flags word. Returns the declared size, which equals the
    /// number of bytes appended.
    pub fn write_box(&self, out: &mut Vec<u8>) -> (r: Result<u64, Error>)
        requires
            self.wf(),
        ensures
            final(out)@ == old(out)@ + self.spec_bytes(),
            final(out)@.len() == old(out)@.len() + META_BOX_SIZE,
            r == Ok::<u64, Error>(META_BOX_SIZE),
    {
        let header = BoxHeader::new(BoxType::MetaBox, META_BOX_SIZE);
        match header.write(out) {
            Ok(_) => (),
            Err(e) => { return Err(e) },
        }
        let word = (self.version as u32) * 0x1000000 + self.flags;
        crate::bytes::append_u32_be(out, word);
        proof {
            assert(out@ =~= old(out)@ + self.spec_bytes());
        }
        Ok(META_BOX_SIZE)
    }
}

/// Decoding the version/flags word a well-formed metadata box is written as
/// gives the box back.
pub proof fn lemma_word_roundtrip(m: MetaBox)
    requires
        m.wf(),
    ensures
        meta_of_word(m.spec_word()) == m,
{
    let w = m.spec_word();
    assert(w == m.version * 0x1000000 + m.flags);
    vstd::arithmetic::div_mod::lemma_fundamental_div_mod_converse(
        w as int,
        0x1000000,
        m.version as int,
        m.flags as int,
    );
}

impl Default for MetaBox {
    /// The default metadata box: version zero, no flags.
    fn default() -> (r: MetaBox)
        ensures
            r == (MetaBox { version: 0u8, flags: 0u32 }),
            r.wf(),
    {
        MetaBox { version: 0, flags: 0 }
    }
}

} // verus!
