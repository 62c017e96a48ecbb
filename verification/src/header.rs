//! The header codec: the fixed 8-byte record header of every box, a 4-byte
//! big-endian size followed by a 4-byte tag.

use vstd::prelude::*;

use crate::boxtype::BoxType;
use crate::bytes::be_bytes_of_u32;
use crate::bytes::u32_of_be_bytes;
use crate::error::Error;
use crate::stream::ByteStream;

verus! {

/// The number of bytes a box header occupies, counted inside the box's own
/// declared size.
pub const HEADER_SIZE: u64 = 8;

/// The message carried by the structural error raised when a header declares
/// a size below the header's own length.
pub const UNDERSIZED_BOX_MSG: &'static str = "box header declares a size below the header length";

/// The serialized bytes of a header with the given raw tag and declared size.
pub open spec fn header_bytes(tag: u32, size: u64) -> Seq<u8> {
    be_bytes_of_u32(size as u32) + be_bytes_of_u32(tag)
}

/// A box header: the box's kind and its declared size, which counts the
/// 8-byte header itself. Invariant: a header read from a stream always
/// declares a size of at least [`HEADER_SIZE`].
#[derive(Debug, Clone, Copy, PartialEq, Eq, Structural)]
pub struct BoxHeader {
    pub name: BoxType,
    pub size: u64,
}

impl BoxHeader {
    /// A header with the given kind and declared size.
    pub fn new(name: BoxType, size: u64) -> (r: BoxHeader)
        ensures
            r == (BoxHeader { name, size }),
    {
        BoxHeader { name, size }
    }

    /// Reads one header, consuming exactly 8 bytes on success. A short read
    /// fails with an I/O error; a size field below the header length fails
    /// with a structural error, upholding the header invariant.
    pub fn read(stream: &mut ByteStream) -> (r: Result<BoxHeader, Error>)
        requires
            old(stream).wf(),
        ensures
            final(stream).wf(),
            final(stream).data@ == old(stream).data@,
            old(stream).pos + 8 > old(stream).data@.len() ==> r == Err::<BoxHeader, Error>(
                Error::UnexpectedEof,
            ),
            old(stream).pos + 8 <= old(stream).data@.len() ==> {
                let s = u32_of_be_bytes(
                    old(stream).data@.subrange(old(stream).pos as int, old(stream).pos + 4),
                );
                let t = u32_of_be_bytes(
                    old(stream).data@.subrange(old(stream).pos + 4, old(stream).pos + 8),
                );
                &&& final(stream).pos == old(stream).pos + 8
                &&& s >= 8 ==> r == Ok::<BoxHeader, Error>(
                    BoxHeader { name: BoxType::spec_from_u32(t), size: s as u64 },
                )
                &&& s < 8 ==> (r matches Err(e) && e matches Error::InvalidData(m) && m@
                    == UNDERSIZED_BOX_MSG@)
            },
    {
        if stream.remaining() < 8 {
            return Err(Error::UnexpectedEof);
        }
        let s32 = match stream.read_u32_be() {
            Ok(v) => v,
            Err(e) => { return Err(e) },
        };
        let t32 = match stream.read_u32_be() {
            Ok(v) => v,
            Err(e) => { return Err(e) },
        };
        if s32 < 8 {
            return Err(Error::InvalidData(UNDERSIZED_BOX_MSG));
        }
        Ok(BoxHeader { name: BoxType::from_u32(t32), size: s32 as u64 })
    }

    /// Writes the 8 header bytes: the 4-byte size, then the 4-byte tag. The
    /// caller answers for the size's correctness; nothing is validated here.
    pub fn write(&self, out: &mut Vec<u8>) -> (r: Result<u64, Error>)
        requires
            self.size <= u32::MAX as u64,
        ensures
            final(out)@ == old(out)@ + header_bytes(self.name.spec_to_u32(), self.size),
            r == Ok::<u64, Error>(HEADER_SIZE),
    {
        crate::bytes::append_u32_be(out, self.size as u32);
        crate::bytes::append_u32_be(out, self.name.to_u32());
        proof {
            assert(out@ =~= old(out)@ + header_bytes(self.name.spec_to_u32(), self.size));
        }
        Ok(HEADER_SIZE)
    }
}

} // verus!
