//! The user-data container box: reads a bounded stream region as a sequence
//! of child boxes, decoding the one recognized kind into its slot and
//! capturing every other kind as an opaque child; writes itself back out
//! from its structured state alone.

use vstd::prelude::*;

use crate::boxtype::fourcc_chars;
use crate::boxtype::BoxType;
use crate::boxtype::META_TAG;
use crate::boxtype::UDTA_TAG;
use crate::bytes::u32_of_be_bytes;
use crate::error::Error;
use crate::header::header_bytes;
use crate::header::BoxHeader;
use crate::header::HEADER_SIZE;
use crate::header::UNDERSIZED_BOX_MSG;
use crate::meta::meta_of_word;
use crate::meta::MetaBox;
use crate::meta::META_BOX_SIZE;
use crate::stream::box_start;
use crate::stream::skip_bytes_to;
use crate::stream::ByteStream;

verus! {

/// The message carried by the structural error raised when a child declares
/// a size above the declared size of the container holding it.
pub const OVERSIZED_CHILD_MSG: &'static str = "udta box contains a box with a larger size than it";

/// A child box of a kind the schema does not model: its tag characters, its
/// declared size, and its raw payload of `size - 8` bytes, kept verbatim.
#[derive(Debug, Clone, Default)]
pub struct UserDefinedBox {
    pub name: String,
    pub size: u64,
    pub data: Vec<u8>,
}

/// The user-data container: at most one metadata box, plus every
/// unrecognized child in encounter order.
#[derive(Debug, Clone, Default)]
pub struct UdtaBox {
    pub meta: Option<MetaBox>,
    pub children: Vec<UserDefinedBox>,
}

/// Mathematical view of an opaque child.
pub ghost struct OpaqueModel {
    pub name: Seq<char>,
    pub size: u64,
    pub data: Seq<u8>,
}

/// Mathematical view of the container.
pub ghost struct UdtaModel {
    pub meta: Option<MetaBox>,
    pub children: Seq<OpaqueModel>,
}

impl View for UserDefinedBox {
    type V = OpaqueModel;

    open spec fn view(&self) -> OpaqueModel {
        OpaqueModel { name: self.name@, size: self.size, data: self.data@ }
    }
}

/// The views of a sequence of opaque children, in order.
pub open spec fn children_models(s: Seq<UserDefinedBox>) -> Seq<OpaqueModel> {
    s.map_values(|c: UserDefinedBox| c@)
}

impl View for UdtaBox {
    type V = UdtaModel;

    open spec fn view(&self) -> UdtaModel {
        UdtaModel { meta: self.meta, children: children_models(self.children@) }
    }
}

impl UdtaModel {
    /// Well formed: the known sub-box, when present, is itself well formed.
    pub open spec fn wf(&self) -> bool {
        match self.meta {
            Some(m) => m.wf(),
            None => true,
        }
    }
}

/// The container's computed size: the bare header plus the known sub-box
/// when present. Opaque children are deliberately excluded: they are
/// surfaced for inspection, not persisted.
pub open spec fn spec_size(u: UdtaModel) -> u64 {
    if u.meta is Some {
        (HEADER_SIZE + META_BOX_SIZE) as u64
    } else {
        HEADER_SIZE
    }
}

/// The bytes a container writes: its header carrying the computed size,
/// then the known sub-box's encoding when present.
pub open spec fn spec_bytes(u: UdtaModel) -> Seq<u8> {
    header_bytes(UDTA_TAG, spec_size(u)) + (match u.meta {
        Some(m) => m.spec_bytes(),
        None => Seq::<u8>::empty(),
    })
}

/// Result of scanning a container's child region.
pub ghost enum ScanResult {
    /// Every child up to the region's end was consumed.
    Found { meta: Option<MetaBox>, children: Seq<OpaqueModel> },
    /// A child's bytes, or its header, ran past the end of the stream.
    Truncated,
    /// A child header declared a size below the header length.
    UndersizedChild,
    /// A child header declared a size above the container's declared size.
    OversizedChild,
}

/// One pass over the child region of a container: `pos` is the offset of the
/// next child header, `end` the offset of the container's declared end,
/// `csize` its declared size; `meta` and `children` accumulate what earlier
/// children produced. Mirrors the reader loop exactly, including the
/// parent-bound check against the container's whole declared size.
pub open spec fn scan_children(
    data: Seq<u8>,
    pos: int,
    end: int,
    csize: u64,
    meta: Option<MetaBox>,
    children: Seq<OpaqueModel>,
) -> ScanResult
    decreases (if end - pos > 0 { end - pos } else { 0 }),
{
    if pos >= end {
        ScanResult::Found { meta, children }
    } else if pos + 8 > data.len() {
        ScanResult::Truncated
    } else {
        let s = u32_of_be_bytes(data.subrange(pos, pos + 4)) as int;
        let t = u32_of_be_bytes(data.subrange(pos + 4, pos + 8));
        if s < 8 {
            ScanResult::UndersizedChild
        } else if s > csize {
            ScanResult::OversizedChild
        } else if t == META_TAG {
            if pos + 12 <= data.len() && pos + s <= data.len() {
                scan_children(
                    data,
                    pos + s,
                    end,
                    csize,
                    Some(meta_of_word(u32_of_be_bytes(data.subrange(pos + 8, pos + 12)))),
                    children,
                )
            } else {
                ScanResult::Truncated
            }
        } else {
            if pos + s <= data.len() {
                scan_children(
                    data,
                    pos + s,
                    end,
                    csize,
                    meta,
                    children.push(
                        OpaqueModel {
                            name: fourcc_chars(t),
                            size: s as u64,
                            data: data.subrange(pos + 8, pos + s),
                        },
                    ),
                )
            } else {
                ScanResult::Truncated
            }
        }
    }
}

/// Compares two byte buffers for equality of contents.
fn vec_u8_eq(a: &Vec<u8>, b: &Vec<u8>) -> (r: bool)
    ensures
        r == (a@ == b@),
{
    if a.len() != b.len() {
        return false;
    }
    let mut i: usize = 0;
    while i < a.len()
        invariant
            i <= a@.len(),
            a@.len() == b@.len(),
            forall|j: int| 0 <= j < i ==> a@[j] == b@[j],
        decreases a@.len() - i,
    {
        if a[i] != b[i] {
            return false;
        }
        i = i + 1;
    }
    proof {
        assert(a@ =~= b@);
    }
    true
}

impl PartialEq for UserDefinedBox {
    fn eq(&self, other: &Self) -> (r: bool) {
        self.name == other.name && self.size == other.size && vec_u8_eq(&self.data, &other.data)
    }
}

impl vstd::std_specs::cmp::PartialEqSpecImpl for UserDefinedBox {
    open spec fn obeys_eq_spec() -> bool {
        true
    }

    open spec fn eq_spec(&self, other: &Self) -> bool {
        self@ == other@
    }
}

impl PartialEq for UdtaBox {
    fn eq(&self, other: &Self) -> (r: bool) {
        let meta_eq = match (&self.meta, &other.meta) {
            (Some(a), Some(b)) => *a == *b,
            (None, None) => true,
            _ => false,
        };
        if !meta_eq {
            proof {
                assert(self.meta != other.meta);
                assert(self@.meta != other@.meta);
                assert(self@ != other@);
            }
            return false;
        }
        if self.children.len() != other.children.len() {
            proof {
                assert(children_models(self.children@).len() != children_models(
                    other.children@,
                ).len());
                assert(self@ != other@);
            }
            return false;
        }
        let mut i: usize = 0;
        while i < self.children.len()
            invariant
                i <= self.children@.len(),
                self.children@.len() == other.children@.len(),
                self.meta == other.meta,
                forall|j: int| 0 <= j < i ==> self.children@[j]@ == other.children@[j]@,
            decreases self.children@.len() - i,
        {
            let a = &self.children[i];
            if !a.eq(&other.children[i]) {
                proof {
                    assert(children_models(self.children@)[i as int] == self.children@[i as int]@);
                    assert(children_models(other.children@)[i as int] == other.children@[
                        i as int
                    ]@);
                    assert(children_models(self.children@) != children_models(other.children@));
                    assert(self@ != other@);
                }
                return false;
            }
            i = i + 1;
        }
        proof {
            assert(children_models(self.children@) =~= children_models(other.children@));
        }
        true
    }
}

impl vstd::std_specs::cmp::PartialEqSpecImpl for UdtaBox {
    open spec fn obeys_eq_spec() -> bool {
        true
    }

    open spec fn eq_spec(&self, other: &Self) -> bool {
        self@ == other@
    }
}

proof fn lemma_children_models_push(s: Seq<UserDefinedBox>, c: UserDefinedBox)
    ensures
        children_models(s.push(c)) == children_models(s).push(c@),
{
    assert(children_models(s.push(c)) =~= children_models(s).push(c@));
}

impl UdtaBox {
    /// Well formed: the known sub-box, when present, is well formed.
    pub open spec fn wf(&self) -> bool {
        self@.wf()
    }

    /// The kind of this container.
    pub fn get_type(&self) -> (r: BoxType)
        ensures
            r == BoxType::UdtaBox,
    {
        BoxType::UdtaBox
    }

    /// The container's computed size: header plus known sub-box, opaque
    /// children excluded.
    pub fn get_size(&self) -> (r: u64)
        ensures
            r == spec_size(self@),
    {
        let mut size = HEADER_SIZE;
        if let Some(meta) = &self.meta {
            size = size + meta.box_size();
        }
        size
    }

    /// The opaque children captured by the last read, in encounter order.
    pub fn get_children(&self) -> (r: &Vec<UserDefinedBox>)
        ensures
            r@ == self.children@,
    {
        &self.children
    }

    /// The kind of this container.
    pub fn box_type(&self) -> (r: BoxType)
        ensures
            r == BoxType::UdtaBox,
    {
        self.get_type()
    }

    /// The container's computed size.
    pub fn box_size(&self) -> (r: u64)
        ensures
            r == spec_size(self@),
    {
        self.get_size()
    }

    /// The single-line human-readable description of this container kind:
    /// intentionally empty.
    pub fn summary(&self) -> (r: Result<String, Error>)
        ensures
            r matches Ok(s) && s@ == Seq::<char>::empty(),
    {
        Ok(String::new())
    }

    /// Reads a container from a stream positioned just past its header,
    /// given its declared size. Children are read until the declared end;
    /// each child header is bound-checked against the container's whole
    /// declared size; the recognized kind lands in the known slot
    /// (last occurrence wins), every other kind is captured opaquely. On
    /// success the cursor is forced to exactly `start + size`. Any failure
    /// aborts with no partial container: short reads with an I/O error,
    /// bound violations with a structural error, exactly as the scan of the
    /// same bytes says.
    #[verifier::rlimit(100)]
    pub fn read_box(stream: &mut ByteStream, size: u64) -> (r: Result<UdtaBox, Error>)
        requires
            old(stream).wf(),
            old(stream).pos >= 8,
            8 <= size <= u32::MAX as u64,
        ensures
            final(stream).wf(),
            final(stream).data@ == old(stream).data@,
            match scan_children(
                old(stream).data@,
                old(stream).pos as int,
                old(stream).pos - 8 + size,
                size,
                None,
                Seq::<OpaqueModel>::empty(),
            ) {
                ScanResult::Found { meta, children } => (r matches Ok(u) && u@ == (UdtaModel {
                    meta,
                    children,
                }) && final(stream).pos == old(stream).pos - 8 + size),
                ScanResult::Truncated => r == Err::<UdtaBox, Error>(Error::UnexpectedEof),
                ScanResult::UndersizedChild => (r matches Err(e) && e matches Error::InvalidData(m)
                    && m@ == UNDERSIZED_BOX_MSG@),
                ScanResult::OversizedChild => (r matches Err(e) && e matches Error::InvalidData(m)
                    && m@ == OVERSIZED_CHILD_MSG@),
            },
    {
        let start: u64 = box_start(stream);
        let ghost data0 = stream.data@;
        let ghost end_i: int = start as int + size as int;
        let ghost g0 = scan_children(
            data0,
            old(stream).pos as int,
            end_i,
            size,
            None,
            Seq::<OpaqueModel>::empty(),
        );

        let mut meta: Option<MetaBox> = None;
        let mut children: Vec<UserDefinedBox> = Vec::new();

        let mut current: usize = stream.stream_position();
        let end: u128 = (start as u128) + (size as u128);
        proof {
            assert(children_models(children@) =~= Seq::<OpaqueModel>::empty());
        }
        while (current as u128) < end
            invariant
                stream.wf(),
                stream.data@ == data0,
                data0 == old(stream).data@,
                current == stream.pos,
                8 <= size <= u32::MAX as u64,
                end == (start as u128) + (size as u128),
                end_i == start as int + size as int,
                end_i == old(stream).pos - 8 + size,
                g0 == scan_children(
                    data0,
                    old(stream).pos as int,
                    end_i,
                    size,
                    None,
                    Seq::<OpaqueModel>::empty(),
                ),
                scan_children(
                    data0,
                    current as int,
                    end_i,
                    size,
                    meta,
                    children_models(children@),
                ) == g0,
            decreases (if end_i - current > 0 {
                end_i - current
            } else {
                0
            }),
        {
            let ghost meta0 = meta;
            let ghost ch0 = children_models(children@);
            let header = match BoxHeader::read(stream) {
                Ok(h) => h,
                Err(e) => { return Err(e) },
            };
            let s = header.size;
            if s > size {
                return Err(Error::InvalidData(OVERSIZED_CHILD_MSG));
            }
            match header.name {
                BoxType::MetaBox => {
                    let m = match MetaBox::read_box(stream, s) {
                        Ok(m) => m,
                        Err(e) => { return Err(e) },
                    };
                    meta = Some(m);
                    proof {
                        assert(scan_children(data0, current as int, end_i, size, meta0, ch0)
                            == scan_children(
                            data0,
                            current as int + s as int,
                            end_i,
                            size,
                            meta,
                            ch0,
                        ));
                    }
                },
                _ => {
                    let n = (s - 8) as usize;
                    let payload = match stream.read_bytes(n) {
                        Ok(v) => v,
                        Err(e) => { return Err(e) },
                    };
                    let name_s = header.name.to_string();
                    let ud = UserDefinedBox { name: name_s, size: s, data: payload };
                    proof {
                        let ghost t = u32_of_be_bytes(
                            data0.subrange(current + 4, current as int + 8),
                        );
                        assert(ud@ == (OpaqueModel {
                            name: fourcc_chars(t),
                            size: s,
                            data: data0.subrange(current + 8, current as int + s as int),
                        }));
                        lemma_children_models_push(children@, ud);
                        assert(scan_children(data0, current as int, end_i, size, meta0, ch0)
                            == scan_children(
                            data0,
                            current as int + s as int,
                            end_i,
                            size,
                            meta,
                            ch0.push(ud@),
                        ));
                    }
                    children.push(ud);
                },
            }
            current = stream.stream_position();
        }
        proof {
            assert(current as int >= end_i);
            assert(scan_children(data0, current as int, end_i, size, meta, children_models(children@))
                == (ScanResult::Found { meta, children: children_models(children@) }));
            assert(g0 == (ScanResult::Found { meta, children: children_models(children@) }));
        }
        let target: u64 = end as u64;
        match skip_bytes_to(stream, target) {
            Ok(_) => (),
            Err(e) => { return Err(e) },
        }
        Ok(UdtaBox { meta, children })
    }

    /// Writes the container from its structured state alone: a header with
    /// the freshly computed size, then the known sub-box when present.
    /// Opaque children are never re-emitted. Returns the computed size,
    /// which equals the number of bytes appended.
    pub fn write_box(&self, out: &mut Vec<u8>) -> (r: Result<u64, Error>)
        requires
            self.wf(),
        ensures
            final(out)@ == old(out)@ + spec_bytes(self@),
            final(out)@.len() == old(out)@.len() + spec_size(self@),
            r == Ok::<u64, Error>(spec_size(self@)),
    {
        let size = self.box_size();
        let header = BoxHeader::new(self.box_type(), size);
        match header.write(out) {
            Ok(_) => (),
            Err(e) => { return Err(e) },
        }
        if let Some(meta) = &self.meta {
            match meta.write_box(out) {
                Ok(_) => (),
                Err(e) => { return Err(e) },
            }
        }
        proof {
            assert(out@ =~= old(out)@ + spec_bytes(self@));
        }
        Ok(size)
    }
}

/// The container one write-then-read cycle leaves behind: the known slot
/// survives, opaque children do not.
pub open spec fn written_then_read(u: UdtaModel) -> UdtaModel {
    UdtaModel { meta: u.meta, children: Seq::<OpaqueModel>::empty() }
}

/// Write-then-read round trip: scanning the bytes a well-formed container
/// writes, over a region of exactly its computed size, recovers its known
/// slot and no opaque children, whatever opaque children it held in memory.
pub proof fn lemma_write_read_roundtrip(u: UdtaModel)
    requires
        u.wf(),
    ensures
        scan_children(
            spec_bytes(u),
            8,
            spec_size(u) as int,
            spec_size(u),
            None,
            Seq::<OpaqueModel>::empty(),
        ) == (ScanResult::Found {
            meta: written_then_read(u).meta,
            children: written_then_read(u).children,
        }),
{
    let bytes = spec_bytes(u);
    match u.meta {
        None => {
            assert(spec_size(u) == 8);
        },
        Some(m) => {
            crate::meta::lemma_word_roundtrip(m);
            assert(spec_size(u) == 20);
            assert(bytes.len() == 20);
            assert(bytes.subrange(8, 12) =~= crate::bytes::be_bytes_of_u32(META_BOX_SIZE as u32));
            assert(bytes.subrange(12, 16) =~= crate::bytes::be_bytes_of_u32(META_TAG));
            assert(bytes.subrange(16, 20) =~= crate::bytes::be_bytes_of_u32(m.spec_word()));
            crate::bytes::lemma_u32_be_roundtrip(META_BOX_SIZE as u32);
            crate::bytes::lemma_u32_be_roundtrip(META_TAG);
            crate::bytes::lemma_u32_be_roundtrip(m.spec_word());
            assert(scan_children(bytes, 8, 20, 20u64, None, Seq::<OpaqueModel>::empty())
                == scan_children(bytes, 20, 20, 20u64, Some(m), Seq::<OpaqueModel>::empty()));
        },
    }
}

/// Size accounting: the bytes a container writes are exactly as many as its
/// computed size reports, for every container.
pub proof fn lemma_bytes_length_matches_size(u: UdtaModel)
    ensures
        spec_bytes(u).len() == spec_size(u),
{
}

/// The empty container: its computed size is the bare header, its bytes are
/// exactly that many, and reading them back gives the empty container again.
pub proof fn lemma_empty_container_roundtrip()
    ensures
        ({
            let u = UdtaModel { meta: None, children: Seq::<OpaqueModel>::empty() };
            &&& spec_size(u) == HEADER_SIZE
            &&& spec_bytes(u).len() == HEADER_SIZE
            &&& scan_children(
                spec_bytes(u),
                8,
                spec_size(u) as int,
                spec_size(u),
                None,
                Seq::<OpaqueModel>::empty(),
            ) == (ScanResult::Found { meta: None, children: Seq::<OpaqueModel>::empty() })
        }),
{
    let u = UdtaModel { meta: None, children: Seq::<OpaqueModel>::empty() };
    lemma_write_read_roundtrip(u);
}

/// A container holding a default-valued known sub-box: its computed size is
/// the header plus the sub-box's size, and reading its bytes back gives the
/// same container.
pub proof fn lemma_default_meta_roundtrip()
    ensures
        ({
            let m = MetaBox { version: 0u8, flags: 0u32 };
            let u = UdtaModel { meta: Some(m), children: Seq::<OpaqueModel>::empty() };
            &&& spec_size(u) == HEADER_SIZE + META_BOX_SIZE
            &&& spec_bytes(u).len() == HEADER_SIZE + META_BOX_SIZE
            &&& scan_children(
                spec_bytes(u),
                8,
                spec_size(u) as int,
                spec_size(u),
                None,
                Seq::<OpaqueModel>::empty(),
            ) == (ScanResult::Found { meta: Some(m), children: Seq::<OpaqueModel>::empty() })
        }),
{
    let m = MetaBox { version: 0u8, flags: 0u32 };
    let u = UdtaModel { meta: Some(m), children: Seq::<OpaqueModel>::empty() };
    lemma_write_read_roundtrip(u);
}

/// Unknown-tag capture: scanning a region holding one recognized sub-box
/// followed by one box of an unrecognized tag yields exactly one opaque
/// child, carrying that tag's characters, a declared size of payload plus
/// header, and the payload verbatim; and the computed size of the container
/// that results excludes the opaque child entirely.
pub proof fn lemma_unknown_tag_capture(m: MetaBox, tag: u32, payload: Seq<u8>)
    requires
        m.wf(),
        tag != META_TAG,
        28 + payload.len() <= u32::MAX,
    ensures
        ({
            let csize = (28 + payload.len()) as u64;
            let bytes = header_bytes(UDTA_TAG, csize) + m.spec_bytes() + header_bytes(
                tag,
                (8 + payload.len()) as u64,
            ) + payload;
            let child = OpaqueModel {
                name: fourcc_chars(tag),
                size: (8 + payload.len()) as u64,
                data: payload,
            };
            &&& scan_children(bytes, 8, csize as int, csize, None, Seq::<OpaqueModel>::empty())
                == (ScanResult::Found { meta: Some(m), children: seq![child] })
            &&& spec_size(UdtaModel { meta: Some(m), children: seq![child] }) == HEADER_SIZE
                + META_BOX_SIZE
        }),
{
    let n = payload.len() as int;
    let csize = (28 + payload.len()) as u64;
    let s2 = (8 + payload.len()) as u64;
    let bytes = header_bytes(UDTA_TAG, csize) + m.spec_bytes() + header_bytes(tag, s2) + payload;
    let child = OpaqueModel { name: fourcc_chars(tag), size: s2, data: payload };
    crate::meta::lemma_word_roundtrip(m);
    assert(bytes.len() == 28 + n);
    assert(bytes.subrange(8, 12) =~= crate::bytes::be_bytes_of_u32(META_BOX_SIZE as u32));
    assert(bytes.subrange(12, 16) =~= crate::bytes::be_bytes_of_u32(META_TAG));
    assert(bytes.subrange(16, 20) =~= crate::bytes::be_bytes_of_u32(m.spec_word()));
    assert(bytes.subrange(20, 24) =~= crate::bytes::be_bytes_of_u32(s2 as u32));
    assert(bytes.subrange(24, 28) =~= crate::bytes::be_bytes_of_u32(tag));
    assert(bytes.subrange(28, 28 + n) =~= payload);
    crate::bytes::lemma_u32_be_roundtrip(META_BOX_SIZE as u32);
    crate::bytes::lemma_u32_be_roundtrip(META_TAG);
    crate::bytes::lemma_u32_be_roundtrip(m.spec_word());
    crate::bytes::lemma_u32_be_roundtrip(s2 as u32);
    crate::bytes::lemma_u32_be_roundtrip(tag);
    assert(scan_children(bytes, 8, csize as int, csize, None, Seq::<OpaqueModel>::empty())
        == scan_children(bytes, 20, csize as int, csize, Some(m), Seq::<OpaqueModel>::empty()));
    assert(Seq::<OpaqueModel>::empty().push(child) =~= seq![child]);
    assert(scan_children(bytes, 20, csize as int, csize, Some(m), Seq::<OpaqueModel>::empty())
        == scan_children(bytes, 28 + n, csize as int, csize, Some(m), seq![child]));
}

/// Idempotence: one write-then-read cycle is a fixed point. The container a
/// first cycle produces comes back unchanged from a second cycle.
pub proof fn lemma_second_cycle_fixed_point(u: UdtaModel)
    requires
        u.wf(),
    ensures
        written_then_read(written_then_read(u)) == written_then_read(u),
        scan_children(
            spec_bytes(written_then_read(u)),
            8,
            spec_size(written_then_read(u)) as int,
            spec_size(written_then_read(u)),
            None,
            Seq::<OpaqueModel>::empty(),
        ) == (ScanResult::Found {
            meta: written_then_read(u).meta,
            children: written_then_read(u).children,
        }),
{
    lemma_write_read_roundtrip(written_then_read(u));
}

} // verus!
