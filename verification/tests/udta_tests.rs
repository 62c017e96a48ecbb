use mp4box::boxtype::BoxType;
use mp4box::error::Error;
use mp4box::header::BoxHeader;
use mp4box::meta::MetaBox;
use mp4box::stream::ByteStream;
use mp4box::udta::UdtaBox;
use mp4box::udta::UserDefinedBox;

#[test]
fn test_udta_empty() {
    let src_box = UdtaBox { meta: None, children: Vec::new() };

    let mut buf: Vec<u8> = Vec::new();
    src_box.write_box(&mut buf).unwrap();
    assert_eq!(buf.len(), src_box.box_size() as usize);

    let mut reader = ByteStream::new(buf);
    let header = BoxHeader::read(&mut reader).unwrap();
    assert_eq!(header.name, BoxType::UdtaBox);
    assert_eq!(header.size, src_box.box_size());

    let dst_box = UdtaBox::read_box(&mut reader, header.size).unwrap();
    assert_eq!(dst_box, src_box);
}

#[test]
fn test_udta() {
    let src_box = UdtaBox {
        meta: Some(MetaBox::default()),
        children: Vec::new(),
    };

    let mut buf: Vec<u8> = Vec::new();
    src_box.write_box(&mut buf).unwrap();
    assert_eq!(buf.len(), src_box.box_size() as usize);

    let mut reader = ByteStream::new(buf);
    let header = BoxHeader::read(&mut reader).unwrap();
    assert_eq!(header.name, BoxType::UdtaBox);
    assert_eq!(header.size, src_box.box_size());

    let dst_box = UdtaBox::read_box(&mut reader, header.size).unwrap();
    assert_eq!(dst_box, src_box);
}

#[test]
fn test_empty_container_exact_bytes() {
    let src_box = UdtaBox { meta: None, children: Vec::new() };
    assert_eq!(src_box.get_size(), 8);
    let mut buf: Vec<u8> = Vec::new();
    let written = src_box.write_box(&mut buf).unwrap();
    assert_eq!(written, 8);
    assert_eq!(buf, vec![0, 0, 0, 8, b'u', b'd', b't', b'a']);
}

#[test]
fn test_default_meta_size_accounting() {
    let src_box = UdtaBox {
        meta: Some(MetaBox::default()),
        children: Vec::new(),
    };
    // computed size = header + known sub-box size
    assert_eq!(src_box.get_size(), 8 + MetaBox::default().box_size());
    let mut buf: Vec<u8> = Vec::new();
    let written = src_box.write_box(&mut buf).unwrap();
    assert_eq!(written, 20);
    assert_eq!(buf.len(), 20);
    assert_eq!(
        buf,
        vec![
            0, 0, 0, 20, b'u', b'd', b't', b'a', // container header
            0, 0, 0, 12, b'm', b'e', b't', b'a', // sub-box header
            0, 0, 0, 0, // version and flags
        ]
    );
}

#[test]
fn test_oversized_child_rejected() {
    // container declares size 24; its child declares 200, which cannot fit
    let bytes = vec![
        0, 0, 0, 24, b'u', b'd', b't', b'a', // container header
        0, 0, 0, 200, b'f', b'r', b'e', b'e', // child header, oversized
        1, 2, 3, 4, 5, 6, 7, 8, // child payload
    ];
    let mut reader = ByteStream::new(bytes);
    let header = BoxHeader::read(&mut reader).unwrap();
    let err = UdtaBox::read_box(&mut reader, header.size).unwrap_err();
    assert!(matches!(err, Error::InvalidData(_)));
}

#[test]
fn test_undersized_child_rejected() {
    // the child header declares size 4, below the 8 bytes a header occupies
    let bytes = vec![
        0, 0, 0, 16, b'u', b'd', b't', b'a', // container header
        0, 0, 0, 4, b'f', b'r', b'e', b'e', // child header, undersized
    ];
    let mut reader = ByteStream::new(bytes);
    let header = BoxHeader::read(&mut reader).unwrap();
    let err = UdtaBox::read_box(&mut reader, header.size).unwrap_err();
    assert!(matches!(err, Error::InvalidData(_)));
}

#[test]
fn test_truncated_child_payload() {
    // the child declares 16 bytes but the stream ends after its header
    let bytes = vec![
        0, 0, 0, 24, b'u', b'd', b't', b'a', // container header
        0, 0, 0, 16, b'f', b'r', b'e', b'e', // child header
    ];
    let mut reader = ByteStream::new(bytes);
    let header = BoxHeader::read(&mut reader).unwrap();
    let err = UdtaBox::read_box(&mut reader, header.size).unwrap_err();
    assert_eq!(err, Error::UnexpectedEof);
}

#[test]
fn test_unknown_tag_capture() {
    // one recognized sub-box, then one unrecognized box with 4 payload bytes
    let bytes = vec![
        0, 0, 0, 32, b'u', b'd', b't', b'a', // container header
        0, 0, 0, 12, b'm', b'e', b't', b'a', // recognized sub-box
        0, 0, 0, 0, // version and flags
        0, 0, 0, 12, b'a', b'b', b'c', b'd', // unrecognized box
        9, 8, 7, 6, // its payload
    ];
    let mut reader = ByteStream::new(bytes);
    let header = BoxHeader::read(&mut reader).unwrap();
    let dst_box = UdtaBox::read_box(&mut reader, header.size).unwrap();

    assert_eq!(dst_box.meta, Some(MetaBox { version: 0, flags: 0 }));
    let children = dst_box.get_children();
    assert_eq!(children.len(), 1);
    assert_eq!(children[0].name, "abcd");
    assert_eq!(children[0].size, 12); // payload length 4, plus the header
    assert_eq!(children[0].data, vec![9, 8, 7, 6]);

    // re-serializing excludes the opaque child entirely: this is the
    // intended lossy write-back, not a defect
    let mut out: Vec<u8> = Vec::new();
    let written = dst_box.write_box(&mut out).unwrap();
    assert_eq!(written, 20); // 8 + known sub-box size only
    assert_eq!(out.len(), 20);
    assert_eq!(dst_box.get_size(), 20);
}

#[test]
fn test_stream_position_after_read() {
    // the final child's declared size runs past the container's declared
    // end; after a successful read the cursor still sits at exactly
    // start + declared size, the trailing bytes left unconsumed
    let bytes = vec![
        0, 0, 0, 20, b'u', b'd', b't', b'a', // container declares 20
        0, 0, 0, 16, b'f', b'r', b'e', b'e', // child declares 16: ends at 24
        1, 2, 3, 4, 5, 6, 7, 8, // child payload
    ];
    let mut reader = ByteStream::new(bytes);
    let header = BoxHeader::read(&mut reader).unwrap();
    assert_eq!(header.size, 20);
    let dst_box = UdtaBox::read_box(&mut reader, header.size).unwrap();
    assert_eq!(reader.stream_position(), 20);
    assert_eq!(dst_box.get_children().len(), 1);
    assert_eq!(dst_box.get_children()[0].data, vec![1, 2, 3, 4, 5, 6, 7, 8]);
}

#[test]
fn test_stream_position_exact_fit() {
    let src_box = UdtaBox {
        meta: Some(MetaBox { version: 1, flags: 7 }),
        children: Vec::new(),
    };
    let mut buf: Vec<u8> = Vec::new();
    src_box.write_box(&mut buf).unwrap();
    let mut reader = ByteStream::new(buf);
    let header = BoxHeader::read(&mut reader).unwrap();
    UdtaBox::read_box(&mut reader, header.size).unwrap();
    assert_eq!(reader.stream_position(), 20);
}

#[test]
fn test_second_cycle_fixed_point() {
    // a container holding an opaque child in memory: the first cycle drops
    // the child, and a second cycle reproduces the first's result exactly
    let src_box = UdtaBox {
        meta: Some(MetaBox { version: 2, flags: 0x00F0F0 }),
        children: vec![UserDefinedBox {
            name: String::from("abcd"),
            size: 10,
            data: vec![1, 2],
        }],
    };

    let mut buf1: Vec<u8> = Vec::new();
    src_box.write_box(&mut buf1).unwrap();
    let mut reader1 = ByteStream::new(buf1);
    let header1 = BoxHeader::read(&mut reader1).unwrap();
    let cycle1 = UdtaBox::read_box(&mut reader1, header1.size).unwrap();

    assert_eq!(cycle1.meta, src_box.meta);
    assert!(cycle1.get_children().is_empty());

    let mut buf2: Vec<u8> = Vec::new();
    cycle1.write_box(&mut buf2).unwrap();
    let mut reader2 = ByteStream::new(buf2);
    let header2 = BoxHeader::read(&mut reader2).unwrap();
    let cycle2 = UdtaBox::read_box(&mut reader2, header2.size).unwrap();

    assert_eq!(cycle2, cycle1);
}

#[test]
fn test_last_occurrence_wins() {
    // two recognized sub-boxes: the later one replaces the earlier
    let bytes = vec![
        0, 0, 0, 32, b'u', b'd', b't', b'a', // container header
        0, 0, 0, 12, b'm', b'e', b't', b'a', // first sub-box
        0, 0, 0, 1, // version 0, flags 1
        0, 0, 0, 12, b'm', b'e', b't', b'a', // second sub-box
        0, 0, 0, 2, // version 0, flags 2
    ];
    let mut reader = ByteStream::new(bytes);
    let header = BoxHeader::read(&mut reader).unwrap();
    let dst_box = UdtaBox::read_box(&mut reader, header.size).unwrap();
    assert_eq!(dst_box.meta, Some(MetaBox { version: 0, flags: 2 }));
    assert!(dst_box.get_children().is_empty());
}

#[test]
fn test_getters_and_summary() {
    let b = UdtaBox { meta: None, children: Vec::new() };
    assert_eq!(b.get_type(), BoxType::UdtaBox);
    assert_eq!(b.box_type(), BoxType::UdtaBox);
    assert_eq!(b.get_size(), b.box_size());
    assert!(b.get_children().is_empty());
    assert_eq!(b.summary().unwrap(), String::new());
}
