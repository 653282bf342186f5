use data_arc::error::{ArchiveError, ParseError, SectionId};
use data_arc::headers::NodeHeader;
use data_arc::records::{
    read_big_file_entry, read_big_hash_entry, read_file_entry, read_file_pair, read_hash_bucket,
    read_pair, read_tree_entry, read_triplet,
};
use data_arc::resolver::{resolve, resolve_sections, resolve_tail};
use data_arc::{internal_parse, parse};

fn push_u16(v: &mut Vec<u8>, x: u16) {
    v.extend_from_slice(&x.to_le_bytes());
}

fn push_u32(v: &mut Vec<u8>, x: u32) {
    v.extend_from_slice(&x.to_le_bytes());
}

fn push_u64(v: &mut Vec<u8>, x: u64) {
    v.extend_from_slice(&x.to_le_bytes());
}

fn zero_node_header() -> NodeHeader {
    NodeHeader {
        file_size: 0,
        folder_count: 0,
        file_count1: 0,
        tree_count: 0,
        sub_files1_count: 0,
        file_lookup_count: 0,
        hash_folder_count: 0,
        file_information_count: 0,
        file_count2: 0,
        sub_files2_count: 0,
        unk1: 0,
        unk2: 0,
        another_hash_table_size: 0,
        unk3: 0,
        unk4: 0,
        movie_count: 0,
        part1_count: 0,
        part2_count: 0,
        music_file_count: 0,
    }
}

/// A header with one entry in every header-driven section.
fn one_of_each_header() -> NodeHeader {
    let mut h = zero_node_header();
    h.movie_count = 1;
    h.part1_count = 1;
    h.part2_count = 1;
    h.music_file_count = 1;
    h.another_hash_table_size = 1;
    h.folder_count = 1;
    h.file_count1 = 1;
    h.hash_folder_count = 1;
    h.tree_count = 1;
    h.sub_files1_count = 1;
    h.sub_files2_count = 1;
    h
}

fn node_header_bytes(h: &NodeHeader) -> Vec<u8> {
    let mut v = Vec::new();
    push_u32(&mut v, h.file_size);
    push_u32(&mut v, h.folder_count);
    push_u32(&mut v, h.file_count1);
    push_u32(&mut v, h.tree_count);
    push_u32(&mut v, h.sub_files1_count);
    push_u32(&mut v, h.file_lookup_count);
    push_u32(&mut v, h.hash_folder_count);
    push_u32(&mut v, h.file_information_count);
    push_u32(&mut v, h.file_count2);
    push_u32(&mut v, h.sub_files2_count);
    push_u32(&mut v, h.unk1);
    push_u32(&mut v, h.unk2);
    v.push(h.another_hash_table_size);
    v.push(h.unk3);
    push_u16(&mut v, h.unk4);
    push_u32(&mut v, h.movie_count);
    push_u32(&mut v, h.part1_count);
    push_u32(&mut v, h.part2_count);
    push_u32(&mut v, h.music_file_count);
    assert_eq!(v.len(), 0x44);
    v
}

/// Magic plus an archive header whose node section sits right after it.
fn stream_prefix() -> Vec<u8> {
    let mut v = Vec::new();
    push_u64(&mut v, 0xabcdef9876543210);
    push_u64(&mut v, 0); // music_file_section_offset
    push_u64(&mut v, 0); // file_section_offset
    push_u64(&mut v, 0); // music_section_offset
    push_u64(&mut v, 48); // node_section_offset
    push_u64(&mut v, 0); // unk_section_offset
    assert_eq!(v.len(), 48);
    v
}

// --- record decoders ---

#[test]
fn pair_round_trip() {
    let bytes = [0x01u8, 0x02, 0x03, 0x04, 0x05, 0xAA, 0xBB, 0xCC];
    let pair = read_pair(&bytes, 0).unwrap();
    assert_eq!(pair.hash, 0x0504030201);
    assert_eq!(pair.meta, 0xCCBBAA);
}

#[test]
fn pair_short_window() {
    let bytes = [0x01u8, 0x02, 0x03, 0x04, 0x05, 0xAA, 0xBB];
    assert!(read_pair(&bytes, 0).is_none());
    assert!(read_pair(&bytes, 1).is_none());
}

#[test]
fn pair_at_offset() {
    let bytes = [0xFFu8, 0x01, 0x02, 0x03, 0x04, 0x05, 0xAA, 0xBB, 0xCC];
    let pair = read_pair(&bytes, 1).unwrap();
    assert_eq!(pair.hash, 0x0504030201);
    assert_eq!(pair.meta, 0xCCBBAA);
}

#[test]
fn triplet_decode() {
    let bytes = [
        0x01u8, 0x02, 0x03, 0x04, 0x05, 0xAA, 0xBB, 0xCC, 0x10, 0x20, 0x30, 0x40,
    ];
    let t = read_triplet(&bytes, 0).unwrap();
    assert_eq!(t.hash, 0x0504030201);
    assert_eq!(t.meta, 0xCCBBAA);
    assert_eq!(t.meta2, 0x40302010);
}

#[test]
fn triplet_short_window() {
    let bytes = [0u8; 11];
    assert!(read_triplet(&bytes, 0).is_none());
}

#[test]
fn file_pair_decode() {
    let mut v = Vec::new();
    push_u64(&mut v, 0x1122334455667788);
    push_u64(&mut v, 0x99AABBCCDDEEFF00);
    let fp = read_file_pair(&v, 0).unwrap();
    assert_eq!(fp.size, 0x1122334455667788);
    assert_eq!(fp.offset, 0x99AABBCCDDEEFF00);
}

#[test]
fn big_hash_entry_decode() {
    let mut v = Vec::new();
    // four pairs: path, folder, parent, hash4
    v.extend_from_slice(&[0x01, 0x02, 0x03, 0x04, 0x05, 0xA1, 0xA2, 0xA3]);
    v.extend_from_slice(&[0x11, 0x12, 0x13, 0x14, 0x15, 0xB1, 0xB2, 0xB3]);
    v.extend_from_slice(&[0x21, 0x22, 0x23, 0x24, 0x25, 0xC1, 0xC2, 0xC3]);
    v.extend_from_slice(&[0x31, 0x32, 0x33, 0x34, 0x35, 0xD1, 0xD2, 0xD3]);
    push_u32(&mut v, 0x01020304); // suboffset_start
    push_u32(&mut v, 0x05060708); // num_files
    push_u32(&mut v, 0x090A0B0C); // unk3
    push_u16(&mut v, 0x0D0E); // unk4
    push_u16(&mut v, 0x0F10); // unk5
    v.extend_from_slice(&[0x61, 0x62, 0x63, 0x64]); // unk6..unk9
    assert_eq!(v.len(), 0x34);
    let e = read_big_hash_entry(&v, 0).unwrap();
    assert_eq!(e.path.hash, 0x0504030201);
    assert_eq!(e.path.meta, 0xA3A2A1);
    assert_eq!(e.folder.hash, 0x1514131211);
    assert_eq!(e.folder.meta, 0xB3B2B1);
    assert_eq!(e.parent.hash, 0x2524232221);
    assert_eq!(e.parent.meta, 0xC3C2C1);
    assert_eq!(e.hash4.hash, 0x3534333231);
    assert_eq!(e.hash4.meta, 0xD3D2D1);
    assert_eq!(e.suboffset_start, 0x01020304);
    assert_eq!(e.num_files, 0x05060708);
    assert_eq!(e.unk3, 0x090A0B0C);
    assert_eq!(e.unk4, 0x0D0E);
    assert_eq!(e.unk5, 0x0F10);
    assert_eq!(e.unk6, 0x61);
    assert_eq!(e.unk7, 0x62);
    assert_eq!(e.unk8, 0x63);
    assert_eq!(e.unk9, 0x64);
}

#[test]
fn tree_entry_decode() {
    let mut v = Vec::new();
    v.extend_from_slice(&[0x01, 0x02, 0x03, 0x04, 0x05, 0xA1, 0xA2, 0xA3]);
    v.extend_from_slice(&[0x11, 0x12, 0x13, 0x14, 0x15, 0xB1, 0xB2, 0xB3]);
    v.extend_from_slice(&[0x21, 0x22, 0x23, 0x24, 0x25, 0xC1, 0xC2, 0xC3]);
    v.extend_from_slice(&[0x31, 0x32, 0x33, 0x34, 0x35, 0xD1, 0xD2, 0xD3]);
    push_u32(&mut v, 7); // suboffset_index
    push_u32(&mut v, 0x80000001); // flags
    assert_eq!(v.len(), 0x28);
    let e = read_tree_entry(&v, 0).unwrap();
    assert_eq!(e.path.hash, 0x0504030201);
    assert_eq!(e.ext.hash, 0x1514131211);
    assert_eq!(e.folder.hash, 0x2524232221);
    assert_eq!(e.file.hash, 0x3534333231);
    assert_eq!(e.suboffset_index, 7);
    assert_eq!(e.flags, 0x80000001);
}

#[test]
fn big_file_entry_decode() {
    let mut v = Vec::new();
    push_u64(&mut v, 0x0102030405060708);
    push_u32(&mut v, 10);
    push_u32(&mut v, 11);
    push_u32(&mut v, 12);
    push_u32(&mut v, 13);
    push_u32(&mut v, 14);
    assert_eq!(v.len(), 0x1c);
    let e = read_big_file_entry(&v, 0).unwrap();
    assert_eq!(e.offset, 0x0102030405060708);
    assert_eq!(e.decomp_size, 10);
    assert_eq!(e.comp_size, 11);
    assert_eq!(e.suboffset_index, 12);
    assert_eq!(e.files, 13);
    assert_eq!(e.unk3, 14);
}

#[test]
fn file_entry_decode() {
    let mut v = Vec::new();
    push_u32(&mut v, 1);
    push_u32(&mut v, 2);
    push_u32(&mut v, 3);
    push_u32(&mut v, 4);
    let e = read_file_entry(&v, 0).unwrap();
    assert_eq!(e.offset, 1);
    assert_eq!(e.comp_size, 2);
    assert_eq!(e.decomp_size, 3);
    assert_eq!(e.flags, 4);
}

#[test]
fn hash_bucket_decode() {
    let mut v = Vec::new();
    push_u32(&mut v, 3);
    push_u32(&mut v, 9);
    let b = read_hash_bucket(&v, 0).unwrap();
    assert_eq!(b.index, 3);
    assert_eq!(b.num_entries, 9);
}

// --- section layout resolver ---

#[test]
fn zero_counts_empty_buffer() {
    let h = zero_node_header();
    let s = resolve_sections(&[], &h).unwrap();
    let ranges = [
        s.bulkfile_category_info,
        s.bulkfile_hash_lookup,
        s.bulkfiles_by_name,
        s.bulkfile_lookup_to_fileidx,
        s.file_pairs,
        s.another_hash_table,
        s.big_hashes,
        s.big_files,
        s.folder_hash_lookup,
        s.trees,
        s.sub_files1,
        s.sub_files2,
        s.folder_to_big_hash,
    ];
    for r in ranges.iter() {
        assert_eq!(r.start, 0);
        assert_eq!(r.len, 0);
    }
    assert_eq!(s.end, 0);
}

#[test]
fn exact_partition() {
    let h = one_of_each_header();
    let buffer = vec![0u8; 232];
    let s = resolve_sections(&buffer, &h).unwrap();
    let ranges = [
        s.bulkfile_category_info,
        s.bulkfile_hash_lookup,
        s.bulkfiles_by_name,
        s.bulkfile_lookup_to_fileidx,
        s.file_pairs,
        s.another_hash_table,
        s.big_hashes,
        s.big_files,
        s.folder_hash_lookup,
        s.trees,
        s.sub_files1,
        s.sub_files2,
        s.folder_to_big_hash,
    ];
    let lens = [12, 8, 12, 4, 16, 12, 52, 28, 8, 40, 16, 16, 8];
    let mut cursor = 0;
    for (r, len) in ranges.iter().zip(lens.iter()) {
        assert_eq!(r.start, cursor);
        assert_eq!(r.len, *len);
        cursor += len;
    }
    assert_eq!(cursor, 232);
    assert_eq!(s.end, 232);
}

#[test]
fn truncation_names_first_overflowing_section() {
    let h = one_of_each_header();
    // Everything through big_hashes ends at 116; big_files wants 28 more.
    let buffer = vec![0u8; 120];
    let err = resolve_sections(&buffer, &h).unwrap_err();
    assert_eq!(
        err,
        ArchiveError::TruncatedData {
            section: SectionId::BigFiles,
            needed: 28,
            available: 4,
        }
    );
}

#[test]
fn truncation_in_first_section() {
    let mut h = zero_node_header();
    h.movie_count = 1;
    let buffer = vec![0u8; 5];
    let err = resolve_sections(&buffer, &h).unwrap_err();
    assert_eq!(
        err,
        ArchiveError::TruncatedData {
            section: SectionId::BulkfileCategoryInfo,
            needed: 12,
            available: 5,
        }
    );
}

#[test]
fn huge_count_reports_truncation() {
    let mut h = zero_node_header();
    h.movie_count = u32::MAX;
    let err = resolve_sections(&[], &h).unwrap_err();
    assert_eq!(
        err,
        ArchiveError::TruncatedData {
            section: SectionId::BulkfileCategoryInfo,
            needed: 12 * 0xFFFF_FFFF,
            available: 0,
        }
    );
}

#[test]
fn summed_counts_report_truncation() {
    let mut h = zero_node_header();
    h.file_count1 = u32::MAX;
    h.file_count2 = u32::MAX;
    let err = resolve_sections(&[], &h).unwrap_err();
    assert_eq!(
        err,
        ArchiveError::TruncatedData {
            section: SectionId::BigFiles,
            needed: 28 * 2 * 0xFFFF_FFFF,
            available: 0,
        }
    );
}

#[test]
fn huge_bucket_count_reports_truncation() {
    let h = zero_node_header();
    let mut buffer = Vec::new();
    push_u32(&mut buffer, 0);
    push_u32(&mut buffer, u32::MAX); // table would span 2^32 buckets
    let err = resolve_tail(&buffer, &h, 0).unwrap_err();
    assert_eq!(
        err,
        ArchiveError::TruncatedData {
            section: SectionId::FileLookupBuckets,
            needed: 8 * 0x1_0000_0000,
            available: 8,
        }
    );
}

#[test]
fn tail_sized_by_bucket_record() {
    let mut h = zero_node_header();
    h.file_lookup_count = 2;
    let mut buffer = Vec::new();
    push_u32(&mut buffer, 7); // bucket index
    push_u32(&mut buffer, 1); // num_entries: table spans 2 buckets
    buffer.extend_from_slice(&[0u8; 8]); // second bucket
    buffer.extend_from_slice(&[0u8; 16]); // two file-lookup pairs
    buffer.extend_from_slice(&[0u8; 4]); // trailing numbers
    let l = resolve(&buffer, &h).unwrap();
    assert_eq!(l.sections.end, 0);
    assert_eq!(l.tail.bucket.index, 7);
    assert_eq!(l.tail.bucket.num_entries, 1);
    assert_eq!(l.tail.file_lookup_buckets.start, 0);
    assert_eq!(l.tail.file_lookup_buckets.len, 16);
    assert_eq!(l.tail.file_lookup.start, 16);
    assert_eq!(l.tail.file_lookup.len, 16);
    assert_eq!(l.tail.numbers.start, 32);
    assert_eq!(l.tail.numbers.len, 4);
}

#[test]
fn tail_missing_bucket_record() {
    let h = zero_node_header();
    let err = resolve(&[], &h).unwrap_err();
    assert_eq!(
        err,
        ArchiveError::TruncatedData {
            section: SectionId::FileLookupBuckets,
            needed: 8,
            available: 0,
        }
    );
}

#[test]
fn tail_bucket_table_overflows() {
    let h = zero_node_header();
    let mut buffer = Vec::new();
    push_u32(&mut buffer, 0);
    push_u32(&mut buffer, 2); // table would span 3 buckets = 24 bytes
    let err = resolve_tail(&buffer, &h, 0).unwrap_err();
    assert_eq!(
        err,
        ArchiveError::TruncatedData {
            section: SectionId::FileLookupBuckets,
            needed: 24,
            available: 8,
        }
    );
}

#[test]
fn tail_file_lookup_overflows() {
    let mut h = zero_node_header();
    h.file_lookup_count = 1;
    let mut buffer = Vec::new();
    push_u32(&mut buffer, 0);
    push_u32(&mut buffer, 0); // bucket table is exactly these 8 bytes
    let err = resolve_tail(&buffer, &h, 0).unwrap_err();
    assert_eq!(
        err,
        ArchiveError::TruncatedData {
            section: SectionId::FileLookup,
            needed: 8,
            available: 0,
        }
    );
}

// --- whole-archive parsing ---

#[test]
fn not_archive_format_on_wrong_magic() {
    assert_eq!(parse(&[]).unwrap_err(), ParseError::NotArchiveFormat);
    assert_eq!(
        parse(&[0xab, 0xcd, 0xef, 0x98, 0x76, 0x54, 0x32]).unwrap_err(),
        ParseError::NotArchiveFormat
    );
    let mut v = Vec::new();
    push_u64(&mut v, 0xabcdef9876543211); // one bit off
    v.extend_from_slice(&[0u8; 100]);
    assert_eq!(parse(&v).unwrap_err(), ParseError::NotArchiveFormat);
}

#[test]
fn corrupt_header_when_stream_ends_after_magic() {
    let mut v = Vec::new();
    push_u64(&mut v, 0xabcdef9876543210);
    assert_eq!(
        parse(&v).unwrap_err(),
        ParseError::InternalError(ArchiveError::CorruptHeader)
    );
}

#[test]
fn corrupt_header_when_node_offset_outside_stream() {
    let mut v = Vec::new();
    push_u64(&mut v, 0xabcdef9876543210);
    push_u64(&mut v, 0);
    push_u64(&mut v, 0);
    push_u64(&mut v, 0);
    push_u64(&mut v, 1000); // node_section_offset beyond the stream
    push_u64(&mut v, 0);
    assert_eq!(
        parse(&v).unwrap_err(),
        ParseError::InternalError(ArchiveError::CorruptHeader)
    );
}

#[test]
fn compressed_node_reports_unsupported() {
    let mut v = stream_prefix();
    push_u32(&mut v, 0x50); // data_start below 0x100: compressed
    push_u32(&mut v, 0);
    push_u32(&mut v, 0);
    push_u32(&mut v, 0);
    assert_eq!(
        parse(&v).unwrap_err(),
        ParseError::InternalError(ArchiveError::UnsupportedFeature)
    );
}

#[test]
fn corrupt_header_when_payload_is_missing() {
    let mut v = stream_prefix();
    let mut h = zero_node_header();
    h.file_size = 0x100; // declares 188 payload bytes
    v.extend_from_slice(&node_header_bytes(&h));
    v.extend_from_slice(&[0u8; 100]); // but only 100 are there
    assert_eq!(
        parse(&v).unwrap_err(),
        ParseError::InternalError(ArchiveError::CorruptHeader)
    );
}

#[test]
fn truncated_section_through_parse() {
    let mut v = stream_prefix();
    let mut h = zero_node_header();
    h.file_size = 0x100; // 188 payload bytes
    h.movie_count = 16; // first section wants 192
    v.extend_from_slice(&node_header_bytes(&h));
    v.extend_from_slice(&[0u8; 188]);
    assert_eq!(
        parse(&v).unwrap_err(),
        ParseError::InternalError(ArchiveError::TruncatedData {
            section: SectionId::BulkfileCategoryInfo,
            needed: 192,
            available: 188,
        })
    );
}

#[test]
fn internal_parse_ignores_the_magic() {
    // The magic check is `parse`'s business alone: `internal_parse` resolves
    // an otherwise well-formed stream whatever its first eight bytes hold.
    let mut v = stream_prefix();
    let mut h = zero_node_header();
    h.file_size = 0x100;
    v.extend_from_slice(&node_header_bytes(&h));
    v.extend_from_slice(&[0u8; 188]);
    v[0] = 0; // break the magic
    assert_eq!(parse(&v).unwrap_err(), ParseError::NotArchiveFormat);
    let a = internal_parse(&v).unwrap();
    assert_eq!(a.payload_len, 188);
    assert_eq!(a.layout.sections.end, 0);
}

#[test]
fn end_to_end_minimal_archive() {
    let mut v = stream_prefix();
    let mut h = zero_node_header();
    // The probe reads file_size as data_start, so a raw node section needs
    // file_size of at least 0x100: 68 header bytes plus 188 payload bytes.
    h.file_size = 0x100;
    h.movie_count = 1;
    v.extend_from_slice(&node_header_bytes(&h));
    let payload_at = v.len();
    v.extend_from_slice(&[
        0x01, 0x02, 0x03, 0x04, 0x05, 0xAA, 0xBB, 0xCC, 0x10, 0x20, 0x30, 0x40,
    ]); // the one triplet
    v.extend_from_slice(&[0u8; 8]); // bucket record: index 0, num_entries 0
    v.extend_from_slice(&[0u8; 168]); // trailing numbers region
    let a = parse(&v).unwrap();

    assert_eq!(a.header.node_section_offset, 48);
    assert_eq!(a.node_header.file_size, 0x100);
    assert_eq!(a.node_header.movie_count, 1);
    assert_eq!(a.payload_start, payload_at);
    assert_eq!(a.payload_len, 188);

    let s = &a.layout.sections;
    assert_eq!(s.bulkfile_category_info.start, 0);
    assert_eq!(s.bulkfile_category_info.len, 12);
    assert_eq!(s.bulkfile_hash_lookup.start, 12);
    assert_eq!(s.bulkfile_hash_lookup.len, 0);
    assert_eq!(s.end, 12);
    assert_eq!(a.layout.tail.file_lookup_buckets.start, 12);
    assert_eq!(a.layout.tail.file_lookup_buckets.len, 8);
    assert_eq!(a.layout.tail.file_lookup.len, 0);
    assert_eq!(a.layout.tail.numbers.start, 20);
    assert_eq!(a.layout.tail.numbers.len, 168);

    let payload = &v[a.payload_start..a.payload_start + a.payload_len];
    let first = read_triplet(payload, s.bulkfile_category_info.start).unwrap();
    assert_eq!(first.hash, 0x0504030201);
    assert_eq!(first.meta, 0xCCBBAA);
    assert_eq!(first.meta2, 0x40302010);
}
