use mca::region::{
    decode_region, read_region_index, ChunkDescriptor, ChunkFrameHeader, CompressionScheme,
    RegionError, RegionFailure,
};
use std::io::Read;

fn zlib_compress(data: &[u8]) -> Vec<u8> {
    let mut encoder =
        flate2::bufread::ZlibEncoder::new(data, flate2::Compression::default());
    let mut out = Vec::new();
    encoder.read_to_end(&mut out).unwrap();
    out
}

fn gzip_compress(data: &[u8]) -> Vec<u8> {
    let mut encoder = flate2::bufread::GzEncoder::new(data, flate2::Compression::default());
    let mut out = Vec::new();
    encoder.read_to_end(&mut out).unwrap();
    out
}

/// A region file with one chunk in slot 0 at sector offset 2, sector count 1.
fn one_chunk_region(scheme: u8, payload: &[u8], timestamp: u32) -> Vec<u8> {
    let mut file = vec![0u8; 8192];
    file[0] = 0;
    file[1] = 0;
    file[2] = 2;
    file[3] = 1;
    file[4096..4100].copy_from_slice(&timestamp.to_be_bytes());
    file.extend_from_slice(&(payload.len() as u32).to_be_bytes());
    file.push(scheme);
    file.extend_from_slice(payload);
    file.resize(8192 + 4096, 0);
    file
}

#[test]
fn one_zlib_chunk_round_trips() {
    let document = b"a minimal document body";
    let compressed = zlib_compress(document);
    let timestamp: u32 = 0x6150_3344;
    let file = one_chunk_region(2, &compressed, timestamp);

    let descriptors = read_region_index(&file).unwrap();
    assert_eq!(descriptors.len(), 1);
    assert_eq!(
        descriptors[0],
        ChunkDescriptor { byte_offset: 8192, byte_length: 4096, modified_at: timestamp }
    );

    let docs = decode_region(&file).unwrap();
    assert_eq!(docs.len(), 1);
    assert_eq!(docs[0], document.to_vec());
}

#[test]
fn one_gzip_chunk_round_trips() {
    let document = b"another document body";
    let compressed = gzip_compress(document);
    let file = one_chunk_region(1, &compressed, 7);

    let docs = decode_region(&file).unwrap();
    assert_eq!(docs.len(), 1);
    assert_eq!(docs[0], document.to_vec());
}

#[test]
fn unknown_scheme_is_recoverable() {
    let compressed = zlib_compress(b"whatever");
    let file = one_chunk_region(9, &compressed, 1);

    let err = decode_region(&file).unwrap_err();
    assert_eq!(
        err,
        RegionFailure::Chunk {
            chunk_index: 0,
            error: RegionError::UnknownCompressionScheme(9)
        }
    );
}

#[test]
fn truncated_file_is_rejected() {
    let compressed = zlib_compress(b"whatever");
    let file = one_chunk_region(2, &compressed, 1);
    let truncated = &file[..100];

    assert_eq!(
        read_region_index(truncated).unwrap_err(),
        RegionError::TruncatedHeader
    );
    assert_eq!(
        decode_region(truncated).unwrap_err(),
        RegionFailure::Container(RegionError::TruncatedHeader)
    );
}

#[test]
fn corrupt_payload_is_a_decompression_failure() {
    let mut compressed = zlib_compress(b"soon to be corrupted");
    let n = compressed.len();
    compressed.truncate(n / 2);
    let file = one_chunk_region(2, &compressed, 1);

    let err = decode_region(&file).unwrap_err();
    assert_eq!(
        err,
        RegionFailure::Chunk { chunk_index: 0, error: RegionError::DecompressionFailure }
    );
}

#[test]
fn frame_past_end_of_file_is_truncated_header() {
    // Slot 0 points at sector 4, but the file ends at sector 3.
    let mut file = vec![0u8; 8192];
    file[2] = 4;
    file[3] = 1;
    file.resize(8192 + 4096, 0);

    let err = decode_region(&file).unwrap_err();
    assert_eq!(
        err,
        RegionFailure::Chunk { chunk_index: 0, error: RegionError::TruncatedHeader }
    );
}

#[test]
fn payload_past_end_of_file_is_truncated_header() {
    // A frame header that declares more payload bytes than the file holds.
    let mut file = vec![0u8; 8192];
    file[2] = 2;
    file[3] = 1;
    file.extend_from_slice(&10_000u32.to_be_bytes());
    file.push(2);
    file.resize(8192 + 4096, 0);

    let err = decode_region(&file).unwrap_err();
    assert_eq!(
        err,
        RegionFailure::Chunk { chunk_index: 0, error: RegionError::TruncatedHeader }
    );
}

#[test]
fn zero_location_entry_yields_no_descriptor() {
    // Slot 0 is (0, 0) with a non-zero timestamp; slot 5 is occupied.
    let mut file = vec![0u8; 8192];
    file[4096..4100].copy_from_slice(&0xdead_beefu32.to_be_bytes());
    file[5 * 4 + 2] = 3;
    file[5 * 4 + 3] = 2;
    file[4096 + 5 * 4 + 3] = 9;

    let descriptors = read_region_index(&file).unwrap();
    assert_eq!(descriptors.len(), 1);
    assert_eq!(
        descriptors[0],
        ChunkDescriptor { byte_offset: 3 * 4096, byte_length: 2 * 4096, modified_at: 9 }
    );
}

#[test]
fn half_zero_location_entries_yield_no_descriptor() {
    // A zero sector count or a zero sector offset also marks the slot unoccupied.
    let mut file = vec![0u8; 8192];
    file[2] = 7;
    file[3] = 0;
    file[4 + 2] = 0;
    file[4 + 3] = 7;

    let descriptors = read_region_index(&file).unwrap();
    assert_eq!(descriptors.len(), 0);
}

#[test]
fn descriptor_scales_sectors_to_bytes() {
    // Sector offset 0x000102 and sector count 0x30 in slot 2.
    let mut file = vec![0u8; 8192];
    file[2 * 4] = 0x00;
    file[2 * 4 + 1] = 0x01;
    file[2 * 4 + 2] = 0x02;
    file[2 * 4 + 3] = 0x30;
    file[4096 + 2 * 4..4096 + 2 * 4 + 4].copy_from_slice(&12345u32.to_be_bytes());

    let descriptors = read_region_index(&file).unwrap();
    assert_eq!(descriptors.len(), 1);
    assert_eq!(descriptors[0].byte_offset, 0x0102 * 4096);
    assert_eq!(descriptors[0].byte_length, 0x30 * 4096);
    assert_eq!(descriptors[0].modified_at, 12345);
}

#[test]
fn descriptors_come_in_slot_order() {
    let mut file = vec![0u8; 8192];
    for slot in [3usize, 100, 1023] {
        file[slot * 4 + 2] = (slot % 200 + 2) as u8;
        file[slot * 4 + 3] = 1;
    }

    let descriptors = read_region_index(&file).unwrap();
    assert_eq!(descriptors.len(), 3);
    assert_eq!(descriptors[0].byte_offset, 5 * 4096);
    assert_eq!(descriptors[1].byte_offset, 102 * 4096);
    assert_eq!(descriptors[2].byte_offset, 25 * 4096);
}

#[test]
fn frame_header_parses_length_and_scheme() {
    let mut file = vec![0u8; 16];
    file[8] = 0x00;
    file[9] = 0x00;
    file[10] = 0x01;
    file[11] = 0x02;
    file[12] = 2;

    let header = ChunkFrameHeader::parse(&file, 8).unwrap();
    assert_eq!(header.payload_length, 0x0102);
    assert_eq!(header.compression_scheme, CompressionScheme::Zlib);

    assert_eq!(
        ChunkFrameHeader::parse(&file, 14).unwrap_err(),
        RegionError::TruncatedHeader
    );
}

#[test]
fn scheme_codes_map_to_schemes() {
    assert_eq!(CompressionScheme::from_code(1).unwrap(), CompressionScheme::Gzip);
    assert_eq!(CompressionScheme::from_code(2).unwrap(), CompressionScheme::Zlib);
    assert_eq!(
        CompressionScheme::from_code(0).unwrap_err(),
        RegionError::UnknownCompressionScheme(0)
    );
    assert_eq!(
        CompressionScheme::from_code(255).unwrap_err(),
        RegionError::UnknownCompressionScheme(255)
    );
}

#[test]
fn later_chunks_survive_until_the_first_error() {
    // Slot 0 decodes, slot 1 has an unknown scheme: the failure names chunk 1.
    let document = b"first chunk";
    let compressed = zlib_compress(document);
    let mut file = vec![0u8; 8192];
    file[2] = 2;
    file[3] = 1;
    file[4 + 2] = 3;
    file[4 + 3] = 1;
    file.extend_from_slice(&(compressed.len() as u32).to_be_bytes());
    file.push(2);
    file.extend_from_slice(&compressed);
    file.resize(8192 + 4096, 0);
    file.extend_from_slice(&1u32.to_be_bytes());
    file.push(7);
    file.resize(8192 + 2 * 4096, 0);

    let err = decode_region(&file).unwrap_err();
    assert_eq!(
        err,
        RegionFailure::Chunk {
            chunk_index: 1,
            error: RegionError::UnknownCompressionScheme(7)
        }
    );
}
