//! Region-container decoder: locating, framing and decompressing the up to
//! 1024 independently compressed chunk records of a region file.
//!
//! The file opens with an 8192-byte header: 1024 four-byte big-endian
//! location entries (a 3-byte sector offset and a 1-byte sector count, in
//! units of 4096-byte sectors), then 1024 four-byte big-endian timestamps
//! aligned with them by slot index. At each occupied slot's byte offset lies
//! a 5-byte frame header — a big-endian payload length and a 1-byte
//! compression-scheme code — followed by exactly that many compressed bytes
//! of one document.

use vstd::prelude::*;
use vstd::slice::slice_subrange;

verus! {

/// The sector size in bytes: the addressing unit of the header's offset and
/// count fields.
pub const SECTOR_SIZE: u64 = 4096;

/// The number of chunk slots a region container holds.
pub const SLOT_COUNT: usize = 1024;

/// The size in bytes of the header prefix: the location table followed by
/// the timestamp table.
pub const HEADER_SIZE: usize = 8192;

/// Why a region container, or one chunk record within it, failed to decode.
#[derive(Debug, Clone, Copy, PartialEq, Eq, Structural)]
pub enum RegionError {
    /// The file is shorter than the 8192-byte header tables, or a chunk's
    /// 5-byte frame header or its declared payload runs past the end of the
    /// file.
    TruncatedHeader,
    /// The frame header's compression-scheme code is neither gzip (1) nor
    /// zlib (2). Reported as a recoverable error, never as a fatal abort.
    UnknownCompressionScheme(u8),
    /// The compressed payload is corrupt or truncated.
    DecompressionFailure,
}

/// The compression scheme of one chunk record's payload: a closed set; any
/// other code in the frame header is a malformed-input condition.
#[derive(Debug, Clone, Copy, PartialEq, Eq, Structural)]
pub enum CompressionScheme {
    Gzip,
    Zlib,
}

/// Where one occupied chunk slot's record lies in the file, read from the
/// header tables: both `byte_offset` and `byte_length` are multiples of 4096,
/// and `byte_length` only bounds the sector-rounded region, which may end in
/// padding past the record's actual payload.
#[derive(Debug, Clone, Copy, PartialEq, Eq, Structural)]
pub struct ChunkDescriptor {
    pub byte_offset: u64,
    pub byte_length: u64,
    pub modified_at: u32,
}

/// The 5-byte header at a record's byte offset: the exact count of
/// compressed payload bytes that follow it, and their compression scheme.
#[derive(Debug, Clone, Copy, PartialEq, Eq, Structural)]
pub struct ChunkFrameHeader {
    pub payload_length: u32,
    pub compression_scheme: CompressionScheme,
}

/// The value of the four bytes at index `i`, read big-endian.
pub open spec fn be32(bytes: Seq<u8>, i: int) -> nat {
    (bytes[i] as nat) * 0x1000000 + (bytes[i + 1] as nat) * 0x10000 + (bytes[i + 2] as nat) * 0x100
        + (bytes[i + 3] as nat)
}

/// The sector offset of slot `i`: the high three bytes of its location
/// entry, read big-endian.
pub open spec fn sector_offset_of(bytes: Seq<u8>, i: int) -> nat {
    (bytes[4 * i] as nat) * 0x10000 + (bytes[4 * i + 1] as nat) * 0x100 + (bytes[4 * i
        + 2] as nat)
}

/// The sector count of slot `i`: the low byte of its location entry.
pub open spec fn sector_count_of(bytes: Seq<u8>, i: int) -> nat {
    bytes[4 * i + 3] as nat
}

/// Whether slot `i` holds a record. A zero sector offset or a zero sector
/// count marks a slot whose chunk was never written; it yields no
/// descriptor.
pub open spec fn slot_occupied(bytes: Seq<u8>, i: int) -> bool {
    sector_offset_of(bytes, i) != 0 && sector_count_of(bytes, i) != 0
}

/// The timestamp of slot `i`, from the second header table.
pub open spec fn timestamp_of(bytes: Seq<u8>, i: int) -> nat {
    be32(bytes, 4096 + 4 * i)
}

/// The descriptor that occupied slot `i` yields: its header fields scaled
/// from sectors to bytes, and its timestamp.
pub open spec fn slot_descriptor(bytes: Seq<u8>, i: int) -> ChunkDescriptor {
    ChunkDescriptor {
        byte_offset: (sector_offset_of(bytes, i) * 4096) as u64,
        byte_length: (sector_count_of(bytes, i) * 4096) as u64,
        modified_at: timestamp_of(bytes, i) as u32,
    }
}

/// The descriptors of the occupied slots among the first `n`, in slot order.
pub open spec fn descriptors_upto(bytes: Seq<u8>, n: int) -> Seq<ChunkDescriptor>
    decreases n,
{
    if n <= 0 {
        Seq::empty()
    } else if slot_occupied(bytes, n - 1) {
        descriptors_upto(bytes, n - 1).push(slot_descriptor(bytes, n - 1))
    } else {
        descriptors_upto(bytes, n - 1)
    }
}

/// The descriptors of all occupied slots of the file, in slot order. The
/// order is incidental: consumers must not read any spatial meaning into it.
pub open spec fn region_descriptors(bytes: Seq<u8>) -> Seq<ChunkDescriptor> {
    descriptors_upto(bytes, 1024)
}

/// Unoccupied-slot skipping: a slot whose location entry has a zero sector
/// offset or a zero sector count contributes no descriptor, whatever the
/// timestamp table holds for it.
pub proof fn lemma_unoccupied_slot_skipped(bytes: Seq<u8>, i: int)
    requires
        0 <= i < 1024,
        sector_offset_of(bytes, i) == 0 || sector_count_of(bytes, i) == 0,
    ensures
        descriptors_upto(bytes, i + 1) == descriptors_upto(bytes, i),
{
}

/// Offset and length scaling: an occupied slot appends exactly one
/// descriptor, whose byte offset and byte length are its sector offset and
/// sector count scaled by 4096, and which carries the slot's timestamp.
pub proof fn lemma_descriptor_scaling(bytes: Seq<u8>, i: int)
    requires
        0 <= i < 1024,
        slot_occupied(bytes, i),
    ensures
        descriptors_upto(bytes, i + 1) == descriptors_upto(bytes, i).push(
            slot_descriptor(bytes, i),
        ),
        slot_descriptor(bytes, i).byte_offset == 4096 * sector_offset_of(bytes, i),
        slot_descriptor(bytes, i).byte_length == 4096 * sector_count_of(bytes, i),
        slot_descriptor(bytes, i).modified_at == timestamp_of(bytes, i),
{
    assert(sector_offset_of(bytes, i) < 0x1000000);
    assert(sector_count_of(bytes, i) < 0x100);
    assert(timestamp_of(bytes, i) < 0x100000000);
}

/// Parses the 8192-byte header prefix into the descriptors of the occupied
/// slots, in slot order. A file shorter than the header tables is rejected
/// as truncated; nothing past the first 8192 bytes is read.
pub fn read_region_index(bytes: &[u8]) -> (r: Result<Vec<ChunkDescriptor>, RegionError>)
    ensures
        match r {
            Ok(descs) => bytes@.len() >= 8192 && descs@ == region_descriptors(bytes@),
            Err(e) => bytes@.len() < 8192 && e == RegionError::TruncatedHeader,
        },
{
    if bytes.len() < HEADER_SIZE {
        return Err(RegionError::TruncatedHeader);
    }
    let mut descs: Vec<ChunkDescriptor> = Vec::new();
    let mut slot: usize = 0;
    while slot < SLOT_COUNT
        invariant
            slot <= 1024,
            bytes@.len() >= 8192,
            descs@ == descriptors_upto(bytes@, slot as int),
        decreases 1024 - slot,
    {
        let b0 = bytes[4 * slot];
        let b1 = bytes[4 * slot + 1];
        let b2 = bytes[4 * slot + 2];
        let b3 = bytes[4 * slot + 3];
        let sector_offset: u32 = (b0 as u32) * 0x10000 + (b1 as u32) * 0x100 + (b2 as u32);
        if sector_offset != 0 && b3 != 0 {
            let t0 = bytes[4096 + 4 * slot];
            let t1 = bytes[4096 + 4 * slot + 1];
            let t2 = bytes[4096 + 4 * slot + 2];
            let t3 = bytes[4096 + 4 * slot + 3];
            let timestamp: u32 = (t0 as u32) * 0x1000000 + (t1 as u32) * 0x10000 + (t2 as u32)
                * 0x100 + (t3 as u32);
            descs.push(
                ChunkDescriptor {
                    byte_offset: (sector_offset as u64) * SECTOR_SIZE,
                    byte_length: (b3 as u64) * SECTOR_SIZE,
                    modified_at: timestamp,
                },
            );
            assert(descs@ =~= descriptors_upto(bytes@, slot + 1));
        } else {
            assert(descs@ =~= descriptors_upto(bytes@, slot + 1));
        }
        slot = slot + 1;
    }
    Ok(descs)
}

/// The scheme a frame-header code selects: 1 is gzip, 2 is zlib, and every
/// other code selects nothing.
pub open spec fn scheme_of_code(code: u8) -> Option<CompressionScheme> {
    if code == 1 {
        Some(CompressionScheme::Gzip)
    } else if code == 2 {
        Some(CompressionScheme::Zlib)
    } else {
        None
    }
}

/// What gzip decompression makes of a compressed stream: the decompressed
/// bytes, or nothing when the stream is corrupt or truncated. The outcome
/// depends on the compressed bytes alone.
pub uninterp spec fn gzip_inflate(compressed: Seq<u8>) -> Option<Seq<u8>>;

/// What zlib decompression makes of a compressed stream: the decompressed
/// bytes, or nothing when the stream is corrupt or truncated. The outcome
/// depends on the compressed bytes alone.
pub uninterp spec fn zlib_inflate(compressed: Seq<u8>) -> Option<Seq<u8>>;

/// What decompressing `compressed` under `scheme` yields.
pub open spec fn inflate(scheme: CompressionScheme, compressed: Seq<u8>) -> Option<Seq<u8>> {
    match scheme {
        CompressionScheme::Gzip => gzip_inflate(compressed),
        CompressionScheme::Zlib => zlib_inflate(compressed),
    }
}

/// Relies on flate2's `bufread::GzDecoder`: reading it to the end yields the
/// whole decompressed stream, or an I/O error on a corrupt or truncated one;
/// the outcome is a function of the compressed bytes alone.
#[verifier::external_body]
fn gzip_decompress(compressed: &[u8]) -> (r: Option<Vec<u8>>)
    ensures
        match r {
            Some(v) => gzip_inflate(compressed@) == Some(v@),
            None => gzip_inflate(compressed@) is None,
        },
{
    let mut decoder = flate2::bufread::GzDecoder::new(compressed);
    let mut out = Vec::new();
    match std::io::Read::read_to_end(&mut decoder, &mut out) {
        Ok(_) => Some(out),
        Err(_) => None,
    }
}

/// Relies on flate2's `bufread::ZlibDecoder`: reading it to the end yields
/// the whole decompressed stream, or an I/O error on a corrupt or truncated
/// one; the outcome is a function of the compressed bytes alone.
#[verifier::external_body]
fn zlib_decompress(compressed: &[u8]) -> (r: Option<Vec<u8>>)
    ensures
        match r {
            Some(v) => zlib_inflate(compressed@) == Some(v@),
            None => zlib_inflate(compressed@) is None,
        },
{
    let mut decoder = flate2::bufread::ZlibDecoder::new(compressed);
    let mut out = Vec::new();
    match std::io::Read::read_to_end(&mut decoder, &mut out) {
        Ok(_) => Some(out),
        Err(_) => None,
    }
}

impl CompressionScheme {
    /// Maps a frame header's 1-byte code to its scheme. An unknown code is a
    /// recoverable malformed-input error naming the code, never an abort.
    pub fn from_code(code: u8) -> (r: Result<CompressionScheme, RegionError>)
        ensures
            match r {
                Ok(s) => scheme_of_code(code) == Some(s),
                Err(e) => scheme_of_code(code) is None && e
                    == RegionError::UnknownCompressionScheme(code),
            },
    {
        if code == 1 {
            Ok(CompressionScheme::Gzip)
        } else if code == 2 {
            Ok(CompressionScheme::Zlib)
        } else {
            Err(RegionError::UnknownCompressionScheme(code))
        }
    }

    /// Decompresses a whole compressed payload under this scheme.
    pub fn decompress(&self, compressed: &[u8]) -> (r: Result<Vec<u8>, RegionError>)
        ensures
            match r {
                Ok(doc) => inflate(*self, compressed@) == Some(doc@),
                Err(e) => inflate(*self, compressed@) is None && e
                    == RegionError::DecompressionFailure,
            },
    {
        let out = match self {
            CompressionScheme::Gzip => gzip_decompress(compressed),
            CompressionScheme::Zlib => zlib_decompress(compressed),
        };
        match out {
            Some(doc) => Ok(doc),
            None => Err(RegionError::DecompressionFailure),
        }
    }
}

/// The payload length declared by the frame header at `off`.
pub open spec fn frame_payload_len(bytes: Seq<u8>, off: int) -> nat {
    be32(bytes, off)
}

/// The compression-scheme code declared by the frame header at `off`.
pub open spec fn frame_scheme_code(bytes: Seq<u8>, off: int) -> u8 {
    bytes[off + 4]
}

/// The compressed payload of the frame at `off`: exactly the declared number
/// of bytes immediately after the 5-byte header.
pub open spec fn frame_payload(bytes: Seq<u8>, off: int) -> Seq<u8> {
    bytes.subrange(off + 5, off + 5 + frame_payload_len(bytes, off))
}

/// What decoding the chunk record framed at `off` yields: the document bytes
/// its payload decompresses to, or the first error met — a frame header or
/// payload past the end of the file, an unknown compression-scheme code, or
/// a payload its scheme cannot decompress.
pub open spec fn chunk_decode(bytes: Seq<u8>, off: int) -> Result<Seq<u8>, RegionError> {
    if off + 5 > bytes.len() {
        Err(RegionError::TruncatedHeader)
    } else {
        match scheme_of_code(frame_scheme_code(bytes, off)) {
            None => Err(
                RegionError::UnknownCompressionScheme(frame_scheme_code(bytes, off)),
            ),
            Some(scheme) => {
                if off + 5 + frame_payload_len(bytes, off) > bytes.len() {
                    Err(RegionError::TruncatedHeader)
                } else {
                    match inflate(scheme, frame_payload(bytes, off)) {
                        Some(doc) => Ok(doc),
                        None => Err(RegionError::DecompressionFailure),
                    }
                }
            },
        }
    }
}

impl ChunkFrameHeader {
    /// Reads the 5-byte frame header at `off`: four big-endian bytes of
    /// payload length, then the compression-scheme code.
    pub fn parse(bytes: &[u8], off: u64) -> (r: Result<ChunkFrameHeader, RegionError>)
        ensures
            match r {
                Ok(h) => {
                    &&& off + 5 <= bytes@.len()
                    &&& h.payload_length == frame_payload_len(bytes@, off as int)
                    &&& scheme_of_code(frame_scheme_code(bytes@, off as int)) == Some(
                        h.compression_scheme,
                    )
                },
                Err(RegionError::TruncatedHeader) => off + 5 > bytes@.len(),
                Err(RegionError::UnknownCompressionScheme(c)) => {
                    &&& off + 5 <= bytes@.len()
                    &&& c == frame_scheme_code(bytes@, off as int)
                    &&& scheme_of_code(c) is None
                },
                Err(RegionError::DecompressionFailure) => false,
            },
    {
        let len = bytes.len();
        if (len as u64) < 5 || off > (len as u64) - 5 {
            return Err(RegionError::TruncatedHeader);
        }
        let o = off as usize;
        let l0 = bytes[o];
        let l1 = bytes[o + 1];
        let l2 = bytes[o + 2];
        let l3 = bytes[o + 3];
        let payload_length: u32 = (l0 as u32) * 0x1000000 + (l1 as u32) * 0x10000 + (l2 as u32)
            * 0x100 + (l3 as u32);
        let compression_scheme = CompressionScheme::from_code(bytes[o + 4])?;
        Ok(ChunkFrameHeader { payload_length, compression_scheme })
    }
}

/// Decodes the chunk record that `desc` locates: parses its 5-byte frame
/// header, takes exactly the declared number of payload bytes after it (the
/// descriptor's sector-rounded `byte_length` plays no part), and decompresses
/// them into one document.
pub fn decode_chunk_frame(bytes: &[u8], desc: &ChunkDescriptor) -> (r: Result<
    Vec<u8>,
    RegionError,
>)
    ensures
        match r {
            Ok(doc) => chunk_decode(bytes@, desc.byte_offset as int) == Ok::<Seq<u8>, RegionError>(
                doc@,
            ),
            Err(e) => chunk_decode(bytes@, desc.byte_offset as int) == Err::<Seq<u8>, RegionError>(
                e,
            ),
        },
{
    let off = desc.byte_offset;
    let header = ChunkFrameHeader::parse(bytes, off)?;
    let len = bytes.len();
    let payload_len = header.payload_length as u64;
    if payload_len > (len as u64) - (off + 5) {
        return Err(RegionError::TruncatedHeader);
    }
    let start = (off as usize) + 5;
    let payload = slice_subrange(bytes, start, start + (header.payload_length as usize));
    header.compression_scheme.decompress(payload)
}

/// A whole-file decode failure. The decode stops at the first error and
/// names the chunk at fault where one record is at fault.
#[derive(Debug, Clone, Copy, PartialEq, Eq, Structural)]
pub enum RegionFailure {
    /// The header tables themselves could not be read.
    Container(RegionError),
    /// The record of the chunk at `chunk_index` — an index into the
    /// descriptor list, in slot order — failed to decode.
    Chunk { chunk_index: usize, error: RegionError },
}

/// Decodes a whole region file: reads the header tables, then the record of
/// each occupied slot in slot order, yielding one decompressed document per
/// occupied slot. The first failing record aborts the decode and is named in
/// the error; a genuinely unoccupied slot is skipped, never an error.
pub fn decode_region(bytes: &[u8]) -> (r: Result<Vec<Vec<u8>>, RegionFailure>)
    ensures
        match r {
            Ok(docs) => {
                &&& bytes@.len() >= 8192
                &&& docs@.len() == region_descriptors(bytes@).len()
                &&& forall|i: int|
                    0 <= i < docs@.len() ==> chunk_decode(
                        bytes@,
                        (#[trigger] region_descriptors(bytes@)[i]).byte_offset as int,
                    ) == Ok::<Seq<u8>, RegionError>(docs@[i]@)
            },
            Err(RegionFailure::Container(e)) => bytes@.len() < 8192 && e
                == RegionError::TruncatedHeader,
            Err(RegionFailure::Chunk { chunk_index, error }) => {
                &&& bytes@.len() >= 8192
                &&& chunk_index < region_descriptors(bytes@).len()
                &&& chunk_decode(
                    bytes@,
                    region_descriptors(bytes@)[chunk_index as int].byte_offset as int,
                ) == Err::<Seq<u8>, RegionError>(error)
                &&& forall|i: int|
                    0 <= i < chunk_index ==> chunk_decode(
                        bytes@,
                        (#[trigger] region_descriptors(bytes@)[i]).byte_offset as int,
                    ) is Ok
            },
        },
{
    let descs = match read_region_index(bytes) {
        Ok(descs) => descs,
        Err(e) => {
            return Err(RegionFailure::Container(e));
        },
    };
    let mut docs: Vec<Vec<u8>> = Vec::new();
    let mut i: usize = 0;
    while i < descs.len()
        invariant
            i <= descs.len(),
            bytes@.len() >= 8192,
            descs@ == region_descriptors(bytes@),
            docs@.len() == i,
            forall|j: int|
                0 <= j < i ==> chunk_decode(
                    bytes@,
                    (#[trigger] region_descriptors(bytes@)[j]).byte_offset as int,
                ) == Ok::<Seq<u8>, RegionError>(docs@[j]@),
        decreases descs.len() - i,
    {
        match decode_chunk_frame(bytes, &descs[i]) {
            Ok(doc) => {
                docs.push(doc);
            },
            Err(error) => {
                return Err(RegionFailure::Chunk { chunk_index: i, error });
            },
        }
        i = i + 1;
    }
    Ok(docs)
}

} // verus!
