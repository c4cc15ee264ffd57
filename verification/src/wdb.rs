use vstd::bytes::{spec_u32_from_le_bytes, u32_from_le_bytes};
use vstd::prelude::*;

use crate::error::Error;
use crate::text::{bytes_to_string_lossy, lossy_of};

verus! {

/// A new string holding the given literal.
fn str_lit_string(s: &str) -> (r: String)
    ensures
        r@ == s@,
{
    <String as vstd::string::StringExecFns>::from_str(s)
}

// ---------------------------------------------------------------------------
// Version dispatch
// ---------------------------------------------------------------------------

/// The table-file format version, detected from the four magic bytes.
#[derive(Debug, Clone, Copy, PartialEq, Eq, Structural)]
pub enum DbcVersion {
    /// The original flat format.
    WDBC,
    /// Adds seven fixed header words.
    WDB2,
    /// Same header as WDB2.
    WDB3,
    /// Adds a flags word.
    WDB4,
    /// Adds the index of the id field.
    WDB5,
}

/// The position of a version in the family: later formats extend earlier
/// ones.
pub open spec fn version_rank(v: DbcVersion) -> int {
    match v {
        DbcVersion::WDBC => 0,
        DbcVersion::WDB2 => 1,
        DbcVersion::WDB3 => 2,
        DbcVersion::WDB4 => 3,
        DbcVersion::WDB5 => 4,
    }
}

impl DbcVersion {
    /// The position of this version in the family.
    pub fn rank(&self) -> (r: u8)
        ensures
            r as int == version_rank(*self),
    {
        match self {
            DbcVersion::WDBC => 0,
            DbcVersion::WDB2 => 1,
            DbcVersion::WDB3 => 2,
            DbcVersion::WDB4 => 3,
            DbcVersion::WDB5 => 4,
        }
    }
}

/// The size in bytes of the header of each version: the magic, four
/// common words, and the version-specific tail.
pub open spec fn header_size(v: DbcVersion) -> int {
    match v {
        DbcVersion::WDBC => 20,
        DbcVersion::WDB2 => 48,
        DbcVersion::WDB3 => 48,
        DbcVersion::WDB4 => 52,
        DbcVersion::WDB5 => 56,
    }
}

/// The version a file's first four bytes declare, if they are a known
/// signature: `WDBC`, `WDB2`, `WDB3`, `WDB4` or `WDB5`.
pub open spec fn spec_magic(b: Seq<u8>) -> Option<DbcVersion> {
    if b.len() < 4 {
        None
    } else if b[0] == 87 && b[1] == 68 && b[2] == 66 {
        if b[3] == 67 {
            Some(DbcVersion::WDBC)
        } else if b[3] == 50 {
            Some(DbcVersion::WDB2)
        } else if b[3] == 51 {
            Some(DbcVersion::WDB3)
        } else if b[3] == 52 {
            Some(DbcVersion::WDB4)
        } else if b[3] == 53 {
            Some(DbcVersion::WDB5)
        } else {
            None
        }
    } else {
        None
    }
}

/// Reads the version from a file's magic bytes.
pub fn detect_version(bytes: &[u8]) -> (r: Option<DbcVersion>)
    ensures
        r == spec_magic(bytes@),
{
    if bytes.len() < 4 {
        return None;
    }
    if bytes[0] == 87 && bytes[1] == 68 && bytes[2] == 66 {
        if bytes[3] == 67 {
            Some(DbcVersion::WDBC)
        } else if bytes[3] == 50 {
            Some(DbcVersion::WDB2)
        } else if bytes[3] == 51 {
            Some(DbcVersion::WDB3)
        } else if bytes[3] == 52 {
            Some(DbcVersion::WDB4)
        } else if bytes[3] == 53 {
            Some(DbcVersion::WDB5)
        } else {
            None
        }
    } else {
        None
    }
}

// ---------------------------------------------------------------------------
// The header
// ---------------------------------------------------------------------------

/// The seven extra header words of versions from WDB2 on.
#[derive(Debug, Clone, Copy, PartialEq, Eq, Structural)]
pub enum Wdb2Fields {
    /// The version carries no extra words.
    Absent,
    /// The extra words.
    Fields {
        table_hash: u32,
        build: u32,
        timestamp_last_written: u32,
        min_id: u32,
        max_id: u32,
        locale: u32,
        copy_table_size: u32,
    },
}

/// The header of a table file: the four common words and the
/// version-specific extensions.
#[derive(Debug, Clone, Copy, PartialEq, Eq, Structural)]
pub struct WdbHeader {
    pub record_count: u32,
    pub field_count: u32,
    pub record_size: u32,
    pub string_block_size: u32,
    /// Extra words, present from WDB2 on.
    pub wdb2: Wdb2Fields,
    /// Flags word, present from WDB4 on.
    pub flags: Option<u32>,
    /// Index of the id field, present from WDB5 on.
    pub id_index: Option<u32>,
}

/// The little-endian word at byte offset `i`.
pub open spec fn u32_at(b: Seq<u8>, i: int) -> u32 {
    spec_u32_from_le_bytes(b.subrange(i, i + 4))
}

/// What parsing a header yields: the version from the magic, the common
/// words, and the version-specific tail. A short buffer, an unknown
/// signature, or a header that declares records but a zero record size
/// or field count, yields nothing.
pub open spec fn spec_parse_header(b: Seq<u8>) -> Option<(DbcVersion, WdbHeader)> {
    match spec_magic(b) {
        None => None,
        Some(v) => {
            if b.len() < header_size(v) {
                None
            } else {
                let h = WdbHeader {
                    record_count: u32_at(b, 4),
                    field_count: u32_at(b, 8),
                    record_size: u32_at(b, 12),
                    string_block_size: u32_at(b, 16),
                    wdb2: if version_rank(v) >= 1 {
                        Wdb2Fields::Fields {
                            table_hash: u32_at(b, 20),
                            build: u32_at(b, 24),
                            timestamp_last_written: u32_at(b, 28),
                            min_id: u32_at(b, 32),
                            max_id: u32_at(b, 36),
                            locale: u32_at(b, 40),
                            copy_table_size: u32_at(b, 44),
                        }
                    } else {
                        Wdb2Fields::Absent
                    },
                    flags: if version_rank(v) >= 3 {
                        Some(u32_at(b, 48))
                    } else {
                        None
                    },
                    id_index: if version_rank(v) >= 4 {
                        Some(u32_at(b, 52))
                    } else {
                        None
                    },
                };
                if h.record_size == 0 && h.record_count > 0 {
                    None
                } else if h.field_count == 0 && h.record_count > 0 {
                    None
                } else {
                    Some((v, h))
                }
            }
        },
    }
}

/// Where the string block of a parsed file begins: right after the header
/// and the record body.
pub open spec fn spec_string_block_offset(v: DbcVersion, h: WdbHeader) -> int {
    header_size(v) + h.record_count * h.record_size
}

impl WdbHeader {
    /// Where the string block begins, given this header's version: the
    /// header bytes followed by `record_count` rows of `record_size`
    /// bytes each.
    pub fn string_offset(&self, version: DbcVersion) -> (r: u64)
        ensures
            r as int == spec_string_block_offset(version, *self),
    {
        let hs: u64 = match version {
            DbcVersion::WDBC => 20,
            DbcVersion::WDB2 => 48,
            DbcVersion::WDB3 => 48,
            DbcVersion::WDB4 => 52,
            DbcVersion::WDB5 => 56,
        };
        proof {
            assert((self.record_count as int) * (self.record_size as int)
                <= 0xffffffff * 0xffffffff) by (nonlinear_arith)
                requires
                    self.record_count as int <= 0xffffffff,
                    self.record_size as int <= 0xffffffff,
            ;
        }
        hs + (self.record_count as u64) * (self.record_size as u64)
    }
}

// ---------------------------------------------------------------------------
// The string index
// ---------------------------------------------------------------------------

/// The index of the first zero byte at or after `from`, or the buffer's
/// length when none remains: where the string starting at `from` ends.
pub open spec fn find_zero(b: Seq<u8>, from: int) -> int
    decreases b.len() - from,
{
    if from < 0 || from >= b.len() {
        b.len() as int
    } else if b[from] == 0 {
        from
    } else {
        find_zero(b, from + 1)
    }
}

/// What [`find_zero`] returns: the first zero position at or after
/// `from`, or the length.
pub proof fn lemma_find_zero(b: Seq<u8>, from: int)
    requires
        0 <= from <= b.len(),
    ensures
        from <= find_zero(b, from) <= b.len(),
        find_zero(b, from) < b.len() ==> b[find_zero(b, from)] == 0,
        forall|j: int| from <= j < find_zero(b, from) ==> b[j] != 0,
    decreases b.len() - from,
{
    if from < b.len() && b[from] != 0 {
        lemma_find_zero(b, from + 1);
    }
}

/// A zero position with no zero between `from` and it is what
/// [`find_zero`] returns.
pub proof fn lemma_find_zero_at(b: Seq<u8>, from: int, e: int)
    requires
        0 <= from <= e <= b.len(),
        e < b.len() ==> b[e] == 0,
        e == b.len() || b[e] == 0,
        forall|j: int| from <= j < e ==> b[j] != 0,
    ensures
        find_zero(b, from) == e,
    decreases e - from,
{
    if from < e {
        lemma_find_zero_at(b, from + 1, e);
    }
}

/// Is `o` where one of the block's strings starts: the first byte, or
/// any byte right after a terminator, as the scan registers them.
pub open spec fn is_string_start(b: Seq<u8>, o: int) -> bool {
    0 <= o < b.len() && (o == 0 || b[o - 1] == 0)
}

/// Finds the entry pairing `offset` in an index sorted by strictly
/// increasing offsets, by binary search.
pub fn find_offset_entry(pos: &Vec<(usize, usize)>, offset: usize) -> (r: Option<usize>)
    requires
        forall|k1: int, k2: int|
            0 <= k1 < k2 < pos@.len() ==> (#[trigger] pos@[k1]).0 < (#[trigger] pos@[k2]).0,
    ensures
        match r {
            Some(k) => k < pos@.len() && (pos@[k as int]).0 == offset,
            None => forall|k: int| 0 <= k < pos@.len() ==> (#[trigger] pos@[k]).0 != offset,
        },
{
    let mut lo: usize = 0;
    let mut hi: usize = pos.len();
    while lo < hi
        invariant
            0 <= lo <= hi <= pos@.len(),
            forall|k1: int, k2: int|
                0 <= k1 < k2 < pos@.len() ==> (#[trigger] pos@[k1]).0 < (#[trigger] pos@[k2]).0,
            forall|k: int| 0 <= k < lo ==> (#[trigger] pos@[k]).0 < offset,
            forall|k: int| hi <= k < pos@.len() ==> (#[trigger] pos@[k]).0 > offset,
        decreases hi - lo,
    {
        let mid = lo + (hi - lo) / 2;
        let (o, _) = pos[mid];
        if o == offset {
            return Some(mid);
        } else if o < offset {
            proof {
                assert forall|k: int| 0 <= k < mid + 1 implies (#[trigger] pos@[k]).0 < offset by {
                    if k < mid {
                        assert((pos@[k]).0 < (pos@[mid as int]).0);
                    }
                }
            }
            lo = mid + 1;
        } else {
            proof {
                assert forall|k: int| mid <= k < pos@.len() implies (#[trigger] pos@[k]).0
                    > offset by {
                    if k > mid {
                        assert((pos@[mid as int]).0 < (pos@[k]).0);
                    }
                }
            }
            hi = mid;
        }
    }
    None
}

/// A parsed table file: its version, header, and the indexed contents of
/// its string block.
pub struct WdbFile {
    /// The version the magic bytes declared.
    pub version: DbcVersion,
    /// The parsed header.
    pub header: WdbHeader,
    /// The size in bytes of the header.
    pub header_size: usize,
    /// The strings of the string block, in order of their start offsets.
    pub strings: Vec<String>,
    /// Pairs of a string's start offset in the block and its index in
    /// `strings`, in increasing offset order.
    pub string_pos: Vec<(usize, usize)>,
    /// The bytes of the string block, kept as a model of what the index
    /// was built from.
    pub block: Ghost<Seq<u8>>,
}

/// A string index faithfully represents its block: each entry marks a
/// string start and carries the lossy decoding of the bytes up to the
/// next terminator, every start is indexed, and offsets increase.
pub open spec fn strings_index_wf(block: Seq<u8>, strings: Seq<String>, pos: Seq<(usize, usize)>) -> bool {
    &&& strings.len() == pos.len()
    &&& (forall|k: int|
        0 <= k < pos.len() ==> {
            let (off, idx) = #[trigger] pos[k];
            &&& is_string_start(block, off as int)
            &&& idx == k
            &&& strings[k]@ == lossy_of(block.subrange(off as int, find_zero(block, off as int)))
        })
    &&& (forall|o: int|
        is_string_start(block, o) ==> exists|k: int|
            0 <= k < pos.len() && (#[trigger] pos[k]).0 == o)
    &&& (forall|k1: int, k2: int|
        0 <= k1 < k2 < pos.len() ==> (#[trigger] pos[k1]).0 < (#[trigger] pos[k2]).0)
}

impl WdbFile {
    /// The string index faithfully represents the block, whose size the
    /// header records.
    pub open spec fn wf(self) -> bool {
        &&& strings_index_wf(self.block@, self.strings@, self.string_pos@)
        &&& self.block@.len() == self.header.string_block_size
        &&& self.header_size as int == header_size(self.version)
    }

    /// The string at `index` in the block's string list.
    pub fn get_string(&self, index: usize) -> (r: Option<&String>)
        ensures
            match r {
                Some(s) => index < self.strings@.len() && *s == self.strings@[index as int],
                None => index >= self.strings@.len(),
            },
    {
        if index < self.strings.len() {
            Some(&self.strings[index])
        } else {
            None
        }
    }

    /// The string starting at byte offset `offset` of the string block,
    /// or nothing when no string starts exactly there. With an empty
    /// string block every offset resolves to nothing.
    pub fn get_string_by_offset(&self, offset: usize) -> (r: Option<&String>)
        requires
            self.wf(),
        ensures
            r is Some <==> is_string_start(self.block@, offset as int),
            match r {
                Some(s) => s@ == lossy_of(
                    self.block@.subrange(
                        offset as int,
                        find_zero(self.block@, offset as int),
                    ),
                ),
                None => true,
            },
    {
        match find_offset_entry(&self.string_pos, offset) {
            Some(k) => {
                let (_, idx) = self.string_pos[k];
                Some(&self.strings[idx])
            },
            None => {
                proof {
                    if is_string_start(self.block@, offset as int) {
                        let k0 = choose|k0: int|
                            0 <= k0 < self.string_pos@.len() && (
                            #[trigger] self.string_pos@[k0]).0 == offset;
                        assert((self.string_pos@[k0]).0 != offset);
                    }
                }
                None
            },
        }
    }

    /// Where the record body begins: right after the header.
    pub fn records_start_offset(&self) -> (r: u64)
        ensures
            r == self.header_size as u64,
    {
        self.header_size as u64
    }

    /// Where the string block begins in this file.
    pub fn string_block_offset(&self) -> (r: u64)
        ensures
            r as int == header_size(self.version) + self.header.record_count
                * self.header.record_size,
    {
        self.header.string_offset(self.version)
    }
}

/// Builds the string index of a block: registers a string at the first
/// byte and after every terminator, each decoded up to the next
/// terminator.
pub fn index_string_block(block: &[u8]) -> (r: (Vec<String>, Vec<(usize, usize)>))
    ensures
        strings_index_wf(block@, r.0@, r.1@),
{
    let blen = block.len();
    let mut strings: Vec<String> = Vec::new();
    let mut pos: Vec<(usize, usize)> = Vec::new();
    let mut off: usize = 0;
    while off < blen
        invariant_except_break
            off == 0 || block@[off as int - 1] == 0,
        invariant
            0 <= off <= blen,
            blen == block@.len(),
            strings@.len() == pos@.len(),
            forall|k: int|
                0 <= k < pos@.len() ==> {
                    let (o, idx) = #[trigger] pos@[k];
                    &&& is_string_start(block@, o as int)
                    &&& idx == k
                    &&& o < off
                    &&& strings@[k]@ == lossy_of(
                        block@.subrange(o as int, find_zero(block@, o as int)),
                    )
                },
            forall|o: int|
                is_string_start(block@, o) && o < off ==> exists|k: int|
                    0 <= k < pos@.len() && (#[trigger] pos@[k]).0 == o,
            forall|k1: int, k2: int|
                0 <= k1 < k2 < pos@.len() ==> (#[trigger] pos@[k1]).0 < (#[trigger] pos@[k2]).0,
        ensures
            off == blen,
        decreases blen - off,
    {
        let start = off;
        while off < blen && block[off] != 0
            invariant
                start <= off <= blen,
                blen == block@.len(),
                forall|j: int| start <= j < off ==> block@[j] != 0,
            decreases blen - off,
        {
            off += 1;
        }
        proof {
            lemma_find_zero_at(block@, start as int, off as int);
        }
        let ghost old_pos = pos@;
        let s = bytes_to_string_lossy(&block[start..off]);
        let idx = strings.len();
        pos.push((start, idx));
        strings.push(s);
        proof {
            assert(block@.subrange(start as int, off as int) =~= block@.subrange(
                start as int,
                find_zero(block@, start as int),
            ));
            assert forall|o: int| is_string_start(block@, o) && o < off + 1 implies exists|k: int|
                0 <= k < pos@.len() && (#[trigger] pos@[k]).0 == o by {
                if o < start {
                    assert(exists|k: int| 0 <= k < old_pos.len() && (#[trigger] old_pos[k]).0 == o);
                    let k = choose|k: int| 0 <= k < old_pos.len() && (#[trigger] old_pos[k]).0 == o;
                    assert(pos@[k] == old_pos[k]);
                    assert((pos@[k]).0 == o);
                } else if o == start {
                    assert((pos@[pos@.len() - 1]).0 == o);
                } else {
                    assert(start < o && o <= off);
                    assert(block@[o - 1] != 0);
                    assert(false);
                }
            }
        }
        if off < blen {
            off += 1;
        } else {
            break ;
        }
    }
    proof {
        assert forall|o: int| is_string_start(block@, o) implies exists|k: int|
            0 <= k < pos@.len() && (#[trigger] pos@[k]).0 == o by {
            assert(o < off);
        }
    }
    (strings, pos)
}

/// Parses a whole table file held in memory: detects the version, reads
/// and validates the header, and indexes the string block.
pub fn parse_wdb(bytes: &[u8]) -> (r: Result<WdbFile, Error>)
    ensures
        r is Ok <==> (spec_parse_header(bytes@) is Some && {
            let (v, h) = spec_parse_header(bytes@)->Some_0;
            spec_string_block_offset(v, h) + h.string_block_size <= bytes@.len()
        }),
        r is Err ==> (if spec_parse_header(bytes@) is Some {
            r->Err_0 is OutOfBounds
        } else {
            r->Err_0 is InvalidHeader
        }),
        r is Ok ==> ({
            let (v, h) = spec_parse_header(bytes@)->Some_0;
            let f = r->Ok_0;
            &&& f.version == v
            &&& f.header == h
            &&& f.header_size as int == header_size(v)
            &&& f.block@ == bytes@.subrange(
                spec_string_block_offset(v, h),
                spec_string_block_offset(v, h) + h.string_block_size,
            )
            &&& f.wf()
        }),
{
    let version = match detect_version(bytes) {
        Some(v) => v,
        None => {
            return Err(
                Error::InvalidHeader(
                    str_lit_string("unknown magic signature"),
                ),
            );
        },
    };
    let hs: usize = match version {
        DbcVersion::WDBC => 20,
        DbcVersion::WDB2 => 48,
        DbcVersion::WDB3 => 48,
        DbcVersion::WDB4 => 52,
        DbcVersion::WDB5 => 56,
    };
    if bytes.len() < hs {
        return Err(
            Error::InvalidHeader(str_lit_string("truncated header")),
        );
    }
    let record_count = u32_from_le_bytes(&bytes[4..8]);
    let field_count = u32_from_le_bytes(&bytes[8..12]);
    let record_size = u32_from_le_bytes(&bytes[12..16]);
    let string_block_size = u32_from_le_bytes(&bytes[16..20]);
    let rank = version.rank();
    let wdb2 = if rank >= 1 {
        Wdb2Fields::Fields {
            table_hash: u32_from_le_bytes(&bytes[20..24]),
            build: u32_from_le_bytes(&bytes[24..28]),
            timestamp_last_written: u32_from_le_bytes(&bytes[28..32]),
            min_id: u32_from_le_bytes(&bytes[32..36]),
            max_id: u32_from_le_bytes(&bytes[36..40]),
            locale: u32_from_le_bytes(&bytes[40..44]),
            copy_table_size: u32_from_le_bytes(&bytes[44..48]),
        }
    } else {
        Wdb2Fields::Absent
    };
    let flags = if rank >= 3 {
        Some(u32_from_le_bytes(&bytes[48..52]))
    } else {
        None
    };
    let id_index = if rank >= 4 {
        Some(u32_from_le_bytes(&bytes[52..56]))
    } else {
        None
    };
    let header = WdbHeader {
        record_count,
        field_count,
        record_size,
        string_block_size,
        wdb2,
        flags,
        id_index,
    };
    if header.record_size == 0 && header.record_count > 0 {
        return Err(
            Error::InvalidHeader(
                str_lit_string(
                    "record size cannot be 0 if record count is greater than 0",
                ),
            ),
        );
    }
    if header.field_count == 0 && header.record_count > 0 {
        return Err(
            Error::InvalidHeader(
                str_lit_string(
                    "field count cannot be 0 if record count is greater than 0",
                ),
            ),
        );
    }
    let sbo: u64 = header.string_offset(version);
    let sbs: u64 = header.string_block_size as u64;
    proof {
        assert((header.record_count as int) * (header.record_size as int)
            <= 0xffffffff * 0xffffffff) by (nonlinear_arith)
            requires
                header.record_count as int <= 0xffffffff,
                header.record_size as int <= 0xffffffff,
        ;
    }
    if sbo + sbs > bytes.len() as u64 {
        return Err(
            Error::OutOfBounds(
                str_lit_string("string block lies past the end of the file"),
            ),
        );
    }
    let block = &bytes[sbo as usize..(sbo + sbs) as usize];
    let (strings, string_pos) = index_string_block(block);
    let f = WdbFile {
        version,
        header,
        header_size: hs,
        strings,
        string_pos,
        block: Ghost(block@),
    };
    Ok(f)
}

} // verus!
