use vstd::prelude::*;
use vstd::string::StringExecFns;
use vstd::string::StringSliceAdditionalSpecFns;
use vstd::utf8::valid_utf8;

use crate::error::Error;
use crate::text::bytes_to_str;
use crate::types::StringRef;
use crate::wdb::{find_zero, is_string_start, lemma_find_zero, lemma_find_zero_at};

verus! {

/// The pooled string region of a table file: a byte buffer holding
/// null-terminated strings, addressed by byte offset.
#[derive(Debug, Clone)]
pub struct StringBlock {
    data: Vec<u8>,
}

impl View for StringBlock {
    type V = Seq<u8>;

    closed spec fn view(&self) -> Seq<u8> {
        self.data@
    }
}

impl StringBlock {
    /// Takes the `size` bytes at `offset` of the file as the string
    /// block; a region past the end of the file is an error.
    pub fn parse(bytes: &[u8], offset: u64, size: u32) -> (r: Result<Self, Error>)
        ensures
            r is Ok <==> offset as int + size as int <= bytes@.len(),
            r is Ok ==> r->Ok_0@ == bytes@.subrange(offset as int, offset as int + size as int),
            r is Err ==> r->Err_0 is OutOfBounds,
    {
        let n = bytes.len();
        if size as u64 > n as u64 || offset > n as u64 - size as u64 {
            return Err(
                Error::OutOfBounds(
                    <String as StringExecFns>::from_str(
                        "string block lies past the end of the file",
                    ),
                ),
            );
        }
        let data = crate::text::bytes_to_vec(bytes, offset as usize, offset as usize + size as usize);
        Ok(StringBlock { data })
    }

    /// The string starting at the referenced offset, read up to the
    /// next terminator: an offset outside the block is an error, and so
    /// are bytes that are not valid UTF-8.
    pub fn get_string(&self, string_ref: StringRef) -> (r: Result<&str, Error>)
        ensures
            r is Ok <==> (string_ref.0 as int) < self@.len() && valid_utf8(
                self@.subrange(string_ref.0 as int, find_zero(self@, string_ref.0 as int)),
            ),
            r is Ok ==> r->Ok_0.spec_bytes() == self@.subrange(
                string_ref.0 as int,
                find_zero(self@, string_ref.0 as int),
            ),
            r is Err ==> (if string_ref.0 as int >= self@.len() {
                r->Err_0 is OutOfBounds
            } else {
                r->Err_0 is TypeConversion
            }),
    {
        let offset = string_ref.offset() as usize;
        let n = self.data.len();
        if offset >= n {
            return Err(
                Error::OutOfBounds(
                    <String as StringExecFns>::from_str("string reference offset out of bounds"),
                ),
            );
        }
        let mut end: usize = offset;
        while end < n && self.data[end] != 0
            invariant
                offset <= end <= n,
                n == self.data@.len(),
                forall|j: int| offset <= j < end ==> self.data@[j] != 0,
            decreases n - end,
        {
            end += 1;
        }
        proof {
            lemma_find_zero_at(self.data@, offset as int, end as int);
        }
        match bytes_to_str(&self.data.as_slice()[offset..end]) {
            Some(s) => Ok(s),
            None => Err(
                Error::TypeConversion(<String as StringExecFns>::from_str("invalid UTF-8 string")),
            ),
        }
    }

    /// The raw bytes of the block.
    pub fn data(&self) -> (r: &[u8])
        ensures
            r@ == self@,
    {
        self.data.as_slice()
    }

    /// The size of the block in bytes.
    pub fn size(&self) -> (r: usize)
        ensures
            r == self@.len(),
    {
        self.data.len()
    }
}

/// A string block with a precomputed index of every string's start and
/// end, for constant-time reuse of the scan.
#[derive(Debug, Clone)]
pub struct CachedStringBlock {
    data: Vec<u8>,
    /// Pairs of a string's start offset and its end (the next
    /// terminator), one per string start, in increasing offset order.
    cache: Vec<(usize, usize)>,
}

impl View for CachedStringBlock {
    type V = Seq<u8>;

    closed spec fn view(&self) -> Seq<u8> {
        self.data@
    }
}

impl CachedStringBlock {
    /// Every cached entry marks a string start and ends at the next
    /// terminator, and every start is cached.
    pub closed spec fn wf(self) -> bool {
        &&& (forall|k: int|
            0 <= k < self.cache@.len() ==> {
                let (off, end) = #[trigger] self.cache@[k];
                &&& is_string_start(self.data@, off as int)
                &&& end as int == find_zero(self.data@, off as int)
            })
        &&& (forall|o: int|
            is_string_start(self.data@, o) ==> exists|k: int|
                0 <= k < self.cache@.len() && (#[trigger] self.cache@[k]).0 == o)
        &&& (forall|k1: int, k2: int|
            0 <= k1 < k2 < self.cache@.len() ==> (#[trigger] self.cache@[k1]).0 < (
            #[trigger] self.cache@[k2]).0)
    }

    /// Scans a block once and caches the position of every string.
    pub fn from_string_block(string_block: &StringBlock) -> (r: Self)
        ensures
            r@ == string_block@,
            r.wf(),
    {
        let src = string_block.data();
        let data = crate::text::bytes_to_vec(src, 0, src.len());
        let blen = data.len();
        let mut cache: Vec<(usize, usize)> = Vec::new();
        let mut off: usize = 0;
        while off < blen
            invariant_except_break
                off == 0 || data@[off as int - 1] == 0,
            invariant
                0 <= off <= blen,
                blen == data@.len(),
                forall|k: int|
                    0 <= k < cache@.len() ==> {
                        let (o, e) = #[trigger] cache@[k];
                        &&& is_string_start(data@, o as int)
                        &&& e as int == find_zero(data@, o as int)
                        &&& o < off
                    },
                forall|o: int|
                    is_string_start(data@, o) && o < off ==> exists|k: int|
                        0 <= k < cache@.len() && (#[trigger] cache@[k]).0 == o,
                forall|k1: int, k2: int|
                    0 <= k1 < k2 < cache@.len() ==> (#[trigger] cache@[k1]).0 < (
                    #[trigger] cache@[k2]).0,
            ensures
                off == blen,
            decreases blen - off,
        {
            let start = off;
            while off < blen && data[off] != 0
                invariant
                    start <= off <= blen,
                    blen == data@.len(),
                    forall|j: int| start <= j < off ==> data@[j] != 0,
                decreases blen - off,
            {
                off += 1;
            }
            proof {
                lemma_find_zero_at(data@, start as int, off as int);
            }
            let ghost old_cache = cache@;
            cache.push((start, off));
            proof {
                assert forall|o: int| is_string_start(data@, o) && o < off + 1 implies exists|
                    k: int,
                |
                    0 <= k < cache@.len() && (#[trigger] cache@[k]).0 == o by {
                    if o < start {
                        assert(exists|k: int|
                            0 <= k < old_cache.len() && (#[trigger] old_cache[k]).0 == o);
                        let k = choose|k: int|
                            0 <= k < old_cache.len() && (#[trigger] old_cache[k]).0 == o;
                        assert(cache@[k] == old_cache[k]);
                        assert((cache@[k]).0 == o);
                    } else if o == start {
                        assert((cache@[cache@.len() - 1]).0 == o);
                    } else {
                        assert(start < o && o <= off);
                        assert(data@[o - 1] != 0);
                        assert(false);
                    }
                }
            }
            if off < blen {
                off += 1;
            } else {
                break ;
            }
        }
        let ghost datav = data@;
        let ghost cachev = cache@;
        let r = CachedStringBlock { data, cache };
        proof {
            assert(r.data@ == datav);
            assert(r.cache@ == cachev);
            assert forall|o: int| is_string_start(r.data@, o) implies exists|k: int|
                0 <= k < r.cache@.len() && (#[trigger] r.cache@[k]).0 == o by {
                assert(is_string_start(datav, o));
                assert(o < off);
                assert(exists|k: int| 0 <= k < cachev.len() && (#[trigger] cachev[k]).0 == o);
                let k = choose|k: int| 0 <= k < cachev.len() && (#[trigger] cachev[k]).0 == o;
                assert((r.cache@[k]).0 == o);
            }
        }
        r
    }

    /// The string starting at the referenced offset, from the cache
    /// when the offset starts a string, else by scanning: in both cases
    /// the bytes from the offset up to the next terminator, decoded as
    /// strict UTF-8.
    pub fn get_string(&self, string_ref: StringRef) -> (r: Result<&str, Error>)
        requires
            self.wf(),
        ensures
            r is Ok <==> (string_ref.0 as int) < self@.len() && valid_utf8(
                self@.subrange(string_ref.0 as int, find_zero(self@, string_ref.0 as int)),
            ),
            r is Ok ==> r->Ok_0.spec_bytes() == self@.subrange(
                string_ref.0 as int,
                find_zero(self@, string_ref.0 as int),
            ),
            r is Err ==> (if string_ref.0 as int >= self@.len() {
                r->Err_0 is OutOfBounds
            } else {
                r->Err_0 is TypeConversion
            }),
    {
        let offset = string_ref.offset() as usize;
        let n = self.data.len();
        if let Some(k) = crate::wdb::find_offset_entry(&self.cache, offset) {
            let (off, end) = self.cache[k];
            proof {
                assert(self.cache@[k as int] == (off, end));
                assert(is_string_start(self.data@, off as int));
                assert(end as int == find_zero(self.data@, off as int));
                lemma_find_zero(self.data@, off as int);
            }
            return match bytes_to_str(&self.data.as_slice()[off..end]) {
                Some(s) => Ok(s),
                None => Err(
                    Error::TypeConversion(
                        <String as StringExecFns>::from_str("invalid UTF-8 string"),
                    ),
                ),
            };
        }
        if offset >= n {
            return Err(
                Error::OutOfBounds(
                    <String as StringExecFns>::from_str("string reference offset out of bounds"),
                ),
            );
        }
        let mut end: usize = offset;
        while end < n && self.data[end] != 0
            invariant
                offset <= end <= n,
                n == self.data@.len(),
                forall|j: int| offset <= j < end ==> self.data@[j] != 0,
            decreases n - end,
        {
            end += 1;
        }
        proof {
            lemma_find_zero_at(self.data@, offset as int, end as int);
        }
        match bytes_to_str(&self.data.as_slice()[offset..end]) {
            Some(s) => Ok(s),
            None => Err(
                Error::TypeConversion(<String as StringExecFns>::from_str("invalid UTF-8 string")),
            ),
        }
    }
}

} // verus!
