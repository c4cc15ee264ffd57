use vstd::prelude::*;
use vstd::string::StringExecFns;

verus! {

// ---------------------------------------------------------------------------
// Versions and content tags
// ---------------------------------------------------------------------------

/// The format version of a texture file.
#[derive(Debug, Clone, Copy, PartialEq, Eq, Structural)]
pub enum BlpVersion {
    Blp0,
    Blp1,
    Blp2,
}

/// How the image data is stored: JPEG-compressed BGRA, or directly
/// readable pixel values.
#[derive(Debug, Clone, Copy, PartialEq, Eq, Structural)]
pub enum BlpContentTag {
    /// JPEG compressed image data.
    Jpeg,
    /// Direct pixel data, palettized or uncompressed.
    Direct,
}

/// An unknown content field value.
#[derive(Debug, Clone, Copy, PartialEq, Eq, Structural)]
pub struct UnknownContent(pub u32);

impl BlpContentTag {
    /// Reads the content field: 0 is JPEG, 1 is direct.
    pub fn try_from(val: u32) -> (r: Result<BlpContentTag, UnknownContent>)
        ensures
            val == 0 ==> r == Ok::<_, UnknownContent>(BlpContentTag::Jpeg),
            val == 1 ==> r == Ok::<_, UnknownContent>(BlpContentTag::Direct),
            val >= 2 ==> r == Err::<BlpContentTag, _>(UnknownContent(val)),
    {
        match val {
            0 => Ok(BlpContentTag::Jpeg),
            1 => Ok(BlpContentTag::Direct),
            _ => Err(UnknownContent(val)),
        }
    }

    /// The wire value of the tag.
    pub fn to_u32(self) -> (r: u32)
        ensures
            self is Jpeg ==> r == 0,
            self is Direct ==> r == 1,
    {
        match self {
            BlpContentTag::Jpeg => 0,
            BlpContentTag::Direct => 1,
        }
    }
}

/// Where the mipmaps live: inside the file at recorded offsets, or in
/// separate external files.
#[derive(Debug, Clone, Copy, PartialEq, Eq)]
pub enum MipmapLocator {
    /// Mipmaps inside the file: byte offsets and sizes of each level.
    Internal { offsets: [u32; 16], sizes: [u32; 16] },
    /// Mipmaps in external files.
    External,
}

impl Default for MipmapLocator {
    /// External mipmaps, the form that records nothing in the header.
    fn default() -> (r: Self)
        ensures
            r is External,
    {
        MipmapLocator::External
    }
}

// ---------------------------------------------------------------------------
// Alpha types
// ---------------------------------------------------------------------------

/// The alpha channel encoding of the second format version.
#[derive(Debug, Clone, Copy, PartialEq, Eq, Structural)]
pub enum AlphaType {
    /// No alpha channel; wire value 0.
    NoAlpha,
    /// Binary transparency; wire value 1.
    OneBit,
    /// Enhanced blending; wire value 7.
    Enhanced,
    /// A full byte of alpha; wire value 8.
    EightBit,
}

/// An unknown alpha type field value.
#[derive(Debug, Clone, Copy, PartialEq, Eq, Structural)]
pub struct UnknownAlphaType(pub u8);

/// The wire value of each alpha type.
pub open spec fn alpha_type_value(a: AlphaType) -> u8 {
    match a {
        AlphaType::NoAlpha => 0,
        AlphaType::OneBit => 1,
        AlphaType::Enhanced => 7,
        AlphaType::EightBit => 8,
    }
}

impl AlphaType {
    /// Reads the alpha type field: 0, 1, 7 and 8 are known.
    pub fn try_from(val: u8) -> (r: Result<AlphaType, UnknownAlphaType>)
        ensures
            ((val == 0 || val == 1 || val == 7 || val == 8) <==> r is Ok),
            r is Ok ==> alpha_type_value(r->Ok_0) == val,
            r is Err ==> r->Err_0 == UnknownAlphaType(val),
    {
        match val {
            0 => Ok(AlphaType::NoAlpha),
            1 => Ok(AlphaType::OneBit),
            7 => Ok(AlphaType::Enhanced),
            8 => Ok(AlphaType::EightBit),
            _ => Err(UnknownAlphaType(val)),
        }
    }

    /// Was this alpha type available in the given client version?
    /// Enhanced blending arrived with the second expansion.
    pub fn is_supported_in_version(self, wow_version: WowVersion) -> (r: bool)
        ensures
            r == match self {
                AlphaType::Enhanced => !(wow_version is Vanilla),
                _ => true,
            },
    {
        match self {
            AlphaType::NoAlpha | AlphaType::OneBit | AlphaType::EightBit => true,
            AlphaType::Enhanced => !matches!(wow_version, WowVersion::Vanilla),
        }
    }

    /// The effective alpha bit depth of this type; enhanced blending
    /// uses full 8-bit precision.
    pub fn alpha_bits(self) -> (r: u8)
        ensures
            r == match self {
                AlphaType::NoAlpha => 0u8,
                AlphaType::OneBit => 1u8,
                AlphaType::Enhanced => 8u8,
                AlphaType::EightBit => 8u8,
            },
    {
        match self {
            AlphaType::NoAlpha => 0,
            AlphaType::OneBit => 1,
            AlphaType::Enhanced => 8,
            AlphaType::EightBit => 8,
        }
    }
}

impl From<AlphaType> for u8 {
    /// The wire value of the alpha type.
    fn from(val: AlphaType) -> (r: u8) {
        match val {
            AlphaType::NoAlpha => 0,
            AlphaType::OneBit => 1,
            AlphaType::Enhanced => 7,
            AlphaType::EightBit => 8,
        }
    }
}

impl vstd::std_specs::convert::FromSpecImpl<AlphaType> for u8 {
    open spec fn obeys_from_spec() -> bool {
        true
    }

    open spec fn from_spec(t: AlphaType) -> u8 {
        alpha_type_value(t)
    }
}

/// The client versions the compatibility check distinguishes.
#[derive(Debug, Clone, Copy, PartialEq, Eq, Structural)]
pub enum WowVersion {
    /// The original client.
    Vanilla,
    /// The first expansion's later patches.
    TBC,
    /// The second expansion.
    WotLK,
    /// The third expansion.
    Cataclysm,
    /// The fourth expansion.
    MoP,
}

// ---------------------------------------------------------------------------
// Compression
// ---------------------------------------------------------------------------

/// The compression of the second format version.
#[derive(Debug, Clone, Copy, PartialEq, Eq, Structural)]
pub enum Compression {
    /// JPEG compression; wire value 0.
    Jpeg,
    /// Palettized 256-color data; wire value 1.
    Raw1,
    /// Uncompressed RGBA data; wire value 3.
    Raw3,
    /// S3TC block compression; wire value 2.
    Dxtc,
}

/// An unknown compression field value.
#[derive(Debug, Clone, Copy, PartialEq, Eq, Structural)]
pub struct UnknownCompression(pub u8);

impl Compression {
    /// Reads the compression field: 0 to 3 are known.
    pub fn try_from(val: u8) -> (r: Result<Compression, UnknownCompression>)
        ensures
            val == 0 ==> r == Ok::<_, UnknownCompression>(Compression::Jpeg),
            val == 1 ==> r == Ok::<_, UnknownCompression>(Compression::Raw1),
            val == 2 ==> r == Ok::<_, UnknownCompression>(Compression::Dxtc),
            val == 3 ==> r == Ok::<_, UnknownCompression>(Compression::Raw3),
            val >= 4 ==> r == Err::<Compression, _>(UnknownCompression(val)),
    {
        match val {
            0 => Ok(Compression::Jpeg),
            1 => Ok(Compression::Raw1),
            2 => Ok(Compression::Dxtc),
            3 => Ok(Compression::Raw3),
            _ => Err(UnknownCompression(val)),
        }
    }

    /// The wire value of the compression.
    pub fn to_u8(self) -> (r: u8)
        ensures
            self is Jpeg ==> r == 0,
            self is Raw1 ==> r == 1,
            self is Dxtc ==> r == 2,
            self is Raw3 ==> r == 3,
    {
        match self {
            Compression::Jpeg => 0,
            Compression::Raw1 => 1,
            Compression::Dxtc => 2,
            Compression::Raw3 => 3,
        }
    }
}

// ---------------------------------------------------------------------------
// Flags
// ---------------------------------------------------------------------------

/// The version-dependent part of the header.
#[derive(Debug, Clone, Copy, PartialEq, Eq, Structural)]
pub enum BlpFlags {
    /// For the second format version.
    Blp2 {
        /// Compression method used.
        compression: Compression,
        /// Alpha channel bit depth.
        alpha_bits: u8,
        /// Alpha encoding type.
        alpha_type: AlphaType,
        /// Whether the image has mipmaps.
        has_mipmaps: u8,
    },
    /// For the earlier versions.
    Old {
        /// Alpha channel bit depth.
        alpha_bits: u32,
        /// An extra field with no known purpose, usually 4 or 5.
        extra: u32,
        /// Whether the image has mipmaps, 0 or 1.
        has_mipmaps: u32,
    },
}

impl Default for BlpFlags {
    /// The early-version flags with a full alpha byte and mipmaps on.
    fn default() -> (r: Self)
        ensures
            r == (BlpFlags::Old { alpha_bits: 8u32, extra: 8u32, has_mipmaps: 1u32 }),
    {
        BlpFlags::Old { alpha_bits: 8, extra: 8, has_mipmaps: 1 }
    }
}

/// Whether flags declare mipmaps.
pub open spec fn spec_has_mipmaps(f: BlpFlags) -> bool {
    match f {
        BlpFlags::Blp2 { has_mipmaps, .. } => has_mipmaps != 0,
        BlpFlags::Old { has_mipmaps, .. } => has_mipmaps != 0,
    }
}

/// The alpha bit depth flags declare: uncompressed RGBA always carries
/// four bits, any other second-version form its recorded depth.
pub open spec fn spec_alpha_bits(f: BlpFlags) -> u32 {
    match f {
        BlpFlags::Blp2 { compression, alpha_bits, .. } => if compression is Raw3 {
            4
        } else {
            alpha_bits as u32
        },
        BlpFlags::Old { alpha_bits, .. } => alpha_bits,
    }
}

impl BlpFlags {
    /// Whether the image has mipmaps.
    pub fn has_mipmaps(&self) -> (r: bool)
        ensures
            r == spec_has_mipmaps(*self),
    {
        match self {
            BlpFlags::Blp2 { has_mipmaps, .. } => *has_mipmaps != 0,
            BlpFlags::Old { has_mipmaps, .. } => *has_mipmaps != 0,
        }
    }

    /// The alpha bit depth of the content.
    pub fn alpha_bits(&self) -> (r: u32)
        ensures
            r == spec_alpha_bits(*self),
    {
        match self {
            BlpFlags::Blp2 { compression, alpha_bits, .. } => {
                if matches!(compression, Compression::Raw3) {
                    4
                } else {
                    *alpha_bits as u32
                }
            },
            BlpFlags::Old { alpha_bits, .. } => *alpha_bits,
        }
    }

    /// The alpha type, present only in the second format version.
    pub fn alpha_type(&self) -> (r: Option<AlphaType>)
        ensures
            r == match *self {
                BlpFlags::Blp2 { alpha_type, .. } => Some(alpha_type),
                BlpFlags::Old { .. } => None::<AlphaType>,
            },
    {
        match self {
            BlpFlags::Blp2 { alpha_type, .. } => Some(*alpha_type),
            BlpFlags::Old { .. } => None,
        }
    }
}

// ---------------------------------------------------------------------------
// The header
// ---------------------------------------------------------------------------

/// The header of a texture file.
#[derive(Debug, Clone, Copy, PartialEq, Eq)]
pub struct BlpHeader {
    /// Format version.
    pub version: BlpVersion,
    /// Content encoding.
    pub content: BlpContentTag,
    /// Version-specific flags.
    pub flags: BlpFlags,
    /// Image width in pixels.
    pub width: u32,
    /// Image height in pixels.
    pub height: u32,
    /// Where the mipmaps live.
    pub mipmap_locator: MipmapLocator,
}

impl Default for BlpHeader {
    /// A one-pixel JPEG image of the middle format version.
    fn default() -> (r: Self)
        ensures
            r.version is Blp1,
            r.content is Jpeg,
            r.flags == (BlpFlags::Old { alpha_bits: 8u32, extra: 8u32, has_mipmaps: 1u32 }),
            r.width == 1,
            r.height == 1,
            r.mipmap_locator is External,
    {
        BlpHeader {
            version: BlpVersion::Blp1,
            content: BlpContentTag::Jpeg,
            flags: Default::default(),
            width: 1,
            height: 1,
            mipmap_locator: Default::default(),
        }
    }
}

/// The binary logarithm of a dimension, rounded down; zero for zero.
pub open spec fn floor_log2(n: int) -> int
    decreases n,
{
    if n < 2 {
        0
    } else {
        1 + floor_log2(n / 2)
    }
}

/// The binary logarithm of a dimension, rounded down.
pub fn floor_log2_u32(n: u32) -> (r: u32)
    ensures
        r as int == floor_log2(n as int),
        r <= 31,
{
    proof {
        lemma_floor_log2_bound(n as int);
    }
    let mut v: u32 = n;
    let mut c: u32 = 0;
    while v >= 2
        invariant
            c as int + floor_log2(v as int) == floor_log2(n as int),
            floor_log2(n as int) <= 31,
        decreases v,
    {
        proof {
            lemma_floor_log2_nonneg(v as int / 2);
        }
        v = v / 2;
        c = c + 1;
    }
    c
}

/// A logarithm is never negative.
proof fn lemma_floor_log2_nonneg(n: int)
    ensures
        floor_log2(n) >= 0,
    decreases n,
{
    if n >= 2 {
        lemma_floor_log2_nonneg(n / 2);
    }
}

/// A dimension below a power of two has a logarithm below its exponent.
proof fn lemma_floor_log2_below(n: int, k: nat)
    requires
        n < vstd::arithmetic::power2::pow2(k + 1),
    ensures
        floor_log2(n) <= k,
    decreases k,
{
    if n >= 2 {
        vstd::arithmetic::power2::lemma2_to64();
        if k >= 1 {
            vstd::arithmetic::power2::lemma_pow2_unfold(k + 1);
            lemma_floor_log2_below(n / 2, (k - 1) as nat);
        }
    }
}

/// A 32-bit dimension's logarithm stays under 32.
proof fn lemma_floor_log2_bound(n: int)
    requires
        n <= 0xffffffff,
    ensures
        floor_log2(n) <= 31,
{
    vstd::arithmetic::power2::lemma2_to64();
    lemma_floor_log2_below(n, 31);
}

/// The expected size of the mipmap at `level`: level 0 is the original
/// image, each further level halves both dimensions, never below one
/// pixel.
pub open spec fn spec_mipmap_size(w: u32, h: u32, level: usize) -> (u32, u32) {
    if level == 0 {
        (w, h)
    } else if level >= 32 {
        (1u32, 1u32)
    } else {
        (
            if w >> (level as u32) == 0 {
                1u32
            } else {
                w >> (level as u32)
            },
            if h >> (level as u32) == 0 {
                1u32
            } else {
                h >> (level as u32)
            },
        )
    }
}

impl BlpHeader {
    /// How many mipmap levels the dimensions call for: the binary
    /// logarithm of the larger dimension; none when mipmaps are off.
    pub fn mipmaps_count(&self) -> (r: usize)
        ensures
            r as int == if spec_has_mipmaps(self.flags) {
                vstd::math::max(floor_log2(self.width as int), floor_log2(self.height as int))
            } else {
                0
            },
    {
        if self.has_mipmaps() {
            let width_n = floor_log2_u32(self.width) as usize;
            let height_n = floor_log2_u32(self.height) as usize;
            if width_n >= height_n {
                width_n
            } else {
                height_n
            }
        } else {
            0
        }
    }

    /// Whether the header declares mipmaps.
    pub fn has_mipmaps(&self) -> (r: bool)
        ensures
            r == spec_has_mipmaps(self.flags),
    {
        self.flags.has_mipmaps()
    }

    /// The expected size of the mipmap at `i`; level 0 is the original.
    pub fn mipmap_size(&self, i: usize) -> (r: (u32, u32))
        ensures
            r == spec_mipmap_size(self.width, self.height, i),
    {
        if i == 0 {
            (self.width, self.height)
        } else if i >= 32 {
            (1, 1)
        } else {
            let w = self.width >> (i as u32);
            let h = self.height >> (i as u32);
            (
                if w == 0 {
                    1
                } else {
                    w
                },
                if h == 0 {
                    1
                } else {
                    h
                },
            )
        }
    }

    /// The pixel count of the mipmap at `i`.
    pub fn mipmap_pixels(&self, i: usize) -> (r: u32)
        requires
            spec_mipmap_size(self.width, self.height, i).0 as int * spec_mipmap_size(
                self.width,
                self.height,
                i,
            ).1 as int <= u32::MAX as int,
        ensures
            r as int == spec_mipmap_size(self.width, self.height, i).0 as int * spec_mipmap_size(
                self.width,
                self.height,
                i,
            ).1 as int,
    {
        let (w, h) = self.mipmap_size(i);
        w * h
    }

    /// The alpha bit depth of the content.
    pub fn alpha_bits(&self) -> (r: u32)
        ensures
            r == spec_alpha_bits(self.flags),
    {
        self.flags.alpha_bits()
    }

    /// The alpha type, for the second format version only.
    pub fn alpha_type(&self) -> (r: Option<AlphaType>)
        ensures
            r == match self.flags {
                BlpFlags::Blp2 { alpha_type, .. } => Some(alpha_type),
                BlpFlags::Old { .. } => None::<AlphaType>,
            },
    {
        self.flags.alpha_type()
    }

    /// Checks the header against a client version: only an enhanced
    /// alpha type on a client before the first expansion's later
    /// patches is rejected.
    pub fn validate_for_wow_version(&self, wow_version: WowVersion) -> (r: Result<(), String>)
        ensures
            r is Ok <==> !(self.flags matches BlpFlags::Blp2 { alpha_type, .. }
                && alpha_type is Enhanced && wow_version is Vanilla),
    {
        match self.alpha_type() {
            Some(alpha_type) => {
                if !alpha_type.is_supported_in_version(wow_version) {
                    Err(
                        <String as StringExecFns>::from_str(
                            "alpha type not supported in this client version",
                        ),
                    )
                } else {
                    Ok(())
                }
            },
            None => Ok(()),
        }
    }

    /// The offsets and sizes of internal mipmaps; nothing for external
    /// ones.
    pub fn internal_mipmaps(&self) -> (r: Option<([u32; 16], [u32; 16])>)
        ensures
            r is Some <==> self.mipmap_locator is Internal,
            r is Some ==> (r->0).0 == self.mipmap_locator->offsets && (r->0).1
                == self.mipmap_locator->sizes,
    {
        match self.mipmap_locator {
            MipmapLocator::Internal { offsets, sizes } => Some((offsets, sizes)),
            MipmapLocator::External => None,
        }
    }

    /// The size in bytes of the header of a version, without any JPEG
    /// header or color map: the magic and four words, the two extra
    /// early-version words, and the internal mipmap table of the later
    /// versions.
    pub fn size(version: BlpVersion) -> (r: usize)
        ensures
            version is Blp0 ==> r == 28,
            version is Blp1 ==> r == 156,
            version is Blp2 ==> r == 148,
    {
        match version {
            BlpVersion::Blp0 => 28,
            BlpVersion::Blp1 => 156,
            BlpVersion::Blp2 => 148,
        }
    }
}

// ---------------------------------------------------------------------------
// Bounds checking for mipmap slices
// ---------------------------------------------------------------------------

/// A mipmap's recorded range reaches outside the file data.
#[derive(Debug, Clone, Copy, PartialEq, Eq, Structural)]
pub struct BlpOutOfBounds {
    /// The offending offset.
    pub offset: usize,
    /// The offending size, or zero when the offset alone was out.
    pub size: usize,
}

/// Checks that a mipmap's offset and size lie within the input data:
/// the offset must fall inside it and the range must not reach past its
/// end.
pub fn check_bounds(input: &[u8], offset: u32, size: u32, _mipmap_index: usize) -> (r: Result<
    (),
    BlpOutOfBounds,
>)
    ensures
        r is Ok <==> (offset as int) < input@.len() && offset as int + size as int
            <= input@.len(),
        r is Err ==> r->Err_0.offset == offset as int,
        r is Err ==> r->Err_0.size == (if (offset as int) < input@.len() {
            size as int
        } else {
            0
        }),
{
    let n = input.len();
    if offset as usize >= n {
        return Err(BlpOutOfBounds { offset: offset as usize, size: 0 });
    }
    if offset as u64 + size as u64 > n as u64 {
        return Err(BlpOutOfBounds { offset: offset as usize, size: size as usize });
    }
    Ok(())
}

/// The slice of the input a mipmap's range covers, after checking the
/// bounds.
pub fn get_bounded_slice<'a>(input: &'a [u8], offset: u32, size: u32, mipmap_index: usize) -> (r:
    Result<&'a [u8], BlpOutOfBounds>)
    ensures
        r is Ok <==> (offset as int) < input@.len() && offset as int + size as int
            <= input@.len(),
        r is Ok ==> r->Ok_0@ == input@.subrange(offset as int, offset as int + size as int),
        r is Err ==> r->Err_0.offset == offset as int,
        r is Err ==> r->Err_0.size == (if (offset as int) < input@.len() {
            size as int
        } else {
            0
        }),
{
    let n = input.len();
    match check_bounds(input, offset, size, mipmap_index) {
        Ok(()) => {
            proof {
                assert(offset as int + size as int <= n as int);
            }
            let end: usize = (offset as u64 + size as u64) as usize;
            proof {
                assert(end as int == offset as int + size as int);
            }
            Ok(&input[offset as usize..end])
        },
        Err(e) => Err(e),
    }
}

} // verus!
