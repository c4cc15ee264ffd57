use wow_alchemy::blp::{check_bounds, get_bounded_slice, AlphaType, BlpContentTag, BlpFlags, BlpHeader, BlpVersion, Compression, WowVersion};

#[test]
fn test_alpha_type_conversion() {
    assert_eq!(u8::from(AlphaType::NoAlpha), 0);
    assert_eq!(u8::from(AlphaType::OneBit), 1);
    assert_eq!(u8::from(AlphaType::Enhanced), 7);
    assert_eq!(u8::from(AlphaType::EightBit), 8);

    assert_eq!(AlphaType::try_from(0).unwrap(), AlphaType::NoAlpha);
    assert_eq!(AlphaType::try_from(1).unwrap(), AlphaType::OneBit);
    assert_eq!(AlphaType::try_from(7).unwrap(), AlphaType::Enhanced);
    assert_eq!(AlphaType::try_from(8).unwrap(), AlphaType::EightBit);

    assert!(AlphaType::try_from(9).is_err());
}

#[test]
fn test_alpha_type_wow_version_support() {
    assert!(AlphaType::NoAlpha.is_supported_in_version(WowVersion::Vanilla));
    assert!(AlphaType::OneBit.is_supported_in_version(WowVersion::Vanilla));
    assert!(!AlphaType::Enhanced.is_supported_in_version(WowVersion::Vanilla));
    assert!(AlphaType::EightBit.is_supported_in_version(WowVersion::Vanilla));

    assert!(AlphaType::Enhanced.is_supported_in_version(WowVersion::TBC));
    assert!(AlphaType::Enhanced.is_supported_in_version(WowVersion::Cataclysm));
}

#[test]
fn test_mipmap_count() {
    let header = BlpHeader {
        width: 512,
        height: 256,
        version: BlpVersion::Blp0,
        ..Default::default()
    };
    assert_eq!(header.mipmaps_count(), 9);

    let header = BlpHeader {
        width: 512,
        height: 256,
        version: BlpVersion::Blp1,
        ..Default::default()
    };
    assert_eq!(header.mipmaps_count(), 9);

    let header = BlpHeader { width: 1, height: 4, ..Default::default() };
    assert_eq!(header.mipmaps_count(), 2);

    let header = BlpHeader { width: 4, height: 7, ..Default::default() };
    assert_eq!(header.mipmaps_count(), 2);

    let header = BlpHeader { width: 768, height: 128, ..Default::default() };
    assert_eq!(header.mipmaps_count(), 9);
}

#[test]
fn blp_header_geometry() {
    let header = BlpHeader { width: 512, height: 256, ..Default::default() };
    assert_eq!(header.mipmap_size(0), (512, 256));
    assert_eq!(header.mipmap_size(1), (256, 128));
    assert_eq!(header.mipmap_size(9), (1, 1));
    assert_eq!(header.mipmap_size(40), (1, 1));
    assert_eq!(header.mipmap_pixels(0), 512 * 256);
    assert_eq!(header.mipmap_pixels(9), 1);
    assert_eq!(BlpHeader::size(BlpVersion::Blp0), 28);
    assert_eq!(BlpHeader::size(BlpVersion::Blp1), 156);
    assert_eq!(BlpHeader::size(BlpVersion::Blp2), 148);
}

#[test]
fn blp_validate_and_flags() {
    let old = BlpHeader { ..Default::default() };
    assert!(old.has_mipmaps());
    assert_eq!(old.alpha_bits(), 8);
    assert!(old.alpha_type().is_none());
    assert!(old.validate_for_wow_version(WowVersion::Vanilla).is_ok());

    let blp2 = BlpHeader {
        version: BlpVersion::Blp2,
        flags: BlpFlags::Blp2 {
            compression: Compression::Dxtc,
            alpha_bits: 1,
            alpha_type: AlphaType::Enhanced,
            has_mipmaps: 0,
        },
        ..Default::default()
    };
    assert!(!blp2.has_mipmaps());
    assert_eq!(blp2.alpha_bits(), 1);
    assert_eq!(blp2.alpha_type(), Some(AlphaType::Enhanced));
    assert!(blp2.validate_for_wow_version(WowVersion::Vanilla).is_err());
    assert!(blp2.validate_for_wow_version(WowVersion::WotLK).is_ok());

    let raw3 = BlpFlags::Blp2 {
        compression: Compression::Raw3,
        alpha_bits: 0,
        alpha_type: AlphaType::NoAlpha,
        has_mipmaps: 1,
    };
    assert_eq!(raw3.alpha_bits(), 4);
}

#[test]
fn blp_bounds_checks() {
    let data = [1u8, 2, 3, 4, 5, 6, 7, 8];
    assert!(check_bounds(&data, 0, 8, 0).is_ok());
    assert!(check_bounds(&data, 7, 1, 0).is_ok());
    assert!(check_bounds(&data, 8, 0, 0).is_err());
    assert!(check_bounds(&data, 2, 7, 0).is_err());
    let s = get_bounded_slice(&data, 2, 3, 0).unwrap();
    assert_eq!(s, &[3u8, 4, 5]);
    assert!(get_bounded_slice(&data, 6, 3, 0).is_err());
}

#[test]
fn blp_compression_and_content() {
    assert_eq!(Compression::try_from(0).unwrap(), Compression::Jpeg);
    assert_eq!(Compression::try_from(1).unwrap(), Compression::Raw1);
    assert_eq!(Compression::try_from(2).unwrap(), Compression::Dxtc);
    assert_eq!(Compression::try_from(3).unwrap(), Compression::Raw3);
    assert!(Compression::try_from(4).is_err());
    assert_eq!(Compression::Raw3.to_u8(), 3);
    assert_eq!(BlpContentTag::try_from(0).unwrap(), BlpContentTag::Jpeg);
    assert_eq!(BlpContentTag::try_from(1).unwrap(), BlpContentTag::Direct);
    assert!(BlpContentTag::try_from(2).is_err());
    assert_eq!(BlpContentTag::Direct.to_u32(), 1);
}
