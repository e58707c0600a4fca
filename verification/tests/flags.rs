use jolt::{AllowedDOFs, ConfigurationFeatures};

#[test]
fn allowed_dofs_masks() {
    assert_eq!(AllowedDOFs::TRANSLATION_X, 0b000001);
    assert_eq!(AllowedDOFs::TRANSLATION_Y, 0b000010);
    assert_eq!(AllowedDOFs::TRANSLATION_Z, 0b000100);
    assert_eq!(AllowedDOFs::ROTATION_X, 0b001000);
    assert_eq!(AllowedDOFs::ROTATION_Y, 0b010000);
    assert_eq!(AllowedDOFs::ROTATION_Z, 0b100000);
    assert_eq!(AllowedDOFs::ALL_TRANSLATIONS, 0b000111);
    assert_eq!(AllowedDOFs::ALL_ROTATIONS, 0b111000);
    assert_eq!(AllowedDOFs::all().bits(), 0b111111);
    assert_eq!(AllowedDOFs::empty().bits(), 0);
}

#[test]
fn allowed_dofs_from_bits() {
    assert_eq!(AllowedDOFs::from_bits(0b101), Some(AllowedDOFs::from_bits_retain(0b101)));
    assert_eq!(AllowedDOFs::from_bits(0b1000000), None);
    assert_eq!(AllowedDOFs::from_bits(0xff), None);
    assert_eq!(AllowedDOFs::from_bits_truncate(0xff).bits(), 0b111111);
    assert_eq!(AllowedDOFs::from_bits_retain(0xff).bits(), 0xff);
}

#[test]
fn allowed_dofs_set_operations() {
    let translations = AllowedDOFs::from_bits_retain(AllowedDOFs::ALL_TRANSLATIONS);
    let rotations = AllowedDOFs::from_bits_retain(AllowedDOFs::ALL_ROTATIONS);
    let x = AllowedDOFs::from_bits_retain(AllowedDOFs::TRANSLATION_X);
    assert_eq!(translations.union(rotations), AllowedDOFs::all());
    assert_eq!(translations.intersection(rotations), AllowedDOFs::empty());
    assert_eq!(translations.difference(x).bits(), 0b000110);
    assert_eq!(translations.complement(), rotations);
    assert!(translations.contains(x));
    assert!(!rotations.contains(x));
    assert!(translations.intersects(x));
    assert!(!translations.intersects(rotations));
    assert!(AllowedDOFs::all().is_all());
    assert!(!translations.is_all());
    assert!(AllowedDOFs::empty().is_empty());
    assert!(!x.is_empty());
    let mut plane = x;
    plane.insert(AllowedDOFs::from_bits_retain(
        AllowedDOFs::TRANSLATION_Y | AllowedDOFs::ROTATION_Z,
    ));
    assert_eq!(plane.bits(), 0b100011);
    plane.remove(x);
    assert_eq!(plane.bits(), 0b100010);
}

#[test]
fn configuration_feature_masks() {
    assert_eq!(ConfigurationFeatures::DOUBLE_PRECISION, 1);
    assert_eq!(ConfigurationFeatures::NEON, 1 << 1);
    assert_eq!(ConfigurationFeatures::SSE, 1 << 2);
    assert_eq!(ConfigurationFeatures::SSE4_1, 1 << 3);
    assert_eq!(ConfigurationFeatures::SSE4_2, 1 << 4);
    assert_eq!(ConfigurationFeatures::AVX, 1 << 5);
    assert_eq!(ConfigurationFeatures::AVX2, 1 << 6);
    assert_eq!(ConfigurationFeatures::AVX512, 1 << 7);
    assert_eq!(ConfigurationFeatures::F16C, 1 << 8);
    assert_eq!(ConfigurationFeatures::LZCNT, 1 << 9);
    assert_eq!(ConfigurationFeatures::TZCNT, 1 << 10);
    assert_eq!(ConfigurationFeatures::FMADD, 1 << 11);
    assert_eq!(ConfigurationFeatures::PLATFORM_DETERMINISTIC, 1 << 12);
    assert_eq!(ConfigurationFeatures::FLOATING_POINT_EXCEPTIONS, 1 << 13);
    assert_eq!(ConfigurationFeatures::DEBUG, 1 << 14);
    assert_eq!(ConfigurationFeatures::all().bits(), 0x7fff);
}

#[test]
fn configuration_features_keep_unknown_bits() {
    let raw = 0x8000_0005u32;
    let features = ConfigurationFeatures::from_bits_retain(raw);
    assert_eq!(features.bits(), raw);
    assert!(features.contains(ConfigurationFeatures::from_bits_retain(
        ConfigurationFeatures::SSE
    )));
    assert!(!features.contains(ConfigurationFeatures::from_bits_retain(
        ConfigurationFeatures::AVX
    )));
    assert_eq!(ConfigurationFeatures::from_bits(raw), None);
    assert_eq!(ConfigurationFeatures::from_bits_truncate(raw).bits(), 5);
    assert_eq!(
        ConfigurationFeatures::from_bits(5),
        Some(ConfigurationFeatures::from_bits_retain(5))
    );
    assert_eq!(features.complement().bits(), 0x7ffa);
    assert!(!features.is_all());
    assert!(features.intersects(ConfigurationFeatures::all()));
    let mut changed = features;
    changed.insert(ConfigurationFeatures::from_bits_retain(ConfigurationFeatures::DEBUG));
    assert_eq!(changed.bits(), 0x8000_4005);
    changed.remove(features);
    assert_eq!(changed.bits(), 0x4000);
    assert_eq!(features.union(changed).bits(), 0x8000_4005);
    assert_eq!(features.intersection(changed).bits(), 0);
    assert_eq!(features.difference(changed), features);
    assert!(ConfigurationFeatures::empty().is_empty());
}
