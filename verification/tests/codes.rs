use jolt::{
    Activation, MotionQuality, MotionType, OverrideMassProperties, ShapeSubType, ShapeType,
    ValidateResult,
};

#[test]
fn activation_codes() {
    assert_eq!(Activation::Activate.to_raw(), 0);
    assert_eq!(Activation::DontActivate.to_raw(), 1);
    assert_eq!(Activation::from_raw(0), Some(Activation::Activate));
    assert_eq!(Activation::from_raw(1), Some(Activation::DontActivate));
    assert_eq!(Activation::from_raw(2), None);
    assert_eq!(Activation::from_raw(255), None);
}

#[test]
fn motion_type_codes() {
    assert_eq!(MotionType::Static.to_raw(), 0);
    assert_eq!(MotionType::Kinematic.to_raw(), 1);
    assert_eq!(MotionType::Dynamic.to_raw(), 2);
    assert_eq!(MotionType::from_raw(2), Some(MotionType::Dynamic));
    assert_eq!(MotionType::from_raw(3), None);
}

#[test]
fn motion_quality_codes() {
    assert_eq!(MotionQuality::Discrete.to_raw(), 0);
    assert_eq!(MotionQuality::LinearCast.to_raw(), 1);
    assert_eq!(MotionQuality::from_raw(1), Some(MotionQuality::LinearCast));
    assert_eq!(MotionQuality::from_raw(2), None);
}

#[test]
fn override_mass_properties_codes() {
    assert_eq!(OverrideMassProperties::CalculateMassAndInertia.to_raw(), 0);
    assert_eq!(OverrideMassProperties::CalculateInertia.to_raw(), 1);
    assert_eq!(OverrideMassProperties::MassAndInertiaProvided.to_raw(), 2);
    assert_eq!(
        OverrideMassProperties::from_raw(1),
        Some(OverrideMassProperties::CalculateInertia)
    );
    assert_eq!(OverrideMassProperties::from_raw(3), None);
}

#[test]
fn validate_result_codes() {
    assert_eq!(ValidateResult::AcceptAllContactsForThisBodyPair.to_raw(), 0);
    assert_eq!(ValidateResult::AcceptContact.to_raw(), 1);
    assert_eq!(ValidateResult::RejectContact.to_raw(), 2);
    assert_eq!(ValidateResult::RejectAllContactsForThisBodyPair.to_raw(), 3);
    assert_eq!(ValidateResult::from_raw(2), Some(ValidateResult::RejectContact));
    assert_eq!(ValidateResult::from_raw(4), None);
    assert_eq!(ValidateResult::from_raw(u32::MAX), None);
}

#[test]
fn shape_type_codes() {
    assert_eq!(ShapeType::Convex.to_raw(), 0);
    assert_eq!(ShapeType::Compound.to_raw(), 1);
    assert_eq!(ShapeType::Decorated.to_raw(), 2);
    assert_eq!(ShapeType::Mesh.to_raw(), 3);
    assert_eq!(ShapeType::HeightField.to_raw(), 4);
    assert_eq!(ShapeType::User1.to_raw(), 5);
    assert_eq!(ShapeType::User4.to_raw(), 8);
    assert_eq!(ShapeType::from_raw(3), Some(ShapeType::Mesh));
    assert_eq!(ShapeType::from_raw(9), None);
}

#[test]
fn shape_subtype_codes() {
    assert_eq!(ShapeSubType::Sphere.to_raw(), 0);
    assert_eq!(ShapeSubType::Box.to_raw(), 1);
    assert_eq!(ShapeSubType::ConvexHull.to_raw(), 6);
    assert_eq!(ShapeSubType::StaticCompound.to_raw(), 7);
    assert_eq!(ShapeSubType::RotatedTranslated.to_raw(), 9);
    assert_eq!(ShapeSubType::Mesh.to_raw(), 12);
    assert_eq!(ShapeSubType::HeightField.to_raw(), 13);
    assert_eq!(ShapeSubType::User1.to_raw(), 14);
    assert_eq!(ShapeSubType::User8.to_raw(), 21);
    assert_eq!(ShapeSubType::UserConvex1.to_raw(), 22);
    assert_eq!(ShapeSubType::UserConvex8.to_raw(), 29);
    assert_eq!(ShapeSubType::from_raw(10), Some(ShapeSubType::Scaled));
    assert_eq!(ShapeSubType::from_raw(30), None);
}

#[test]
fn every_code_decodes_to_what_encodes_it() {
    for raw in 0u8..=255 {
        if let Some(value) = MotionType::from_raw(raw) {
            assert_eq!(value.to_raw(), raw);
        } else {
            assert!(raw >= 3);
        }
        if let Some(value) = ShapeType::from_raw(raw) {
            assert_eq!(value.to_raw(), raw);
        } else {
            assert!(raw >= 9);
        }
        if let Some(value) = ShapeSubType::from_raw(raw) {
            assert_eq!(value.to_raw(), raw);
        } else {
            assert!(raw >= 30);
        }
        if let Some(value) = Activation::from_raw(raw) {
            assert_eq!(value.to_raw(), raw);
        } else {
            assert!(raw >= 2);
        }
        if let Some(value) = ValidateResult::from_raw(raw as u32) {
            assert_eq!(value.to_raw(), raw as u32);
        } else {
            assert!(raw >= 4);
        }
    }
}
