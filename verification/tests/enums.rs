use raygeo::ops::enums::{CommandCategory, CommandType, RasterMode, SectionType};

const ALL: [CommandType; 29] = [
    CommandType::MoveTo,
    CommandType::LineTo,
    CommandType::ArcTo,
    CommandType::ScanLine,
    CommandType::Dwell,
    CommandType::BezierTo,
    CommandType::QuadraticBezierTo,
    CommandType::SetPower,
    CommandType::SetFeedRate,
    CommandType::SetRapidRate,
    CommandType::SetHead,
    CommandType::SetFrequency,
    CommandType::SetPulseWidth,
    CommandType::SetSpindleRpm,
    CommandType::SetCoolant,
    CommandType::SetAirAssist,
    CommandType::SetHeadCoolant,
    CommandType::JobStart,
    CommandType::JobEnd,
    CommandType::LayerStart,
    CommandType::LayerEnd,
    CommandType::WorkpieceStart,
    CommandType::WorkpieceEnd,
    CommandType::OpsSectionStart,
    CommandType::OpsSectionEnd,
    CommandType::StateBlockStart,
    CommandType::StateBlockEnd,
    CommandType::ProcessStart,
    CommandType::ProcessEnd,
];

#[test]
fn command_type_names_round_trip() {
    for ct in ALL {
        assert_eq!(CommandType::from_name(ct.name()), Some(ct));
    }
}

#[test]
fn command_type_names_are_distinct() {
    for a in ALL {
        for b in ALL {
            if a != b {
                assert_ne!(a.name(), b.name());
            }
        }
    }
}

#[test]
fn command_type_wire_names() {
    assert_eq!(CommandType::MoveTo.name(), "MOVE_TO");
    assert_eq!(CommandType::Dwell.name(), "DWELL");
    assert_eq!(CommandType::QuadraticBezierTo.name(), "QUADRATIC_BEZIER_TO");
    assert_eq!(CommandType::OpsSectionStart.name(), "OPS_SECTION_START");
    assert_eq!(CommandType::from_name("LAYER_END"), Some(CommandType::LayerEnd));
}

#[test]
fn command_type_from_name_is_case_sensitive() {
    assert_eq!(CommandType::from_name("move_to"), None);
    assert_eq!(CommandType::from_name(""), None);
    assert_eq!(CommandType::from_name("MOVE_TO "), None);
}

#[test]
fn command_type_codes_round_trip() {
    for ct in ALL {
        assert_eq!(CommandType::from_value(ct.value()), Some(ct));
    }
    assert_eq!(CommandType::MoveTo.value(), 1);
    assert_eq!(CommandType::SetPower.value(), 10);
    assert_eq!(CommandType::SetHead.value(), 15);
    assert_eq!(CommandType::ProcessEnd.value(), 111);
}

#[test]
fn command_type_unknown_codes() {
    for v in [0u8, 8, 9, 13, 14, 19, 23, 99, 112, 255] {
        assert_eq!(CommandType::from_value(v), None);
    }
}

#[test]
fn command_type_categories() {
    assert_eq!(CommandType::ScanLine.category(), CommandCategory::Moving);
    assert_eq!(CommandType::BezierTo.category(), CommandCategory::Moving);
    assert_eq!(CommandType::Dwell.category(), CommandCategory::State);
    assert_eq!(CommandType::SetHeadCoolant.category(), CommandCategory::State);
    assert_eq!(CommandType::StateBlockEnd.category(), CommandCategory::Marker);
    assert_eq!(CommandType::JobStart.category(), CommandCategory::Marker);
}

#[test]
fn command_category_names() {
    assert_eq!(CommandCategory::Moving.name(), "MOVING");
    assert_eq!(CommandCategory::State.name(), "STATE");
    assert_eq!(CommandCategory::Marker.name(), "MARKER");
}

#[test]
fn section_type_names() {
    assert_eq!(SectionType::VectorOutline.name(), "VECTOR_OUTLINE");
    assert_eq!(SectionType::RasterFill.name(), "RASTER_FILL");
    assert_eq!(SectionType::from_name("RASTER_FILL"), Some(SectionType::RasterFill));
    assert_eq!(SectionType::from_name("VECTOR_OUTLINE"), Some(SectionType::VectorOutline));
    assert_eq!(SectionType::from_name("raster_fill"), None);
}

#[test]
fn raster_mode_names_and_codes() {
    for m in [RasterMode::VariablePower, RasterMode::ConstantPower, RasterMode::DepthMap] {
        assert_eq!(RasterMode::from_name(m.name()), Some(m));
    }
    assert_eq!(RasterMode::ConstantPower.name(), "CONSTANT_POWER");
    assert_eq!(RasterMode::VariablePower.value(), 1);
    assert_eq!(RasterMode::ConstantPower.value(), 2);
    assert_eq!(RasterMode::DepthMap.value(), 3);
    assert_eq!(RasterMode::from_name("DEPTH"), None);
}
