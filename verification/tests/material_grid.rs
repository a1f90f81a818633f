use raygeo::ops::enums::{RasterMode, SectionType};
use raygeo::ops::material_grid::{
    cell_block_name, cell_section, grid_layout, is_engrave, GridMode, GridParam, GridStep,
};

#[test]
fn grid_modes_by_name() {
    assert_eq!(GridMode::from_name("Power vs Passes"), GridMode::PowerVsPasses);
    assert_eq!(GridMode::from_name("Speed vs Passes"), GridMode::SpeedVsPasses);
    assert_eq!(GridMode::from_name("Speed vs Offset"), GridMode::SpeedVsOffset);
    assert_eq!(GridMode::from_name("Power vs Speed"), GridMode::PowerVsSpeed);
    assert_eq!(GridMode::from_name("power vs passes"), GridMode::PowerVsSpeed);
    assert_eq!(GridMode::from_name(""), GridMode::PowerVsSpeed);
}

#[test]
fn swept_settings_and_titles() {
    assert_eq!(GridMode::PowerVsSpeed.swept(), (GridParam::Power, GridParam::Speed));
    assert_eq!(GridMode::SpeedVsOffset.swept(), (GridParam::Speed, GridParam::Offset));
    assert_eq!(GridMode::PowerVsSpeed.axis_titles(), ("Power (%)", "Speed (mm/min)"));
    assert_eq!(GridMode::PowerVsPasses.axis_titles(), ("Power (%)", "Passes"));
    assert_eq!(GridMode::SpeedVsPasses.axis_titles(), ("Speed (mm/min)", "Passes"));
    assert_eq!(GridMode::SpeedVsOffset.axis_titles(), ("Speed (mm/min)", "Offset (mm)"));
}

#[test]
fn fixed_labels_and_row_label_style() {
    assert_eq!(GridMode::PowerVsPasses.fixed_label(), Some(GridParam::Speed));
    assert_eq!(GridMode::SpeedVsPasses.fixed_label(), Some(GridParam::Power));
    assert_eq!(GridMode::PowerVsSpeed.fixed_label(), None);
    assert_eq!(GridMode::SpeedVsOffset.fixed_label(), None);
    assert!(GridMode::SpeedVsOffset.signed_row_labels());
    assert!(!GridMode::PowerVsPasses.signed_row_labels());
}

#[test]
fn engrave_mode_ignores_ascii_case() {
    assert!(is_engrave("engrave"));
    assert!(is_engrave("ENGRAVE"));
    assert!(is_engrave("Engrave"));
    assert!(!is_engrave("cut"));
    assert!(!is_engrave("engraved"));
}

#[test]
fn cell_sections() {
    assert_eq!(cell_section(true), (SectionType::RasterFill, Some(RasterMode::ConstantPower)));
    assert_eq!(cell_section(false), (SectionType::VectorOutline, None));
}

#[test]
fn cell_names() {
    assert_eq!(cell_block_name(0, 0), "cell-r0-c0");
    assert_eq!(cell_block_name(3, 12), "cell-r3-c12");
    assert_eq!(cell_block_name(u32::MAX, 10), format!("cell-r{}-c10", u32::MAX));
}

#[test]
fn grid_layouts() {
    let vo = (SectionType::VectorOutline, None);
    let rf = (SectionType::RasterFill, Some(RasterMode::ConstantPower));
    assert_eq!(
        grid_layout(false, true),
        vec![GridStep::SectionStart(vo.0, vo.1), GridStep::Labels, GridStep::Cells, GridStep::SectionEnd(vo.0, vo.1)]
    );
    assert_eq!(
        grid_layout(false, false),
        vec![GridStep::SectionStart(vo.0, vo.1), GridStep::Cells, GridStep::SectionEnd(vo.0, vo.1)]
    );
    assert_eq!(
        grid_layout(true, true),
        vec![
            GridStep::SectionStart(vo.0, vo.1),
            GridStep::Labels,
            GridStep::SectionEnd(vo.0, vo.1),
            GridStep::SectionStart(rf.0, rf.1),
            GridStep::Cells,
            GridStep::SectionEnd(rf.0, rf.1),
        ]
    );
    assert_eq!(
        grid_layout(true, false),
        vec![GridStep::SectionStart(rf.0, rf.1), GridStep::Cells, GridStep::SectionEnd(rf.0, rf.1)]
    );
}

#[test]
fn grid_sections_never_overlap() {
    for engrave in [false, true] {
        for labels in [false, true] {
            let mut open: Option<(SectionType, Option<RasterMode>)> = None;
            for step in grid_layout(engrave, labels) {
                match step {
                    GridStep::SectionStart(t, m) => {
                        assert!(open.is_none());
                        open = Some((t, m));
                    }
                    GridStep::SectionEnd(t, m) => {
                        assert_eq!(open, Some((t, m)));
                        open = None;
                    }
                    _ => assert!(open.is_some()),
                }
            }
            assert!(open.is_none());
        }
    }
}
