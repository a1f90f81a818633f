//! The decisions of the material-test grid: which settings its columns
//! and rows sweep, how its axes are titled, how the job is cut into
//! sections, and how each cell's state block is named. The cell geometry
//! and the swept values themselves are real-valued and computed by the
//! caller.
use vstd::prelude::*;

use crate::ops::enums::{RasterMode, SectionType};
use crate::text::{append_decimal, decimal, eq_ignore_ascii_case, str_eq_ignore_ascii_case, str_equals};

verus! {

/// Which two settings the grid sweeps, columns first.
#[derive(Clone, Copy, Debug, PartialEq, Eq, Structural)]
pub enum GridMode {
    PowerVsSpeed,
    PowerVsPasses,
    SpeedVsPasses,
    SpeedVsOffset,
}

/// A setting that a grid axis sweeps.
#[derive(Clone, Copy, Debug, PartialEq, Eq, Structural)]
pub enum GridParam {
    Power,
    Speed,
    Passes,
    Offset,
}

/// The grid mode named `name`; any name other than the three below
/// selects power against speed.
pub open spec fn grid_mode_named(name: Seq<char>) -> GridMode {
    if name == "Power vs Passes"@ {
        GridMode::PowerVsPasses
    } else if name == "Speed vs Passes"@ {
        GridMode::SpeedVsPasses
    } else if name == "Speed vs Offset"@ {
        GridMode::SpeedVsOffset
    } else {
        GridMode::PowerVsSpeed
    }
}

/// The settings swept by the columns and by the rows.
pub open spec fn swept(mode: GridMode) -> (GridParam, GridParam) {
    match mode {
        GridMode::PowerVsSpeed => (GridParam::Power, GridParam::Speed),
        GridMode::PowerVsPasses => (GridParam::Power, GridParam::Passes),
        GridMode::SpeedVsPasses => (GridParam::Speed, GridParam::Passes),
        GridMode::SpeedVsOffset => (GridParam::Speed, GridParam::Offset),
    }
}

/// The title of a grid axis that sweeps `p`.
pub open spec fn param_title(p: GridParam) -> Seq<char> {
    match p {
        GridParam::Power => "Power (%)"@,
        GridParam::Speed => "Speed (mm/min)"@,
        GridParam::Passes => "Passes"@,
        GridParam::Offset => "Offset (mm)"@,
    }
}

impl GridMode {
    /// The grid mode named `name`; see `grid_mode_named`.
    pub fn from_name(name: &str) -> (r: GridMode)
        ensures
            r == grid_mode_named(name@),
    {
        if str_equals(name, "Power vs Passes") {
            GridMode::PowerVsPasses
        } else if str_equals(name, "Speed vs Passes") {
            GridMode::SpeedVsPasses
        } else if str_equals(name, "Speed vs Offset") {
            GridMode::SpeedVsOffset
        } else {
            GridMode::PowerVsSpeed
        }
    }

    /// The settings swept by the columns and by the rows.
    pub fn swept(&self) -> (r: (GridParam, GridParam))
        ensures
            r == swept(*self),
    {
        match self {
            GridMode::PowerVsSpeed => (GridParam::Power, GridParam::Speed),
            GridMode::PowerVsPasses => (GridParam::Power, GridParam::Passes),
            GridMode::SpeedVsPasses => (GridParam::Speed, GridParam::Passes),
            GridMode::SpeedVsOffset => (GridParam::Speed, GridParam::Offset),
        }
    }

    /// The titles of the column axis and the row axis.
    pub fn axis_titles(&self) -> (r: (&'static str, &'static str))
        ensures
            r.0@ == param_title(swept(*self).0),
            r.1@ == param_title(swept(*self).1),
    {
        match self {
            GridMode::PowerVsSpeed => ("Power (%)", "Speed (mm/min)"),
            GridMode::PowerVsPasses => ("Power (%)", "Passes"),
            GridMode::SpeedVsPasses => ("Speed (mm/min)", "Passes"),
            GridMode::SpeedVsOffset => ("Speed (mm/min)", "Offset (mm)"),
        }
    }

    /// The setting held fixed whose value is printed in the grid's
    /// corner: speed when power is swept against passes, power when speed
    /// is; none in the other modes.
    pub fn fixed_label(&self) -> (r: Option<GridParam>)
        ensures
            r == match *self {
                GridMode::PowerVsPasses => Some(GridParam::Speed),
                GridMode::SpeedVsPasses => Some(GridParam::Power),
                _ => None::<GridParam>,
            },
    {
        match self {
            GridMode::PowerVsPasses => Some(GridParam::Speed),
            GridMode::SpeedVsPasses => Some(GridParam::Power),
            _ => None,
        }
    }

    /// Whether the row labels are signed values with two decimals (the
    /// offsets, which are fractions of a millimetre); otherwise they are
    /// rounded to whole numbers.
    pub fn signed_row_labels(&self) -> (r: bool)
        ensures
            r == (*self == GridMode::SpeedVsOffset),
    {
        match self {
            GridMode::SpeedVsOffset => true,
            _ => false,
        }
    }
}

/// Whether the grid's mode string asks for engraving (`"engrave"`, in any
/// ASCII case) rather than cutting.
pub fn is_engrave(mode: &str) -> (r: bool)
    ensures
        r == eq_ignore_ascii_case(mode@, "engrave"@),
{
    str_eq_ignore_ascii_case(mode, "engrave")
}

/// The section the cells are drawn in: an engraved grid fills each cell
/// as a constant-power raster; a cut grid traces cell outlines.
pub fn cell_section(engrave: bool) -> (r: (SectionType, Option<RasterMode>))
    ensures
        r == if engrave {
            (SectionType::RasterFill, Some(RasterMode::ConstantPower))
        } else {
            (SectionType::VectorOutline, None::<RasterMode>)
        },
{
    if engrave {
        (SectionType::RasterFill, Some(RasterMode::ConstantPower))
    } else {
        (SectionType::VectorOutline, None)
    }
}

/// The name of the state block of the cell in `row` and `col`:
/// `cell-r<row>-c<col>`.
pub open spec fn cell_name(row: nat, col: nat) -> Seq<char> {
    seq!['c', 'e', 'l', 'l', '-', 'r'] + decimal(row) + seq!['-', 'c'] + decimal(col)
}

/// The name of the state block of the cell in `row` and `col`.
pub fn cell_block_name(row: u32, col: u32) -> (r: String)
    ensures
        r@ == cell_name(row as nat, col as nat),
{
    let mut s = String::new();
    s.append("cell-r");
    append_decimal(&mut s, row as u64);
    s.append("-c");
    append_decimal(&mut s, col as u64);
    proof {
        reveal_strlit("cell-r");
        reveal_strlit("-c");
        assert(s@ =~= cell_name(row as nat, col as nat));
    }
    s
}

/// One stretch of the grid job, in the order the job is written.
#[derive(Clone, Copy, Debug, PartialEq, Eq, Structural)]
pub enum GridStep {
    SectionStart(SectionType, Option<RasterMode>),
    SectionEnd(SectionType, Option<RasterMode>),
    /// The axis labels, in a state block of their own.
    Labels,
    /// The cells, one state block each.
    Cells,
}

/// The outline of the grid job: a cut grid is one vector-outline section
/// holding the labels (when wanted) and the cells; an engraved grid puts
/// the labels (when wanted) in a vector-outline section of their own and
/// the cells in a constant-power raster section after it.
pub open spec fn grid_steps(engrave: bool, labels: bool) -> Seq<GridStep> {
    let vo = (SectionType::VectorOutline, None::<RasterMode>);
    let rf = (SectionType::RasterFill, Some(RasterMode::ConstantPower));
    if engrave {
        (if labels {
            seq![
                GridStep::SectionStart(vo.0, vo.1),
                GridStep::Labels,
                GridStep::SectionEnd(vo.0, vo.1),
            ]
        } else {
            seq![]
        }) + seq![GridStep::SectionStart(rf.0, rf.1), GridStep::Cells, GridStep::SectionEnd(rf.0, rf.1)]
    } else {
        seq![GridStep::SectionStart(vo.0, vo.1)] + (if labels {
            seq![GridStep::Labels]
        } else {
            seq![]
        }) + seq![GridStep::Cells, GridStep::SectionEnd(vo.0, vo.1)]
    }
}

/// The outline of the grid job; see `grid_steps`.
pub fn grid_layout(engrave: bool, labels: bool) -> (r: Vec<GridStep>)
    ensures
        r@ == grid_steps(engrave, labels),
{
    let mut v: Vec<GridStep> = Vec::new();
    let (cell_type, cell_mode) = cell_section(engrave);
    if !engrave {
        v.push(GridStep::SectionStart(SectionType::VectorOutline, None));
    }
    if labels {
        if engrave {
            v.push(GridStep::SectionStart(SectionType::VectorOutline, None));
        }
        v.push(GridStep::Labels);
        if engrave {
            v.push(GridStep::SectionEnd(SectionType::VectorOutline, None));
        }
    }
    if engrave {
        v.push(GridStep::SectionStart(cell_type, cell_mode));
    }
    v.push(GridStep::Cells);
    v.push(GridStep::SectionEnd(cell_type, cell_mode));
    assert(v@ =~= grid_steps(engrave, labels));
    v
}

/// Whether the steps open and close sections one at a time: every start
/// comes while no section is open, every end closes the open section
/// with the same type and raster mode, labels and cells lie inside a
/// section, and nothing is left open at the end. `open` is the section
/// open before the first step.
pub open spec fn sections_well_nested(steps: Seq<GridStep>, open: Option<(SectionType, Option<RasterMode>)>) -> bool
    decreases steps.len(),
{
    if steps.len() == 0 {
        open is None
    } else {
        match steps[0] {
            GridStep::SectionStart(t, m) => open is None && sections_well_nested(steps.drop_first(), Some((t, m))),
            GridStep::SectionEnd(t, m) => open == Some((t, m)) && sections_well_nested(steps.drop_first(), None),
            _ => open is Some && sections_well_nested(steps.drop_first(), open),
        }
    }
}

/// Every grid job closes each section it opens, with the same type and
/// raster mode, before opening the next, and draws its labels and cells
/// inside a section; the cells always lie in the section that suits them.
pub proof fn lemma_grid_sections_well_nested(engrave: bool, labels: bool)
    ensures
        sections_well_nested(grid_steps(engrave, labels), None),
        grid_steps(engrave, labels).contains(GridStep::Cells),
{
    let s = grid_steps(engrave, labels);
    reveal_with_fuel(sections_well_nested, 7);
    if engrave {
        if labels {
            assert(s[4] == GridStep::Cells);
            assert(s.drop_first() =~= s.subrange(1, 6));
            assert(s.drop_first().drop_first() =~= s.subrange(2, 6));
            assert(s.subrange(2, 6).drop_first() =~= s.subrange(3, 6));
            assert(s.subrange(3, 6).drop_first() =~= s.subrange(4, 6));
            assert(s.subrange(4, 6).drop_first() =~= s.subrange(5, 6));
            assert(s.subrange(5, 6).drop_first() =~= s.subrange(6, 6));
        } else {
            assert(s[1] == GridStep::Cells);
            assert(s.drop_first() =~= s.subrange(1, 3));
            assert(s.subrange(1, 3).drop_first() =~= s.subrange(2, 3));
            assert(s.subrange(2, 3).drop_first() =~= s.subrange(3, 3));
        }
    } else {
        if labels {
            assert(s[2] == GridStep::Cells);
            assert(s.drop_first() =~= s.subrange(1, 4));
            assert(s.subrange(1, 4).drop_first() =~= s.subrange(2, 4));
            assert(s.subrange(2, 4).drop_first() =~= s.subrange(3, 4));
            assert(s.subrange(3, 4).drop_first() =~= s.subrange(4, 4));
        } else {
            assert(s[1] == GridStep::Cells);
            assert(s.drop_first() =~= s.subrange(1, 3));
            assert(s.subrange(1, 3).drop_first() =~= s.subrange(2, 3));
            assert(s.subrange(2, 3).drop_first() =~= s.subrange(3, 3));
        }
    }
}

} // verus!
