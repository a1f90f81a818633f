//! Operation nodes: moving, state and marker commands.
//!
//! Coordinates and other real-valued parameters are carried as the raw
//! IEEE-754 bit patterns of their `f64` values (`f64::to_bits`). The
//! library stores, copies and compares them but never computes with them.
use vstd::prelude::*;

use crate::ops::enums::{
    command_type_category, CommandCategory, CommandType, RasterMode, SectionType,
};

verus! {

/// A 3D point whose coordinates are `f64` bit patterns.
#[derive(Clone, Copy, Debug, PartialEq, Eq, Structural)]
pub struct Point3D {
    pub x: u64,
    pub y: u64,
    pub z: u64,
}

/// A 2D point whose coordinates are `f64` bit patterns.
#[derive(Clone, Copy, Debug, PartialEq, Eq, Structural)]
pub struct Point {
    pub x: u64,
    pub y: u64,
}

/// The bit pattern of `0.0f64`.
pub const ZERO_BITS: u64 = 0u64;

impl Point3D {
    pub fn new(x: u64, y: u64, z: u64) -> (r: Point3D)
        ensures
            r.x == x,
            r.y == y,
            r.z == z,
    {
        Point3D { x, y, z }
    }

    /// The origin `(0.0, 0.0, 0.0)`.
    pub fn zero() -> (r: Point3D)
        ensures
            r.x == ZERO_BITS && r.y == ZERO_BITS && r.z == ZERO_BITS,
    {
        Point3D { x: ZERO_BITS, y: ZERO_BITS, z: ZERO_BITS }
    }
}

impl Point {
    pub fn new(x: u64, y: u64) -> (r: Point)
        ensures
            r.x == x,
            r.y == y,
    {
        Point { x, y }
    }
}

/// A machine axis.
#[derive(Clone, Copy, Debug, PartialEq, Eq, Structural)]
pub enum Axis {
    X,
    Y,
    Z,
    A,
    B,
    C,
    U,
}

/// The one-letter label of an axis.
pub open spec fn axis_label(a: Axis) -> Seq<char> {
    match a {
        Axis::X => "X"@,
        Axis::Y => "Y"@,
        Axis::Z => "Z"@,
        Axis::A => "A"@,
        Axis::B => "B"@,
        Axis::C => "C"@,
        Axis::U => "U"@,
    }
}

impl Axis {
    /// The one-letter label of this axis.
    pub fn label(&self) -> (r: &'static str)
        ensures
            r@ == axis_label(*self),
    {
        match self {
            Axis::X => "X",
            Axis::Y => "Y",
            Axis::Z => "Z",
            Axis::A => "A",
            Axis::B => "B",
            Axis::C => "C",
            Axis::U => "U",
        }
    }

    /// The axis whose label is `s` (case-sensitive).
    pub fn from_str_name(s: &str) -> (r: Option<Axis>)
        ensures
            match r {
                Some(a) => axis_label(a) == s@,
                None => forall|a: Axis| axis_label(a) != s@,
            },
    {
        if crate::text::str_equals(s, "X") {
            return Some(Axis::X);
        }
        if crate::text::str_equals(s, "Y") {
            return Some(Axis::Y);
        }
        if crate::text::str_equals(s, "Z") {
            return Some(Axis::Z);
        }
        if crate::text::str_equals(s, "A") {
            return Some(Axis::A);
        }
        if crate::text::str_equals(s, "B") {
            return Some(Axis::B);
        }
        if crate::text::str_equals(s, "C") {
            return Some(Axis::C);
        }
        if crate::text::str_equals(s, "U") {
            return Some(Axis::U);
        }
        None
    }
}

/// Coolant mode of a milling spindle.
#[derive(Clone, Copy, Debug, PartialEq, Eq, Structural)]
pub enum CoolantMode {
    Off,
    Mist,
    Flood,
}

/// Air-assist mode of a laser head.
#[derive(Clone, Copy, Debug, PartialEq, Eq, Structural)]
pub enum AirAssistMode {
    Off,
    On,
}

/// Coolant mode of a laser head.
#[derive(Clone, Copy, Debug, PartialEq, Eq, Structural)]
pub enum HeadCoolantMode {
    Off,
    On,
}

/// Milling rotational direction.
#[derive(Clone, Copy, Debug, PartialEq, Eq, Structural)]
pub enum CutDirection {
    /// Clockwise.
    Cw,
    /// Counter-clockwise.
    Ccw,
}

impl Default for CutDirection {
    /// Counter-clockwise is the default direction.
    fn default() -> (r: CutDirection)
        ensures
            r == CutDirection::Ccw,
    {
        CutDirection::Ccw
    }
}

/// The geometric part of a moving command.
#[derive(Debug)]
pub enum MoveCmd {
    MoveTo,
    LineTo,
    ArcTo { center: Point, cw: bool },
    BezierTo { control1: Point3D, control2: Point3D },
    QuadraticBezierTo { control: Point3D },
    ScanLine { power_values: Vec<u8> },
}

/// A state-changing command. `SetPower`, `Dwell` and `SetPulseWidth`
/// carry `f64` bit patterns.
#[derive(Debug)]
pub enum StateCmd {
    SetPower(u64),
    SetFeedRate(i32),
    SetRapidRate(i32),
    Dwell(u64),
    SetHead(String),
    SetFrequency(i32),
    SetPulseWidth(u64),
    SetSpindleRpm(u32),
    SetCoolant(CoolantMode),
    SetAirAssist(AirAssistMode),
    SetHeadCoolant(HeadCoolantMode),
}

/// A structural marker command.
#[derive(Debug)]
pub enum MarkerCmd {
    JobStart,
    JobEnd,
    LayerStart(String),
    LayerEnd(String),
    WorkpieceStart(String),
    WorkpieceEnd(String),
    OpsSectionStart {
        section_type: SectionType,
        workpiece_uid: Option<String>,
        raster_mode: Option<RasterMode>,
    },
    OpsSectionEnd {
        section_type: SectionType,
        workpiece_uid: Option<String>,
        raster_mode: Option<RasterMode>,
    },
    StateBlockStart { name: Option<String> },
    StateBlockEnd,
    ProcessStart { uid: String, params: String },
    ProcessEnd { uid: String },
}

/// The payload of an operation node.
#[derive(Debug)]
pub enum OpCategory {
    Moving { end: Point3D, cmd: MoveCmd },
    State(StateCmd),
    Marker(MarkerCmd),
}

/// One command of an operation sequence.
#[derive(Debug)]
pub struct OpNode {
    pub category: OpCategory,
    pub extra_axes: Option<Vec<(Axis, u64)>>,
}

/// The mathematical form of a moving command: vectors become sequences.
pub enum MoveCmdView {
    MoveTo,
    LineTo,
    ArcTo { center: Point, cw: bool },
    BezierTo { control1: Point3D, control2: Point3D },
    QuadraticBezierTo { control: Point3D },
    ScanLine { power_values: Seq<u8> },
}

/// The mathematical form of a node category.
pub enum OpCategoryView {
    Moving { end: Point3D, cmd: MoveCmdView },
    State(StateCmd),
    Marker(MarkerCmd),
}

/// The mathematical form of an operation node.
pub struct OpNodeView {
    pub category: OpCategoryView,
    pub extra_axes: Option<Seq<(Axis, u64)>>,
}

impl View for MoveCmd {
    type V = MoveCmdView;

    open spec fn view(&self) -> MoveCmdView {
        match self {
            MoveCmd::MoveTo => MoveCmdView::MoveTo,
            MoveCmd::LineTo => MoveCmdView::LineTo,
            MoveCmd::ArcTo { center, cw } => MoveCmdView::ArcTo { center: *center, cw: *cw },
            MoveCmd::BezierTo { control1, control2 } => MoveCmdView::BezierTo {
                control1: *control1,
                control2: *control2,
            },
            MoveCmd::QuadraticBezierTo { control } => MoveCmdView::QuadraticBezierTo {
                control: *control,
            },
            MoveCmd::ScanLine { power_values } => MoveCmdView::ScanLine {
                power_values: power_values@,
            },
        }
    }
}

impl View for OpCategory {
    type V = OpCategoryView;

    open spec fn view(&self) -> OpCategoryView {
        match self {
            OpCategory::Moving { end, cmd } => OpCategoryView::Moving { end: *end, cmd: cmd@ },
            OpCategory::State(s) => OpCategoryView::State(*s),
            OpCategory::Marker(m) => OpCategoryView::Marker(*m),
        }
    }
}

impl View for OpNode {
    type V = OpNodeView;

    open spec fn view(&self) -> OpNodeView {
        OpNodeView {
            category: self.category@,
            extra_axes: match self.extra_axes {
                Some(v) => Some(v@),
                None => None,
            },
        }
    }
}

/// The command type of a node.
pub open spec fn node_command_type(n: OpNodeView) -> CommandType {
    match n.category {
        OpCategoryView::Moving { cmd, .. } => match cmd {
            MoveCmdView::MoveTo => CommandType::MoveTo,
            MoveCmdView::LineTo => CommandType::LineTo,
            MoveCmdView::ArcTo { .. } => CommandType::ArcTo,
            MoveCmdView::BezierTo { .. } => CommandType::BezierTo,
            MoveCmdView::QuadraticBezierTo { .. } => CommandType::QuadraticBezierTo,
            MoveCmdView::ScanLine { .. } => CommandType::ScanLine,
        },
        OpCategoryView::State(cmd) => match cmd {
            StateCmd::SetPower(_) => CommandType::SetPower,
            StateCmd::SetFeedRate(_) => CommandType::SetFeedRate,
            StateCmd::SetRapidRate(_) => CommandType::SetRapidRate,
            StateCmd::Dwell(_) => CommandType::Dwell,
            StateCmd::SetHead(_) => CommandType::SetHead,
            StateCmd::SetFrequency(_) => CommandType::SetFrequency,
            StateCmd::SetPulseWidth(_) => CommandType::SetPulseWidth,
            StateCmd::SetSpindleRpm(_) => CommandType::SetSpindleRpm,
            StateCmd::SetCoolant(_) => CommandType::SetCoolant,
            StateCmd::SetAirAssist(_) => CommandType::SetAirAssist,
            StateCmd::SetHeadCoolant(_) => CommandType::SetHeadCoolant,
        },
        OpCategoryView::Marker(cmd) => match cmd {
            MarkerCmd::JobStart => CommandType::JobStart,
            MarkerCmd::JobEnd => CommandType::JobEnd,
            MarkerCmd::LayerStart(_) => CommandType::LayerStart,
            MarkerCmd::LayerEnd(_) => CommandType::LayerEnd,
            MarkerCmd::WorkpieceStart(_) => CommandType::WorkpieceStart,
            MarkerCmd::WorkpieceEnd(_) => CommandType::WorkpieceEnd,
            MarkerCmd::OpsSectionStart { .. } => CommandType::OpsSectionStart,
            MarkerCmd::OpsSectionEnd { .. } => CommandType::OpsSectionEnd,
            MarkerCmd::StateBlockStart { .. } => CommandType::StateBlockStart,
            MarkerCmd::StateBlockEnd => CommandType::StateBlockEnd,
            MarkerCmd::ProcessStart { .. } => CommandType::ProcessStart,
            MarkerCmd::ProcessEnd { .. } => CommandType::ProcessEnd,
        },
    }
}

/// The end point of a moving node; the origin for any other node.
pub open spec fn node_end_point(n: OpNodeView) -> Point3D {
    match n.category {
        OpCategoryView::Moving { end, .. } => end,
        _ => Point3D { x: ZERO_BITS, y: ZERO_BITS, z: ZERO_BITS },
    }
}

fn clone_string(s: &String) -> (r: String)
    ensures
        r == *s,
{
    s.clone()
}

fn clone_opt_string(s: &Option<String>) -> (r: Option<String>)
    ensures
        r == *s,
{
    match s {
        Some(v) => Some(clone_string(v)),
        None => None,
    }
}

/// An element-by-element copy of a vector of copyable values.
pub fn copy_vec<T: Copy>(v: &Vec<T>) -> (r: Vec<T>)
    ensures
        r@ == v@,
{
    let mut r: Vec<T> = Vec::new();
    let mut i: usize = 0;
    while i < v.len()
        invariant
            i <= v.len(),
            r@ == v@.subrange(0, i as int),
        decreases v.len() - i,
    {
        r.push(v[i]);
        i = i + 1;
    }
    assert(r@ =~= v@);
    r
}

impl MoveCmd {
    /// A copy of this command.
    pub fn copy(&self) -> (r: MoveCmd)
        ensures
            r@ == self@,
    {
        match self {
            MoveCmd::MoveTo => MoveCmd::MoveTo,
            MoveCmd::LineTo => MoveCmd::LineTo,
            MoveCmd::ArcTo { center, cw } => MoveCmd::ArcTo { center: *center, cw: *cw },
            MoveCmd::BezierTo { control1, control2 } => MoveCmd::BezierTo {
                control1: *control1,
                control2: *control2,
            },
            MoveCmd::QuadraticBezierTo { control } => MoveCmd::QuadraticBezierTo {
                control: *control,
            },
            MoveCmd::ScanLine { power_values } => MoveCmd::ScanLine {
                power_values: copy_vec(power_values),
            },
        }
    }
}

impl StateCmd {
    /// A copy of this command.
    pub fn copy(&self) -> (r: StateCmd)
        ensures
            r == *self,
    {
        match self {
            StateCmd::SetPower(p) => StateCmd::SetPower(*p),
            StateCmd::SetFeedRate(v) => StateCmd::SetFeedRate(*v),
            StateCmd::SetRapidRate(v) => StateCmd::SetRapidRate(*v),
            StateCmd::Dwell(v) => StateCmd::Dwell(*v),
            StateCmd::SetHead(h) => StateCmd::SetHead(clone_string(h)),
            StateCmd::SetFrequency(v) => StateCmd::SetFrequency(*v),
            StateCmd::SetPulseWidth(v) => StateCmd::SetPulseWidth(*v),
            StateCmd::SetSpindleRpm(v) => StateCmd::SetSpindleRpm(*v),
            StateCmd::SetCoolant(m) => StateCmd::SetCoolant(*m),
            StateCmd::SetAirAssist(m) => StateCmd::SetAirAssist(*m),
            StateCmd::SetHeadCoolant(m) => StateCmd::SetHeadCoolant(*m),
        }
    }
}

impl MarkerCmd {
    /// A copy of this command.
    pub fn copy(&self) -> (r: MarkerCmd)
        ensures
            r == *self,
    {
        match self {
            MarkerCmd::JobStart => MarkerCmd::JobStart,
            MarkerCmd::JobEnd => MarkerCmd::JobEnd,
            MarkerCmd::LayerStart(u) => MarkerCmd::LayerStart(clone_string(u)),
            MarkerCmd::LayerEnd(u) => MarkerCmd::LayerEnd(clone_string(u)),
            MarkerCmd::WorkpieceStart(u) => MarkerCmd::WorkpieceStart(clone_string(u)),
            MarkerCmd::WorkpieceEnd(u) => MarkerCmd::WorkpieceEnd(clone_string(u)),
            MarkerCmd::OpsSectionStart { section_type, workpiece_uid, raster_mode } => {
                MarkerCmd::OpsSectionStart {
                    section_type: *section_type,
                    workpiece_uid: clone_opt_string(workpiece_uid),
                    raster_mode: *raster_mode,
                }
            },
            MarkerCmd::OpsSectionEnd { section_type, workpiece_uid, raster_mode } => {
                MarkerCmd::OpsSectionEnd {
                    section_type: *section_type,
                    workpiece_uid: clone_opt_string(workpiece_uid),
                    raster_mode: *raster_mode,
                }
            },
            MarkerCmd::StateBlockStart { name } => MarkerCmd::StateBlockStart {
                name: clone_opt_string(name),
            },
            MarkerCmd::StateBlockEnd => MarkerCmd::StateBlockEnd,
            MarkerCmd::ProcessStart { uid, params } => MarkerCmd::ProcessStart {
                uid: clone_string(uid),
                params: clone_string(params),
            },
            MarkerCmd::ProcessEnd { uid } => MarkerCmd::ProcessEnd { uid: clone_string(uid) },
        }
    }
}

/// Why an ops-section marker could not be built.
#[derive(Clone, Copy, Debug, PartialEq, Eq, Structural)]
pub enum SectionError {
    /// A vector-outline section was given a raster mode.
    VectorOutlineWithRasterMode(RasterMode),
    /// A raster-fill section was given no raster mode.
    RasterFillWithoutRasterMode,
}

/// The error, if any, for an ops-section marker with this section type
/// and raster mode.
pub open spec fn section_error(
    section_type: SectionType,
    raster_mode: Option<RasterMode>,
) -> Option<SectionError> {
    match (section_type, raster_mode) {
        (SectionType::VectorOutline, Some(m)) => Some(SectionError::VectorOutlineWithRasterMode(m)),
        (SectionType::RasterFill, None) => Some(SectionError::RasterFillWithoutRasterMode),
        _ => None,
    }
}

fn check_section(section_type: SectionType, raster_mode: Option<RasterMode>) -> (r: Result<
    (),
    SectionError,
>)
    ensures
        match section_error(section_type, raster_mode) {
            Some(e) => r == Err::<(), SectionError>(e),
            None => r is Ok,
        },
{
    match (section_type, raster_mode) {
        (SectionType::VectorOutline, Some(m)) => Err(SectionError::VectorOutlineWithRasterMode(m)),
        (SectionType::RasterFill, None) => Err(SectionError::RasterFillWithoutRasterMode),
        _ => Ok(()),
    }
}

/// The view of an optional extra-axes vector.
pub open spec fn extra_view(e: Option<Vec<(Axis, u64)>>) -> Option<Seq<(Axis, u64)>> {
    match e {
        Some(v) => Some(v@),
        None => None,
    }
}

impl OpNode {
    fn moving(end: Point3D, cmd: MoveCmd, extra: Option<Vec<(Axis, u64)>>) -> (r: OpNode)
        ensures
            r@ == (OpNodeView {
                category: OpCategoryView::Moving { end, cmd: cmd@ },
                extra_axes: extra_view(extra),
            }),
    {
        OpNode { category: OpCategory::Moving { end, cmd }, extra_axes: extra }
    }

    fn state_node(cmd: StateCmd) -> (r: OpNode)
        ensures
            r@ == (OpNodeView { category: OpCategoryView::State(cmd), extra_axes: None }),
    {
        OpNode { category: OpCategory::State(cmd), extra_axes: None }
    }

    fn marker_node(cmd: MarkerCmd) -> (r: OpNode)
        ensures
            r@ == (OpNodeView { category: OpCategoryView::Marker(cmd), extra_axes: None }),
    {
        OpNode { category: OpCategory::Marker(cmd), extra_axes: None }
    }

    /// A rapid move to `(x, y, z)`.
    pub fn move_to(x: u64, y: u64, z: u64, extra: Option<Vec<(Axis, u64)>>) -> (r: OpNode)
        ensures
            r@ == (OpNodeView {
                category: OpCategoryView::Moving {
                    end: Point3D { x, y, z },
                    cmd: MoveCmdView::MoveTo,
                },
                extra_axes: extra_view(extra),
            }),
    {
        OpNode::moving(Point3D::new(x, y, z), MoveCmd::MoveTo, extra)
    }

    /// A straight cutting move to `(x, y, z)`.
    pub fn line_to(x: u64, y: u64, z: u64, extra: Option<Vec<(Axis, u64)>>) -> (r: OpNode)
        ensures
            r@ == (OpNodeView {
                category: OpCategoryView::Moving {
                    end: Point3D { x, y, z },
                    cmd: MoveCmdView::LineTo,
                },
                extra_axes: extra_view(extra),
            }),
    {
        OpNode::moving(Point3D::new(x, y, z), MoveCmd::LineTo, extra)
    }

    /// A straight cutting move back to `end`, closing a path.
    pub fn close_path(end: Point3D) -> (r: OpNode)
        ensures
            r@ == (OpNodeView {
                category: OpCategoryView::Moving { end, cmd: MoveCmdView::LineTo },
                extra_axes: None,
            }),
    {
        OpNode::moving(end, MoveCmd::LineTo, None)
    }

    /// A circular arc to `(x, y, z)` around the centre offset `(i, j)`.
    pub fn arc_to(
        x: u64,
        y: u64,
        i: u64,
        j: u64,
        clockwise: bool,
        z: u64,
        extra: Option<Vec<(Axis, u64)>>,
    ) -> (r: OpNode)
        ensures
            r@ == (OpNodeView {
                category: OpCategoryView::Moving {
                    end: Point3D { x, y, z },
                    cmd: MoveCmdView::ArcTo { center: Point { x: i, y: j }, cw: clockwise },
                },
                extra_axes: extra_view(extra),
            }),
    {
        OpNode::moving(
            Point3D::new(x, y, z),
            MoveCmd::ArcTo { center: Point::new(i, j), cw: clockwise },
            extra,
        )
    }

    /// A cubic Bezier curve to `end`.
    pub fn bezier_to(
        control1: Point3D,
        control2: Point3D,
        end: Point3D,
        extra: Option<Vec<(Axis, u64)>>,
    ) -> (r: OpNode)
        ensures
            r@ == (OpNodeView {
                category: OpCategoryView::Moving {
                    end,
                    cmd: MoveCmdView::BezierTo { control1, control2 },
                },
                extra_axes: extra_view(extra),
            }),
    {
        OpNode::moving(end, MoveCmd::BezierTo { control1, control2 }, extra)
    }

    /// A quadratic Bezier curve to `end`.
    pub fn quadratic_bezier_to(
        control: Point3D,
        end: Point3D,
        extra: Option<Vec<(Axis, u64)>>,
    ) -> (r: OpNode)
        ensures
            r@ == (OpNodeView {
                category: OpCategoryView::Moving {
                    end,
                    cmd: MoveCmdView::QuadraticBezierTo { control },
                },
                extra_axes: extra_view(extra),
            }),
    {
        OpNode::moving(end, MoveCmd::QuadraticBezierTo { control }, extra)
    }

    /// A raster scan line to `(x, y, z)` with per-step power bytes.
    pub fn scan_to(
        x: u64,
        y: u64,
        z: u64,
        power_values: Vec<u8>,
        extra: Option<Vec<(Axis, u64)>>,
    ) -> (r: OpNode)
        ensures
            r@ == (OpNodeView {
                category: OpCategoryView::Moving {
                    end: Point3D { x, y, z },
                    cmd: MoveCmdView::ScanLine { power_values: power_values@ },
                },
                extra_axes: extra_view(extra),
            }),
    {
        OpNode::moving(Point3D::new(x, y, z), MoveCmd::ScanLine { power_values }, extra)
    }

    pub fn set_power(power: u64) -> (r: OpNode)
        ensures
            r@ == (OpNodeView {
                category: OpCategoryView::State(StateCmd::SetPower(power)),
                extra_axes: None,
            }),
    {
        OpNode::state_node(StateCmd::SetPower(power))
    }

    pub fn set_feed_rate(feed_rate: i32) -> (r: OpNode)
        ensures
            r@ == (OpNodeView {
                category: OpCategoryView::State(StateCmd::SetFeedRate(feed_rate)),
                extra_axes: None,
            }),
    {
        OpNode::state_node(StateCmd::SetFeedRate(feed_rate))
    }

    pub fn set_rapid_rate(rapid_rate: i32) -> (r: OpNode)
        ensures
            r@ == (OpNodeView {
                category: OpCategoryView::State(StateCmd::SetRapidRate(rapid_rate)),
                extra_axes: None,
            }),
    {
        OpNode::state_node(StateCmd::SetRapidRate(rapid_rate))
    }

    pub fn dwell(duration_ms: u64) -> (r: OpNode)
        ensures
            r@ == (OpNodeView {
                category: OpCategoryView::State(StateCmd::Dwell(duration_ms)),
                extra_axes: None,
            }),
    {
        OpNode::state_node(StateCmd::Dwell(duration_ms))
    }

    pub fn set_head(head_uid: &str) -> (r: OpNode)
        ensures
            r@.extra_axes is None,
            r@.category matches OpCategoryView::State(StateCmd::SetHead(h)) && h@ == head_uid@,
    {
        OpNode::state_node(StateCmd::SetHead(head_uid.to_owned()))
    }

    pub fn set_frequency(frequency: i32) -> (r: OpNode)
        ensures
            r@ == (OpNodeView {
                category: OpCategoryView::State(StateCmd::SetFrequency(frequency)),
                extra_axes: None,
            }),
    {
        OpNode::state_node(StateCmd::SetFrequency(frequency))
    }

    pub fn set_pulse_width(pulse_width: u64) -> (r: OpNode)
        ensures
            r@ == (OpNodeView {
                category: OpCategoryView::State(StateCmd::SetPulseWidth(pulse_width)),
                extra_axes: None,
            }),
    {
        OpNode::state_node(StateCmd::SetPulseWidth(pulse_width))
    }

    pub fn set_spindle_rpm(rpm: u32) -> (r: OpNode)
        ensures
            r@ == (OpNodeView {
                category: OpCategoryView::State(StateCmd::SetSpindleRpm(rpm)),
                extra_axes: None,
            }),
    {
        OpNode::state_node(StateCmd::SetSpindleRpm(rpm))
    }

    pub fn set_coolant(mode: CoolantMode) -> (r: OpNode)
        ensures
            r@ == (OpNodeView {
                category: OpCategoryView::State(StateCmd::SetCoolant(mode)),
                extra_axes: None,
            }),
    {
        OpNode::state_node(StateCmd::SetCoolant(mode))
    }

    pub fn set_air_assist(mode: AirAssistMode) -> (r: OpNode)
        ensures
            r@ == (OpNodeView {
                category: OpCategoryView::State(StateCmd::SetAirAssist(mode)),
                extra_axes: None,
            }),
    {
        OpNode::state_node(StateCmd::SetAirAssist(mode))
    }

    pub fn set_head_coolant(mode: HeadCoolantMode) -> (r: OpNode)
        ensures
            r@ == (OpNodeView {
                category: OpCategoryView::State(StateCmd::SetHeadCoolant(mode)),
                extra_axes: None,
            }),
    {
        OpNode::state_node(StateCmd::SetHeadCoolant(mode))
    }

    pub fn job_start() -> (r: OpNode)
        ensures
            r@ == (OpNodeView {
                category: OpCategoryView::Marker(MarkerCmd::JobStart),
                extra_axes: None,
            }),
    {
        OpNode::marker_node(MarkerCmd::JobStart)
    }

    pub fn job_end() -> (r: OpNode)
        ensures
            r@ == (OpNodeView {
                category: OpCategoryView::Marker(MarkerCmd::JobEnd),
                extra_axes: None,
            }),
    {
        OpNode::marker_node(MarkerCmd::JobEnd)
    }

    pub fn layer_start(layer_uid: &str) -> (r: OpNode)
        ensures
            r@.extra_axes is None,
            r@.category matches OpCategoryView::Marker(MarkerCmd::LayerStart(u)) && u@
                == layer_uid@,
    {
        OpNode::marker_node(MarkerCmd::LayerStart(layer_uid.to_owned()))
    }

    pub fn layer_end(layer_uid: &str) -> (r: OpNode)
        ensures
            r@.extra_axes is None,
            r@.category matches OpCategoryView::Marker(MarkerCmd::LayerEnd(u)) && u@
                == layer_uid@,
    {
        OpNode::marker_node(MarkerCmd::LayerEnd(layer_uid.to_owned()))
    }

    pub fn workpiece_start(workpiece_uid: &str) -> (r: OpNode)
        ensures
            r@.extra_axes is None,
            r@.category matches OpCategoryView::Marker(MarkerCmd::WorkpieceStart(u)) && u@
                == workpiece_uid@,
    {
        OpNode::marker_node(MarkerCmd::WorkpieceStart(workpiece_uid.to_owned()))
    }

    pub fn workpiece_end(workpiece_uid: &str) -> (r: OpNode)
        ensures
            r@.extra_axes is None,
            r@.category matches OpCategoryView::Marker(MarkerCmd::WorkpieceEnd(u)) && u@
                == workpiece_uid@,
    {
        OpNode::marker_node(MarkerCmd::WorkpieceEnd(workpiece_uid.to_owned()))
    }

    /// The start marker of an ops section. A vector-outline section may
    /// not carry a raster mode and a raster-fill section must carry one.
    pub fn ops_section_start(
        section_type: SectionType,
        workpiece_uid: &str,
        raster_mode: Option<RasterMode>,
    ) -> (r: Result<OpNode, SectionError>)
        ensures
            match section_error(section_type, raster_mode) {
                Some(e) => r == Err::<OpNode, SectionError>(e),
                None => r matches Ok(n) && n@.extra_axes is None && match n@.category {
                    OpCategoryView::Marker(
                        MarkerCmd::OpsSectionStart { section_type: st, workpiece_uid: Some(w), raster_mode: rm },
                    ) => st == section_type && rm == raster_mode && w@ == workpiece_uid@,
                    _ => false,
                },
            },
    {
        match check_section(section_type, raster_mode) {
            Err(e) => Err(e),
            Ok(()) => Ok(
                OpNode::marker_node(
                    MarkerCmd::OpsSectionStart {
                        section_type,
                        workpiece_uid: Some(workpiece_uid.to_owned()),
                        raster_mode,
                    },
                ),
            ),
        }
    }

    /// The end marker of an ops section, under the same rule as
    /// `ops_section_start`.
    pub fn ops_section_end(section_type: SectionType, raster_mode: Option<RasterMode>) -> (r: Result<
        OpNode,
        SectionError,
    >)
        ensures
            match section_error(section_type, raster_mode) {
                Some(e) => r == Err::<OpNode, SectionError>(e),
                None => r matches Ok(n) && n@ == (OpNodeView {
                    category: OpCategoryView::Marker(
                        MarkerCmd::OpsSectionEnd { section_type, workpiece_uid: None, raster_mode },
                    ),
                    extra_axes: None,
                }),
            },
    {
        match check_section(section_type, raster_mode) {
            Err(e) => Err(e),
            Ok(()) => Ok(
                OpNode::marker_node(
                    MarkerCmd::OpsSectionEnd { section_type, workpiece_uid: None, raster_mode },
                ),
            ),
        }
    }

    pub fn state_block_start(name: Option<&str>) -> (r: OpNode)
        ensures
            r@.extra_axes is None,
            r@.category matches OpCategoryView::Marker(MarkerCmd::StateBlockStart { name: n }) && match
                name {
                Some(s) => n matches Some(t) && t@ == s@,
                None => n is None,
            },
    {
        let n = match name {
            Some(s) => Some(s.to_owned()),
            None => None,
        };
        OpNode::marker_node(MarkerCmd::StateBlockStart { name: n })
    }

    pub fn state_block_end() -> (r: OpNode)
        ensures
            r@ == (OpNodeView {
                category: OpCategoryView::Marker(MarkerCmd::StateBlockEnd),
                extra_axes: None,
            }),
    {
        OpNode::marker_node(MarkerCmd::StateBlockEnd)
    }

    pub fn process_start(uid: &str, params: &str) -> (r: OpNode)
        ensures
            r@.extra_axes is None,
            r@.category matches OpCategoryView::Marker(MarkerCmd::ProcessStart { uid: u, params: p })
                && u@ == uid@ && p@ == params@,
    {
        OpNode::marker_node(MarkerCmd::ProcessStart { uid: uid.to_owned(), params: params.to_owned() })
    }

    pub fn process_end(uid: &str) -> (r: OpNode)
        ensures
            r@.extra_axes is None,
            r@.category matches OpCategoryView::Marker(MarkerCmd::ProcessEnd { uid: u }) && u@
                == uid@,
    {
        OpNode::marker_node(MarkerCmd::ProcessEnd { uid: uid.to_owned() })
    }

    /// The command type of this node.
    pub fn command_type(&self) -> (r: CommandType)
        ensures
            r == node_command_type(self@),
    {
        match &self.category {
            OpCategory::Moving { cmd, .. } => match cmd {
                MoveCmd::MoveTo => CommandType::MoveTo,
                MoveCmd::LineTo => CommandType::LineTo,
                MoveCmd::ArcTo { .. } => CommandType::ArcTo,
                MoveCmd::BezierTo { .. } => CommandType::BezierTo,
                MoveCmd::QuadraticBezierTo { .. } => CommandType::QuadraticBezierTo,
                MoveCmd::ScanLine { .. } => CommandType::ScanLine,
            },
            OpCategory::State(cmd) => match cmd {
                StateCmd::SetPower(_) => CommandType::SetPower,
                StateCmd::SetFeedRate(_) => CommandType::SetFeedRate,
                StateCmd::SetRapidRate(_) => CommandType::SetRapidRate,
                StateCmd::Dwell(_) => CommandType::Dwell,
                StateCmd::SetHead(_) => CommandType::SetHead,
                StateCmd::SetFrequency(_) => CommandType::SetFrequency,
                StateCmd::SetPulseWidth(_) => CommandType::SetPulseWidth,
                StateCmd::SetSpindleRpm(_) => CommandType::SetSpindleRpm,
                StateCmd::SetCoolant(_) => CommandType::SetCoolant,
                StateCmd::SetAirAssist(_) => CommandType::SetAirAssist,
                StateCmd::SetHeadCoolant(_) => CommandType::SetHeadCoolant,
            },
            OpCategory::Marker(cmd) => match cmd {
                MarkerCmd::JobStart => CommandType::JobStart,
                MarkerCmd::JobEnd => CommandType::JobEnd,
                MarkerCmd::LayerStart(_) => CommandType::LayerStart,
                MarkerCmd::LayerEnd(_) => CommandType::LayerEnd,
                MarkerCmd::WorkpieceStart(_) => CommandType::WorkpieceStart,
                MarkerCmd::WorkpieceEnd(_) => CommandType::WorkpieceEnd,
                MarkerCmd::OpsSectionStart { .. } => CommandType::OpsSectionStart,
                MarkerCmd::OpsSectionEnd { .. } => CommandType::OpsSectionEnd,
                MarkerCmd::StateBlockStart { .. } => CommandType::StateBlockStart,
                MarkerCmd::StateBlockEnd => CommandType::StateBlockEnd,
                MarkerCmd::ProcessStart { .. } => CommandType::ProcessStart,
                MarkerCmd::ProcessEnd { .. } => CommandType::ProcessEnd,
            },
        }
    }

    pub fn is_moving(&self) -> (r: bool)
        ensures
            r == (self@.category is Moving),
    {
        match &self.category {
            OpCategory::Moving { .. } => true,
            _ => false,
        }
    }

    pub fn is_state_cmd(&self) -> (r: bool)
        ensures
            r == (self@.category is State),
    {
        match &self.category {
            OpCategory::State(_) => true,
            _ => false,
        }
    }

    pub fn is_marker(&self) -> (r: bool)
        ensures
            r == (self@.category is Marker),
    {
        match &self.category {
            OpCategory::Marker(_) => true,
            _ => false,
        }
    }

    /// The end point of a moving node, or the origin for any other node.
    pub fn end_point(&self) -> (r: Point3D)
        ensures
            r == node_end_point(self@),
    {
        match &self.category {
            OpCategory::Moving { end, .. } => *end,
            _ => Point3D::zero(),
        }
    }

    /// The end point and geometry of a moving node.
    pub fn as_moving(&self) -> (r: Option<(&Point3D, &MoveCmd)>)
        ensures
            match self.category {
                OpCategory::Moving { end, cmd } => r matches Some((e, c)) && *e == end && *c == cmd,
                _ => r is None,
            },
    {
        match &self.category {
            OpCategory::Moving { end, cmd } => Some((end, cmd)),
            _ => None,
        }
    }

    /// The command of a state node.
    pub fn as_state(&self) -> (r: Option<&StateCmd>)
        ensures
            match self.category {
                OpCategory::State(c) => r matches Some(s) && *s == c,
                _ => r is None,
            },
    {
        match &self.category {
            OpCategory::State(cmd) => Some(cmd),
            _ => None,
        }
    }

    /// The command of a marker node.
    pub fn as_marker(&self) -> (r: Option<&MarkerCmd>)
        ensures
            match self.category {
                OpCategory::Marker(c) => r matches Some(m) && *m == c,
                _ => r is None,
            },
    {
        match &self.category {
            OpCategory::Marker(cmd) => Some(cmd),
            _ => None,
        }
    }

    /// Replace the end point of a moving node, returning the old one;
    /// any other node is left unchanged and `None` is returned.
    pub fn set_endpoint(&mut self, end: Point3D) -> (r: Option<Point3D>)
        ensures
            match old(self)@.category {
                OpCategoryView::Moving { end: e, cmd } => r == Some(e) && final(self)@ == (OpNodeView {
                    category: OpCategoryView::Moving { end, cmd },
                    extra_axes: old(self)@.extra_axes,
                }),
                _ => r is None && final(self)@ == old(self)@,
            },
    {
        match &mut self.category {
            OpCategory::Moving { end: e, .. } => {
                let old_end = *e;
                *e = end;
                Some(old_end)
            },
            _ => None,
        }
    }

    /// The extra (non-XYZ) axis values of this node.
    pub fn extra_axes(&self) -> (r: Option<&Vec<(Axis, u64)>>)
        ensures
            match self.extra_axes {
                Some(v) => r matches Some(w) && *w == v,
                None => r is None,
            },
    {
        match &self.extra_axes {
            Some(v) => Some(v),
            None => None,
        }
    }

    pub fn set_extra_axes(&mut self, ea: Vec<(Axis, u64)>)
        ensures
            final(self)@ == (OpNodeView { category: old(self)@.category, extra_axes: Some(ea@) }),
    {
        self.extra_axes = Some(ea);
    }

    pub fn clear_extra_axes(&mut self)
        ensures
            final(self)@ == (OpNodeView { category: old(self)@.category, extra_axes: None }),
    {
        self.extra_axes = None;
    }

    /// A copy of this node.
    pub fn copy(&self) -> (r: OpNode)
        ensures
            r@ == self@,
    {
        let category = match &self.category {
            OpCategory::Moving { end, cmd } => OpCategory::Moving { end: *end, cmd: cmd.copy() },
            OpCategory::State(s) => OpCategory::State(s.copy()),
            OpCategory::Marker(m) => OpCategory::Marker(m.copy()),
        };
        let extra_axes = match &self.extra_axes {
            Some(v) => Some(copy_vec(v)),
            None => None,
        };
        OpNode { category, extra_axes }
    }
}

/// The category of a node's command type agrees with its own category.
pub proof fn lemma_node_category_agrees(n: OpNodeView)
    ensures
        (command_type_category(node_command_type(n)) == CommandCategory::Moving) == (n.category is Moving),
        (command_type_category(node_command_type(n)) == CommandCategory::State) == (n.category is State),
        (command_type_category(node_command_type(n)) == CommandCategory::Marker) == (n.category is Marker),
{
}

} // verus!
