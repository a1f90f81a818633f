//! Operation nodes as flat records of named fields, the form in which
//! commands are exchanged as dictionaries: every command has a `type`
//! name, moving commands an `end` point and optional extra-axis values
//! keyed by axis label, and each kind of command the fields of its own
//! parameters. Reading a record checks, in this order, that it names a
//! known command type, that its axis labels are known, that the fields
//! its type needs are present, and that a section type is known.
use vstd::prelude::*;

use crate::ops::enums::{
    command_type_category, command_type_name, lemma_command_type_name_injective,
    lemma_raster_mode_name_injective, lemma_section_type_name_injective, raster_mode_name,
    section_type_name, CommandCategory, CommandType, RasterMode, SectionType,
};
use crate::ops::types::{
    axis_label, node_command_type, section_error, AirAssistMode, Axis, CoolantMode, HeadCoolantMode,
    MarkerCmd, MoveCmdView, OpCategory, OpCategoryView, OpNode, OpNodeView, Point, Point3D, StateCmd,
};
use crate::ops::container::Ops;
use crate::text::str_equals;

verus! {

/// A command as a record of optional named fields. Real values are `f64`
/// bit patterns; extra-axis values are listed under their axis labels.
#[derive(Debug)]
pub struct CommandRecord {
    pub kind: Option<String>,
    pub end: Option<Point3D>,
    pub extra_axes: Option<Vec<(String, u64)>>,
    pub center_offset: Option<Point>,
    pub clockwise: Option<bool>,
    pub control1: Option<Point3D>,
    pub control2: Option<Point3D>,
    pub control: Option<Point3D>,
    pub power_values: Option<Vec<u8>>,
    pub duration_ms: Option<u64>,
    pub power: Option<u64>,
    pub speed: Option<i32>,
    pub frequency: Option<i32>,
    pub pulse_width: Option<u64>,
    pub spindle_speed: Option<u32>,
    pub coolant: Option<String>,
    pub air_assist: Option<String>,
    pub head_coolant: Option<String>,
    pub head_uid: Option<String>,
    pub layer_uid: Option<String>,
    pub workpiece_uid: Option<String>,
    pub process_uid: Option<String>,
    pub process_params: Option<String>,
    pub section_type: Option<String>,
    pub raster_mode: Option<String>,
    pub name: Option<String>,
}

/// The mathematical form of a record: strings become character
/// sequences and vectors sequences.
pub struct RecordView {
    pub kind: Option<Seq<char>>,
    pub end: Option<Point3D>,
    pub extra_axes: Option<Seq<(Seq<char>, u64)>>,
    pub center_offset: Option<Point>,
    pub clockwise: Option<bool>,
    pub control1: Option<Point3D>,
    pub control2: Option<Point3D>,
    pub control: Option<Point3D>,
    pub power_values: Option<Seq<u8>>,
    pub duration_ms: Option<u64>,
    pub power: Option<u64>,
    pub speed: Option<i32>,
    pub frequency: Option<i32>,
    pub pulse_width: Option<u64>,
    pub spindle_speed: Option<u32>,
    pub coolant: Option<Seq<char>>,
    pub air_assist: Option<Seq<char>>,
    pub head_coolant: Option<Seq<char>>,
    pub head_uid: Option<Seq<char>>,
    pub layer_uid: Option<Seq<char>>,
    pub workpiece_uid: Option<Seq<char>>,
    pub process_uid: Option<Seq<char>>,
    pub process_params: Option<Seq<char>>,
    pub section_type: Option<Seq<char>>,
    pub raster_mode: Option<Seq<char>>,
    pub name: Option<Seq<char>>,
}

/// The characters of an optional string.
pub open spec fn opt_str(o: Option<String>) -> Option<Seq<char>> {
    match o {
        Some(s) => Some(s@),
        None => None,
    }
}

/// The labelled extra-axis values of a record, as sequences.
pub open spec fn labelled_axes(o: Option<Vec<(String, u64)>>) -> Option<Seq<(Seq<char>, u64)>> {
    match o {
        Some(v) => Some(v@.map_values(|p: (String, u64)| (p.0@, p.1))),
        None => None,
    }
}

impl View for CommandRecord {
    type V = RecordView;

    open spec fn view(&self) -> RecordView {
        RecordView {
            kind: opt_str(self.kind),
            end: self.end,
            extra_axes: labelled_axes(self.extra_axes),
            center_offset: self.center_offset,
            clockwise: self.clockwise,
            control1: self.control1,
            control2: self.control2,
            control: self.control,
            power_values: match self.power_values {
                Some(v) => Some(v@),
                None => None,
            },
            duration_ms: self.duration_ms,
            power: self.power,
            speed: self.speed,
            frequency: self.frequency,
            pulse_width: self.pulse_width,
            spindle_speed: self.spindle_speed,
            coolant: opt_str(self.coolant),
            air_assist: opt_str(self.air_assist),
            head_coolant: opt_str(self.head_coolant),
            head_uid: opt_str(self.head_uid),
            layer_uid: opt_str(self.layer_uid),
            workpiece_uid: opt_str(self.workpiece_uid),
            process_uid: opt_str(self.process_uid),
            process_params: opt_str(self.process_params),
            section_type: opt_str(self.section_type),
            raster_mode: opt_str(self.raster_mode),
            name: opt_str(self.name),
        }
    }
}

/// A field that a command type needs.
#[derive(Clone, Copy, Debug, PartialEq, Eq, Structural)]
pub enum RecordField {
    Type,
    End,
    CenterOffset,
    Clockwise,
    Control1,
    Control2,
    Control,
    PowerValues,
    DurationMs,
    Power,
    Speed,
    Frequency,
    PulseWidth,
    SpindleSpeed,
    Coolant,
    AirAssist,
    HeadCoolant,
    HeadUid,
    LayerUid,
    WorkpieceUid,
    ProcessUid,
    ProcessParams,
    SectionType,
}

/// The key of a field in a command dictionary.
pub open spec fn field_key(f: RecordField) -> Seq<char> {
    match f {
        RecordField::Type => "type"@,
        RecordField::End => "end"@,
        RecordField::CenterOffset => "center_offset"@,
        RecordField::Clockwise => "clockwise"@,
        RecordField::Control1 => "control1"@,
        RecordField::Control2 => "control2"@,
        RecordField::Control => "control"@,
        RecordField::PowerValues => "power_values"@,
        RecordField::DurationMs => "duration_ms"@,
        RecordField::Power => "power"@,
        RecordField::Speed => "speed"@,
        RecordField::Frequency => "frequency"@,
        RecordField::PulseWidth => "pulse_width"@,
        RecordField::SpindleSpeed => "spindle_speed"@,
        RecordField::Coolant => "coolant"@,
        RecordField::AirAssist => "air_assist"@,
        RecordField::HeadCoolant => "head_coolant"@,
        RecordField::HeadUid => "head_uid"@,
        RecordField::LayerUid => "layer_uid"@,
        RecordField::WorkpieceUid => "workpiece_uid"@,
        RecordField::ProcessUid => "process_uid"@,
        RecordField::ProcessParams => "process_params"@,
        RecordField::SectionType => "section_type"@,
    }
}

impl RecordField {
    /// The key of the field in a command dictionary.
    pub fn key(&self) -> (r: &'static str)
        ensures
            r@ == field_key(*self),
    {
        match self {
            RecordField::Type => "type",
            RecordField::End => "end",
            RecordField::CenterOffset => "center_offset",
            RecordField::Clockwise => "clockwise",
            RecordField::Control1 => "control1",
            RecordField::Control2 => "control2",
            RecordField::Control => "control",
            RecordField::PowerValues => "power_values",
            RecordField::DurationMs => "duration_ms",
            RecordField::Power => "power",
            RecordField::Speed => "speed",
            RecordField::Frequency => "frequency",
            RecordField::PulseWidth => "pulse_width",
            RecordField::SpindleSpeed => "spindle_speed",
            RecordField::Coolant => "coolant",
            RecordField::AirAssist => "air_assist",
            RecordField::HeadCoolant => "head_coolant",
            RecordField::HeadUid => "head_uid",
            RecordField::LayerUid => "layer_uid",
            RecordField::WorkpieceUid => "workpiece_uid",
            RecordField::ProcessUid => "process_uid",
            RecordField::ProcessParams => "process_params",
            RecordField::SectionType => "section_type",
        }
    }
}

/// Why a record could not be read as a command.
#[derive(Debug)]
pub enum RecordError {
    /// A field the command needs is absent.
    MissingField(RecordField),
    /// The `type` names no command type.
    UnknownCommandType(String),
    /// An extra-axis label names no axis.
    UnknownAxisLabel(String),
    /// The `section_type` names no section type.
    UnknownSectionType(String),
}

/// The mathematical form of a record error.
pub enum RecordErrorView {
    MissingField(RecordField),
    UnknownCommandType(Seq<char>),
    UnknownAxisLabel(Seq<char>),
    UnknownSectionType(Seq<char>),
}

/// The view of a record error.
pub open spec fn error_view(e: RecordError) -> RecordErrorView {
    match e {
        RecordError::MissingField(f) => RecordErrorView::MissingField(f),
        RecordError::UnknownCommandType(s) => RecordErrorView::UnknownCommandType(s@),
        RecordError::UnknownAxisLabel(s) => RecordErrorView::UnknownAxisLabel(s@),
        RecordError::UnknownSectionType(s) => RecordErrorView::UnknownSectionType(s@),
    }
}

/// The command type with wire name `s`.
pub open spec fn command_type_named(s: Seq<char>) -> Option<CommandType> {
    if exists|c: CommandType| #[trigger] command_type_name(c) == s {
        Some(choose|c: CommandType| #[trigger] command_type_name(c) == s)
    } else {
        None
    }
}

/// The axis with label `s`.
pub open spec fn axis_named(s: Seq<char>) -> Option<Axis> {
    if exists|a: Axis| #[trigger] axis_label(a) == s {
        Some(choose|a: Axis| #[trigger] axis_label(a) == s)
    } else {
        None
    }
}

/// The section type with wire name `s`.
pub open spec fn section_named(s: Seq<char>) -> Option<SectionType> {
    if exists|t: SectionType| #[trigger] section_type_name(t) == s {
        Some(choose|t: SectionType| #[trigger] section_type_name(t) == s)
    } else {
        None
    }
}

/// The raster mode with wire name `s`.
pub open spec fn raster_named(s: Seq<char>) -> Option<RasterMode> {
    if exists|m: RasterMode| #[trigger] raster_mode_name(m) == s {
        Some(choose|m: RasterMode| #[trigger] raster_mode_name(m) == s)
    } else {
        None
    }
}

/// The raster mode of a record: none when absent or unknown.
pub open spec fn record_raster_mode(o: Option<Seq<char>>) -> Option<RasterMode> {
    match o {
        Some(s) => raster_named(s),
        None => None,
    }
}

/// The text of a coolant mode in a record.
pub open spec fn coolant_text(m: CoolantMode) -> Seq<char> {
    match m {
        CoolantMode::Off => "Off"@,
        CoolantMode::Mist => "Mist"@,
        CoolantMode::Flood => "Flood"@,
    }
}

/// The coolant mode of a record's text: `"Flood"`, `"Mist"`, and off for
/// anything else.
pub open spec fn coolant_named(s: Seq<char>) -> CoolantMode {
    if s == "Flood"@ {
        CoolantMode::Flood
    } else if s == "Mist"@ {
        CoolantMode::Mist
    } else {
        CoolantMode::Off
    }
}

/// The text of an air-assist mode in a record.
pub open spec fn air_text(m: AirAssistMode) -> Seq<char> {
    match m {
        AirAssistMode::Off => "Off"@,
        AirAssistMode::On => "On"@,
    }
}

/// The air-assist mode of a record's text: `"On"`, and off for anything
/// else.
pub open spec fn air_named(s: Seq<char>) -> AirAssistMode {
    if s == "On"@ {
        AirAssistMode::On
    } else {
        AirAssistMode::Off
    }
}

/// The text of a head-coolant mode in a record.
pub open spec fn head_coolant_text(m: HeadCoolantMode) -> Seq<char> {
    match m {
        HeadCoolantMode::Off => "Off"@,
        HeadCoolantMode::On => "On"@,
    }
}

/// The head-coolant mode of a record's text: `"On"`, and off for anything
/// else.
pub open spec fn head_coolant_named(s: Seq<char>) -> HeadCoolantMode {
    if s == "On"@ {
        HeadCoolantMode::On
    } else {
        HeadCoolantMode::Off
    }
}

/// The first extra-axis label that names no axis.
pub open spec fn first_unknown_label(v: Seq<(Seq<char>, u64)>) -> Option<Seq<char>>
    decreases v.len(),
{
    if v.len() == 0 {
        None
    } else if axis_named(v[0].0) is None {
        Some(v[0].0)
    } else {
        first_unknown_label(v.drop_first())
    }
}

/// The extra-axis values of a record with their labels read as axes.
pub open spec fn parsed_axes(v: Seq<(Seq<char>, u64)>) -> Seq<(Axis, u64)> {
    v.map_values(|p: (Seq<char>, u64)| (axis_named(p.0).unwrap(), p.1))
}

/// Whether a command type is an ops-section marker.
pub open spec fn is_section_marker(ct: CommandType) -> bool {
    ct == CommandType::OpsSectionStart || ct == CommandType::OpsSectionEnd
}

/// The first field that a command of type `ct` needs and the record
/// lacks, in the order the fields are read.
pub open spec fn missing_field(ct: CommandType, r: RecordView) -> Option<RecordField> {
    match ct {
        CommandType::MoveTo | CommandType::LineTo => if r.end is None {
            Some(RecordField::End)
        } else {
            None
        },
        CommandType::ArcTo => if r.end is None {
            Some(RecordField::End)
        } else if r.center_offset is None {
            Some(RecordField::CenterOffset)
        } else if r.clockwise is None {
            Some(RecordField::Clockwise)
        } else {
            None
        },
        CommandType::BezierTo => if r.end is None {
            Some(RecordField::End)
        } else if r.control1 is None {
            Some(RecordField::Control1)
        } else if r.control2 is None {
            Some(RecordField::Control2)
        } else {
            None
        },
        CommandType::QuadraticBezierTo => if r.end is None {
            Some(RecordField::End)
        } else if r.control is None {
            Some(RecordField::Control)
        } else {
            None
        },
        CommandType::ScanLine => if r.end is None {
            Some(RecordField::End)
        } else if r.power_values is None {
            Some(RecordField::PowerValues)
        } else {
            None
        },
        CommandType::Dwell => if r.duration_ms is None {
            Some(RecordField::DurationMs)
        } else {
            None
        },
        CommandType::SetPower => if r.power is None {
            Some(RecordField::Power)
        } else {
            None
        },
        CommandType::SetFeedRate | CommandType::SetRapidRate => if r.speed is None {
            Some(RecordField::Speed)
        } else {
            None
        },
        CommandType::SetFrequency => if r.frequency is None {
            Some(RecordField::Frequency)
        } else {
            None
        },
        CommandType::SetPulseWidth => if r.pulse_width is None {
            Some(RecordField::PulseWidth)
        } else {
            None
        },
        CommandType::SetSpindleRpm => if r.spindle_speed is None {
            Some(RecordField::SpindleSpeed)
        } else {
            None
        },
        CommandType::SetCoolant => if r.coolant is None {
            Some(RecordField::Coolant)
        } else {
            None
        },
        CommandType::SetAirAssist => if r.air_assist is None {
            Some(RecordField::AirAssist)
        } else {
            None
        },
        CommandType::SetHeadCoolant => if r.head_coolant is None {
            Some(RecordField::HeadCoolant)
        } else {
            None
        },
        CommandType::SetHead => if r.head_uid is None {
            Some(RecordField::HeadUid)
        } else {
            None
        },
        CommandType::LayerStart | CommandType::LayerEnd => if r.layer_uid is None {
            Some(RecordField::LayerUid)
        } else {
            None
        },
        CommandType::WorkpieceStart | CommandType::WorkpieceEnd => if r.workpiece_uid is None {
            Some(RecordField::WorkpieceUid)
        } else {
            None
        },
        CommandType::ProcessStart => if r.process_uid is None {
            Some(RecordField::ProcessUid)
        } else if r.process_params is None {
            Some(RecordField::ProcessParams)
        } else {
            None
        },
        CommandType::ProcessEnd => if r.process_uid is None {
            Some(RecordField::ProcessUid)
        } else {
            None
        },
        CommandType::OpsSectionStart | CommandType::OpsSectionEnd => if r.section_type is None {
            Some(RecordField::SectionType)
        } else {
            None
        },
        _ => None,
    }
}

/// The error, if any, of reading a record whose type is `ct`, once its
/// type and axis labels are known to be fine.
pub open spec fn typed_error(ct: CommandType, r: RecordView) -> Option<RecordErrorView> {
    match missing_field(ct, r) {
        Some(f) => Some(RecordErrorView::MissingField(f)),
        None => if is_section_marker(ct) && section_named(r.section_type.unwrap()) is None {
            Some(RecordErrorView::UnknownSectionType(r.section_type.unwrap()))
        } else {
            None
        },
    }
}

/// The error of reading a record, if it cannot be read: the first
/// problem in the order the record is checked.
pub open spec fn record_error(r: RecordView) -> Option<RecordErrorView> {
    match r.kind {
        None => Some(RecordErrorView::MissingField(RecordField::Type)),
        Some(k) => match command_type_named(k) {
            None => Some(RecordErrorView::UnknownCommandType(k)),
            Some(ct) => match r.extra_axes {
                Some(v) if first_unknown_label(v) is Some => Some(
                    RecordErrorView::UnknownAxisLabel(first_unknown_label(v).unwrap()),
                ),
                _ => typed_error(ct, r),
            },
        },
    }
}

/// A readable record of a section marker whose section type and raster
/// mode do not go together; reading it is refused.
pub open spec fn record_section_mismatch(r: RecordView) -> bool {
    &&& record_error(r) is None
    &&& is_section_marker(command_type_named(r.kind.unwrap()).unwrap())
    &&& section_error(
        section_named(r.section_type.unwrap()).unwrap(),
        record_raster_mode(r.raster_mode),
    ) is Some
}

/// `n` is the node that a readable record of type `ct` describes, with
/// extra axes `ea` (moving commands only).
pub open spec fn typed_node(ct: CommandType, n: OpNodeView, r: RecordView, ea: Option<Seq<(Axis, u64)>>) -> bool {
    if command_type_category(ct) == CommandCategory::Moving {
        n == OpNodeView {
            category: OpCategoryView::Moving {
                end: r.end.unwrap(),
                cmd: match ct {
                    CommandType::MoveTo => MoveCmdView::MoveTo,
                    CommandType::LineTo => MoveCmdView::LineTo,
                    CommandType::ArcTo => MoveCmdView::ArcTo {
                        center: r.center_offset.unwrap(),
                        cw: r.clockwise.unwrap(),
                    },
                    CommandType::BezierTo => MoveCmdView::BezierTo {
                        control1: r.control1.unwrap(),
                        control2: r.control2.unwrap(),
                    },
                    CommandType::QuadraticBezierTo => MoveCmdView::QuadraticBezierTo {
                        control: r.control.unwrap(),
                    },
                    _ => MoveCmdView::ScanLine { power_values: r.power_values.unwrap() },
                },
            },
            extra_axes: ea,
        }
    } else {
        &&& n.extra_axes is None
        &&& match ct {
            CommandType::Dwell => n.category == OpCategoryView::State(StateCmd::Dwell(r.duration_ms.unwrap())),
            CommandType::SetPower => n.category == OpCategoryView::State(StateCmd::SetPower(r.power.unwrap())),
            CommandType::SetFeedRate => n.category == OpCategoryView::State(
                StateCmd::SetFeedRate(r.speed.unwrap()),
            ),
            CommandType::SetRapidRate => n.category == OpCategoryView::State(
                StateCmd::SetRapidRate(r.speed.unwrap()),
            ),
            CommandType::SetFrequency => n.category == OpCategoryView::State(
                StateCmd::SetFrequency(r.frequency.unwrap()),
            ),
            CommandType::SetPulseWidth => n.category == OpCategoryView::State(
                StateCmd::SetPulseWidth(r.pulse_width.unwrap()),
            ),
            CommandType::SetSpindleRpm => n.category == OpCategoryView::State(
                StateCmd::SetSpindleRpm(r.spindle_speed.unwrap()),
            ),
            CommandType::SetCoolant => n.category == OpCategoryView::State(
                StateCmd::SetCoolant(coolant_named(r.coolant.unwrap())),
            ),
            CommandType::SetAirAssist => n.category == OpCategoryView::State(
                StateCmd::SetAirAssist(air_named(r.air_assist.unwrap())),
            ),
            CommandType::SetHeadCoolant => n.category == OpCategoryView::State(
                StateCmd::SetHeadCoolant(head_coolant_named(r.head_coolant.unwrap())),
            ),
            CommandType::SetHead => n.category matches OpCategoryView::State(StateCmd::SetHead(h)) && h@
                == r.head_uid.unwrap(),
            CommandType::LayerStart => n.category matches OpCategoryView::Marker(MarkerCmd::LayerStart(u))
                && u@ == r.layer_uid.unwrap(),
            CommandType::LayerEnd => n.category matches OpCategoryView::Marker(MarkerCmd::LayerEnd(u)) && u@
                == r.layer_uid.unwrap(),
            CommandType::WorkpieceStart => n.category matches OpCategoryView::Marker(
                MarkerCmd::WorkpieceStart(u),
            ) && u@ == r.workpiece_uid.unwrap(),
            CommandType::WorkpieceEnd => n.category matches OpCategoryView::Marker(
                MarkerCmd::WorkpieceEnd(u),
            ) && u@ == r.workpiece_uid.unwrap(),
            CommandType::ProcessStart => n.category matches OpCategoryView::Marker(
                MarkerCmd::ProcessStart { uid, params },
            ) && uid@ == r.process_uid.unwrap() && params@ == r.process_params.unwrap(),
            CommandType::ProcessEnd => n.category matches OpCategoryView::Marker(MarkerCmd::ProcessEnd { uid })
                && uid@ == r.process_uid.unwrap(),
            CommandType::OpsSectionStart => n.category matches OpCategoryView::Marker(
                MarkerCmd::OpsSectionStart { section_type, workpiece_uid: Some(w), raster_mode },
            ) && section_type == section_named(r.section_type.unwrap()).unwrap() && raster_mode
                == record_raster_mode(r.raster_mode) && w@ == match r.workpiece_uid {
                Some(s) => s,
                None => Seq::<char>::empty(),
            },
            CommandType::OpsSectionEnd => n.category == OpCategoryView::Marker(
                MarkerCmd::OpsSectionEnd {
                    section_type: section_named(r.section_type.unwrap()).unwrap(),
                    workpiece_uid: None,
                    raster_mode: record_raster_mode(r.raster_mode),
                },
            ),
            CommandType::JobStart => n.category == OpCategoryView::Marker(MarkerCmd::JobStart),
            CommandType::JobEnd => n.category == OpCategoryView::Marker(MarkerCmd::JobEnd),
            CommandType::StateBlockStart => n.category matches OpCategoryView::Marker(
                MarkerCmd::StateBlockStart { name },
            ) && opt_str(name) == r.name,
            _ => n.category == OpCategoryView::Marker(MarkerCmd::StateBlockEnd),
        }
    }
}

/// `n` is the node that a readable record describes.
pub open spec fn record_node(n: OpNodeView, r: RecordView) -> bool {
    typed_node(
        command_type_named(r.kind.unwrap()).unwrap(),
        n,
        r,
        match r.extra_axes {
            Some(v) => Some(parsed_axes(v)),
            None => None,
        },
    )
}


/// Distinct axes have distinct labels.
pub proof fn lemma_axis_label_injective(a: Axis, b: Axis)
    ensures
        axis_label(a) == axis_label(b) <==> a == b,
{
    reveal_strlit("X");
    reveal_strlit("Y");
    reveal_strlit("Z");
    reveal_strlit("A");
    reveal_strlit("B");
    reveal_strlit("C");
    reveal_strlit("U");
    if axis_label(a) == axis_label(b) {
        assert(axis_label(a)[0] == axis_label(b)[0]);
    }
}

fn read_command_type(s: &String) -> (r: Option<CommandType>)
    ensures
        r == command_type_named(s@),
{
    let r = CommandType::from_name(s.as_str());
    proof {
        if let Some(ct) = r {
            let c = choose|c: CommandType| #[trigger] command_type_name(c) == s@;
            lemma_command_type_name_injective(c, ct);
        }
    }
    r
}

fn read_axis(s: &String) -> (r: Option<Axis>)
    ensures
        r == axis_named(s@),
{
    let r = Axis::from_str_name(s.as_str());
    proof {
        if let Some(a) = r {
            let c = choose|c: Axis| #[trigger] axis_label(c) == s@;
            lemma_axis_label_injective(c, a);
        }
    }
    r
}

fn read_section_type(s: &String) -> (r: Option<SectionType>)
    ensures
        r == section_named(s@),
{
    let r = SectionType::from_name(s.as_str());
    proof {
        if let Some(t) = r {
            let c = choose|c: SectionType| #[trigger] section_type_name(c) == s@;
            lemma_section_type_name_injective(c, t);
        }
    }
    r
}

fn read_raster_mode(o: &Option<String>) -> (r: Option<RasterMode>)
    ensures
        r == record_raster_mode(opt_str(*o)),
{
    match o {
        None => None,
        Some(s) => {
            let r = RasterMode::from_name(s.as_str());
            proof {
                if let Some(m) = r {
                    let c = choose|c: RasterMode| #[trigger] raster_mode_name(c) == s@;
                    lemma_raster_mode_name_injective(c, m);
                }
            }
            r
        },
    }
}

fn read_extra_axes(v: &Vec<(String, u64)>) -> (r: Result<Vec<(Axis, u64)>, String>)
    ensures
        match r {
            Ok(a) => first_unknown_label(labelled_axes(Some(*v)).unwrap()) is None && a@ == parsed_axes(
                labelled_axes(Some(*v)).unwrap(),
            ),
            Err(l) => first_unknown_label(labelled_axes(Some(*v)).unwrap()) == Some(l@),
        },
{
    let ghost lv = labelled_axes(Some(*v)).unwrap();
    let mut out: Vec<(Axis, u64)> = Vec::new();
    let mut i: usize = 0;
    assert(lv.subrange(0, lv.len() as int) =~= lv);
    while i < v.len()
        invariant
            lv == labelled_axes(Some(*v)).unwrap(),
            lv.len() == v@.len(),
            i <= v@.len(),
            first_unknown_label(lv) == first_unknown_label(lv.subrange(i as int, lv.len() as int)),
            first_unknown_label(lv.subrange(i as int, lv.len() as int)) is None ==> first_unknown_label(lv) is None,
            out@ == parsed_axes(lv.subrange(0, i as int)),
        decreases v@.len() - i,
    {
        let ghost rest = lv.subrange(i as int, lv.len() as int);
        assert(rest[0] == lv[i as int]);
        assert(rest.drop_first() =~= lv.subrange(i + 1, lv.len() as int));
        assert(lv[i as int] == (v@[i as int].0@, v@[i as int].1));
        match read_axis(&v[i].0) {
            None => {
                return Err(v[i].0.clone());
            },
            Some(a) => {
                out.push((a, v[i].1));
                assert(out@ =~= parsed_axes(lv.subrange(0, i + 1)));
            },
        }
        i = i + 1;
    }
    assert(lv.subrange(0, lv.len() as int) =~= lv);
    Ok(out)
}

fn moving_from_record(ct: CommandType, rec: &CommandRecord, ea: Option<Vec<(Axis, u64)>>) -> (r: Result<OpNode, RecordError>)
    requires
        command_type_category(ct) == CommandCategory::Moving,
    ensures
        match r {
            Ok(n) => typed_error(ct, rec@) is None && typed_node(
                ct,
                n@,
                rec@,
                crate::ops::types::extra_view(ea),
            ),
            Err(e) => typed_error(ct, rec@) == Some(error_view(e)),
        },
{
    let end = match rec.end {
        Some(e) => e,
        None => {
            return Err(RecordError::MissingField(RecordField::End));
        },
    };
    match ct {
        CommandType::MoveTo => Ok(OpNode::move_to(end.x, end.y, end.z, ea)),
        CommandType::LineTo => Ok(OpNode::line_to(end.x, end.y, end.z, ea)),
        CommandType::ArcTo => {
            let c = match rec.center_offset {
                Some(c) => c,
                None => {
                    return Err(RecordError::MissingField(RecordField::CenterOffset));
                },
            };
            let cw = match rec.clockwise {
                Some(cw) => cw,
                None => {
                    return Err(RecordError::MissingField(RecordField::Clockwise));
                },
            };
            Ok(OpNode::arc_to(end.x, end.y, c.x, c.y, cw, end.z, ea))
        },
        CommandType::BezierTo => {
            let c1 = match rec.control1 {
                Some(c) => c,
                None => {
                    return Err(RecordError::MissingField(RecordField::Control1));
                },
            };
            let c2 = match rec.control2 {
                Some(c) => c,
                None => {
                    return Err(RecordError::MissingField(RecordField::Control2));
                },
            };
            Ok(OpNode::bezier_to(c1, c2, end, ea))
        },
        CommandType::QuadraticBezierTo => {
            let c = match rec.control {
                Some(c) => c,
                None => {
                    return Err(RecordError::MissingField(RecordField::Control));
                },
            };
            Ok(OpNode::quadratic_bezier_to(c, end, ea))
        },
        _ => {
            let pv = match &rec.power_values {
                Some(v) => crate::ops::types::copy_vec(v),
                None => {
                    return Err(RecordError::MissingField(RecordField::PowerValues));
                },
            };
            Ok(OpNode::scan_to(end.x, end.y, end.z, pv, ea))
        },
    }
}

fn read_coolant(s: &String) -> (r: CoolantMode)
    ensures
        r == coolant_named(s@),
{
    if str_equals(s.as_str(), "Flood") {
        CoolantMode::Flood
    } else if str_equals(s.as_str(), "Mist") {
        CoolantMode::Mist
    } else {
        CoolantMode::Off
    }
}

fn state_from_record(ct: CommandType, rec: &CommandRecord) -> (r: Result<OpNode, RecordError>)
    requires
        command_type_category(ct) == CommandCategory::State,
    ensures
        match r {
            Ok(n) => typed_error(ct, rec@) is None && typed_node(ct, n@, rec@, None),
            Err(e) => typed_error(ct, rec@) == Some(error_view(e)),
        },
{
    match ct {
        CommandType::Dwell => match rec.duration_ms {
            Some(d) => Ok(OpNode::dwell(d)),
            None => Err(RecordError::MissingField(RecordField::DurationMs)),
        },
        CommandType::SetPower => match rec.power {
            Some(p) => Ok(OpNode::set_power(p)),
            None => Err(RecordError::MissingField(RecordField::Power)),
        },
        CommandType::SetFeedRate => match rec.speed {
            Some(v) => Ok(OpNode::set_feed_rate(v)),
            None => Err(RecordError::MissingField(RecordField::Speed)),
        },
        CommandType::SetRapidRate => match rec.speed {
            Some(v) => Ok(OpNode::set_rapid_rate(v)),
            None => Err(RecordError::MissingField(RecordField::Speed)),
        },
        CommandType::SetFrequency => match rec.frequency {
            Some(v) => Ok(OpNode::set_frequency(v)),
            None => Err(RecordError::MissingField(RecordField::Frequency)),
        },
        CommandType::SetPulseWidth => match rec.pulse_width {
            Some(v) => Ok(OpNode::set_pulse_width(v)),
            None => Err(RecordError::MissingField(RecordField::PulseWidth)),
        },
        CommandType::SetSpindleRpm => match rec.spindle_speed {
            Some(v) => Ok(OpNode::set_spindle_rpm(v)),
            None => Err(RecordError::MissingField(RecordField::SpindleSpeed)),
        },
        CommandType::SetCoolant => match &rec.coolant {
            Some(m) => Ok(OpNode::set_coolant(read_coolant(m))),
            None => Err(RecordError::MissingField(RecordField::Coolant)),
        },
        CommandType::SetAirAssist => match &rec.air_assist {
            Some(m) => {
                let mode = if str_equals(m.as_str(), "On") {
                    AirAssistMode::On
                } else {
                    AirAssistMode::Off
                };
                Ok(OpNode::set_air_assist(mode))
            },
            None => Err(RecordError::MissingField(RecordField::AirAssist)),
        },
        CommandType::SetHeadCoolant => match &rec.head_coolant {
            Some(m) => {
                let mode = if str_equals(m.as_str(), "On") {
                    HeadCoolantMode::On
                } else {
                    HeadCoolantMode::Off
                };
                Ok(OpNode::set_head_coolant(mode))
            },
            None => Err(RecordError::MissingField(RecordField::HeadCoolant)),
        },
        _ => match &rec.head_uid {
            Some(h) => Ok(OpNode::set_head(h.as_str())),
            None => Err(RecordError::MissingField(RecordField::HeadUid)),
        },
    }
}

fn marker_from_record(ct: CommandType, rec: &CommandRecord) -> (r: Result<OpNode, RecordError>)
    requires
        command_type_category(ct) == CommandCategory::Marker,
        typed_error(ct, rec@) is None && is_section_marker(ct) ==> section_error(
            section_named(rec@.section_type.unwrap()).unwrap(),
            record_raster_mode(rec@.raster_mode),
        ) is None,
    ensures
        match r {
            Ok(n) => typed_error(ct, rec@) is None && typed_node(ct, n@, rec@, None),
            Err(e) => typed_error(ct, rec@) == Some(error_view(e)),
        },
{
    match ct {
        CommandType::LayerStart | CommandType::LayerEnd => match &rec.layer_uid {
            Some(u) => if ct == CommandType::LayerStart {
                Ok(OpNode::layer_start(u.as_str()))
            } else {
                Ok(OpNode::layer_end(u.as_str()))
            },
            None => Err(RecordError::MissingField(RecordField::LayerUid)),
        },
        CommandType::WorkpieceStart | CommandType::WorkpieceEnd => match &rec.workpiece_uid {
            Some(u) => if ct == CommandType::WorkpieceStart {
                Ok(OpNode::workpiece_start(u.as_str()))
            } else {
                Ok(OpNode::workpiece_end(u.as_str()))
            },
            None => Err(RecordError::MissingField(RecordField::WorkpieceUid)),
        },
        CommandType::ProcessStart => match &rec.process_uid {
            Some(u) => match &rec.process_params {
                Some(p) => Ok(OpNode::process_start(u.as_str(), p.as_str())),
                None => Err(RecordError::MissingField(RecordField::ProcessParams)),
            },
            None => Err(RecordError::MissingField(RecordField::ProcessUid)),
        },
        CommandType::ProcessEnd => match &rec.process_uid {
            Some(u) => Ok(OpNode::process_end(u.as_str())),
            None => Err(RecordError::MissingField(RecordField::ProcessUid)),
        },
        CommandType::OpsSectionStart | CommandType::OpsSectionEnd => {
            let st = match &rec.section_type {
                Some(s) => match read_section_type(s) {
                    Some(t) => t,
                    None => {
                        return Err(RecordError::UnknownSectionType(s.clone()));
                    },
                },
                None => {
                    return Err(RecordError::MissingField(RecordField::SectionType));
                },
            };
            let rm = read_raster_mode(&rec.raster_mode);
            if ct == CommandType::OpsSectionStart {
                let wp = match &rec.workpiece_uid {
                    Some(w) => w.as_str(),
                    None => "",
                };
                proof {
                    reveal_strlit("");
                    assert(""@ =~= Seq::<char>::empty());
                }
                match OpNode::ops_section_start(st, wp, rm) {
                    Ok(n) => Ok(n),
                    Err(_) => {
                        assert(false);
                        Err(RecordError::MissingField(RecordField::SectionType))
                    },
                }
            } else {
                match OpNode::ops_section_end(st, rm) {
                    Ok(n) => Ok(n),
                    Err(_) => {
                        assert(false);
                        Err(RecordError::MissingField(RecordField::SectionType))
                    },
                }
            }
        },
        CommandType::JobStart => Ok(OpNode::job_start()),
        CommandType::JobEnd => Ok(OpNode::job_end()),
        CommandType::StateBlockStart => match &rec.name {
            Some(n) => Ok(OpNode::state_block_start(Some(n.as_str()))),
            None => Ok(OpNode::state_block_start(None)),
        },
        _ => Ok(OpNode::state_block_end()),
    }
}

/// Read a command from a record (see `record_error` for when that fails
/// and `record_node` for the command read). A section marker whose
/// section type and raster mode do not go together is not accepted.
pub fn from_record(rec: &CommandRecord) -> (r: Result<OpNode, RecordError>)
    requires
        !record_section_mismatch(rec@),
    ensures
        match r {
            Ok(n) => record_error(rec@) is None && record_node(n@, rec@),
            Err(e) => record_error(rec@) == Some(error_view(e)),
        },
{
    let ct = match &rec.kind {
        None => {
            return Err(RecordError::MissingField(RecordField::Type));
        },
        Some(k) => match read_command_type(k) {
            Some(ct) => ct,
            None => {
                return Err(RecordError::UnknownCommandType(k.clone()));
            },
        },
    };
    let ea = match &rec.extra_axes {
        Some(v) => match read_extra_axes(v) {
            Ok(a) => Some(a),
            Err(l) => {
                return Err(RecordError::UnknownAxisLabel(l));
            },
        },
        None => None,
    };
    let ghost eav = crate::ops::types::extra_view(ea);
    assert(eav == match rec@.extra_axes {
        Some(v) => Some(parsed_axes(v)),
        None => None,
    });
    match ct.category() {
        CommandCategory::Moving => moving_from_record(ct, rec, ea),
        CommandCategory::State => state_from_record(ct, rec),
        CommandCategory::Marker => marker_from_record(ct, rec),
    }
}

/// A record with only its type set.
pub open spec fn bare_record(kind: Seq<char>) -> RecordView {
    RecordView {
        kind: Some(kind),
        end: None,
        extra_axes: None,
        center_offset: None,
        clockwise: None,
        control1: None,
        control2: None,
        control: None,
        power_values: None,
        duration_ms: None,
        power: None,
        speed: None,
        frequency: None,
        pulse_width: None,
        spindle_speed: None,
        coolant: None,
        air_assist: None,
        head_coolant: None,
        head_uid: None,
        layer_uid: None,
        workpiece_uid: None,
        process_uid: None,
        process_params: None,
        section_type: None,
        raster_mode: None,
        name: None,
    }
}

/// Extra-axis values listed under their axis labels.
pub open spec fn label_axes(s: Seq<(Axis, u64)>) -> Seq<(Seq<char>, u64)> {
    s.map_values(|p: (Axis, u64)| (axis_label(p.0), p.1))
}

/// The record that describes node `n`: its type name, the end point and
/// labelled extra axes of a moving command, and the fields of its own
/// parameters; an absent optional parameter leaves its field out, and
/// only moving commands list extra axes.
pub open spec fn expected_record(n: OpNodeView) -> RecordView {
    let b = bare_record(command_type_name(node_command_type(n)));
    match n.category {
        OpCategoryView::Moving { end, cmd } => {
            let m = RecordView {
                end: Some(end),
                extra_axes: match n.extra_axes {
                    Some(s) => Some(label_axes(s)),
                    None => None,
                },
                ..b
            };
            match cmd {
                MoveCmdView::ArcTo { center, cw } => RecordView {
                    center_offset: Some(center),
                    clockwise: Some(cw),
                    ..m
                },
                MoveCmdView::BezierTo { control1, control2 } => RecordView {
                    control1: Some(control1),
                    control2: Some(control2),
                    ..m
                },
                MoveCmdView::QuadraticBezierTo { control } => RecordView { control: Some(control), ..m },
                MoveCmdView::ScanLine { power_values } => RecordView { power_values: Some(power_values), ..m },
                _ => m,
            }
        },
        OpCategoryView::State(c) => match c {
            StateCmd::Dwell(d) => RecordView { duration_ms: Some(d), ..b },
            StateCmd::SetPower(p) => RecordView { power: Some(p), ..b },
            StateCmd::SetFeedRate(v) => RecordView { speed: Some(v), ..b },
            StateCmd::SetRapidRate(v) => RecordView { speed: Some(v), ..b },
            StateCmd::SetFrequency(v) => RecordView { frequency: Some(v), ..b },
            StateCmd::SetPulseWidth(v) => RecordView { pulse_width: Some(v), ..b },
            StateCmd::SetSpindleRpm(v) => RecordView { spindle_speed: Some(v), ..b },
            StateCmd::SetCoolant(mode) => RecordView { coolant: Some(coolant_text(mode)), ..b },
            StateCmd::SetAirAssist(mode) => RecordView { air_assist: Some(air_text(mode)), ..b },
            StateCmd::SetHeadCoolant(mode) => RecordView { head_coolant: Some(head_coolant_text(mode)), ..b },
            StateCmd::SetHead(h) => RecordView { head_uid: Some(h@), ..b },
        },
        OpCategoryView::Marker(m) => match m {
            MarkerCmd::LayerStart(u) => RecordView { layer_uid: Some(u@), ..b },
            MarkerCmd::LayerEnd(u) => RecordView { layer_uid: Some(u@), ..b },
            MarkerCmd::WorkpieceStart(u) => RecordView { workpiece_uid: Some(u@), ..b },
            MarkerCmd::WorkpieceEnd(u) => RecordView { workpiece_uid: Some(u@), ..b },
            MarkerCmd::OpsSectionStart { section_type, workpiece_uid, raster_mode } => RecordView {
                section_type: Some(section_type_name(section_type)),
                workpiece_uid: opt_str(workpiece_uid),
                raster_mode: match raster_mode {
                    Some(rm) => Some(raster_mode_name(rm)),
                    None => None,
                },
                ..b
            },
            MarkerCmd::OpsSectionEnd { section_type, raster_mode, .. } => RecordView {
                section_type: Some(section_type_name(section_type)),
                raster_mode: match raster_mode {
                    Some(rm) => Some(raster_mode_name(rm)),
                    None => None,
                },
                ..b
            },
            MarkerCmd::StateBlockStart { name } => RecordView { name: opt_str(name), ..b },
            MarkerCmd::ProcessStart { uid, params } => RecordView {
                process_uid: Some(uid@),
                process_params: Some(params@),
                ..b
            },
            MarkerCmd::ProcessEnd { uid } => RecordView { process_uid: Some(uid@), ..b },
            _ => b,
        },
    }
}

fn bare(kind: String) -> (r: CommandRecord)
    ensures
        r@ == bare_record(kind@),
{
    CommandRecord {
        kind: Some(kind),
        end: None,
        extra_axes: None,
        center_offset: None,
        clockwise: None,
        control1: None,
        control2: None,
        control: None,
        power_values: None,
        duration_ms: None,
        power: None,
        speed: None,
        frequency: None,
        pulse_width: None,
        spindle_speed: None,
        coolant: None,
        air_assist: None,
        head_coolant: None,
        head_uid: None,
        layer_uid: None,
        workpiece_uid: None,
        process_uid: None,
        process_params: None,
        section_type: None,
        raster_mode: None,
        name: None,
    }
}

fn labelled(ea: &Vec<(Axis, u64)>) -> (r: Vec<(String, u64)>)
    ensures
        labelled_axes(Some(r)) == Some(label_axes(ea@)),
{
    let mut out: Vec<(String, u64)> = Vec::new();
    let mut i: usize = 0;
    while i < ea.len()
        invariant
            i <= ea@.len(),
            out@.len() == i,
            labelled_axes(Some(out)).unwrap() == label_axes(ea@.subrange(0, i as int)),
        decreases ea@.len() - i,
    {
        let (a, v) = ea[i];
        let ghost prev = labelled_axes(Some(out)).unwrap();
        let lbl = a.label().to_owned();
        out.push((lbl, v));
        assert(labelled_axes(Some(out)).unwrap() =~= prev.push((axis_label(a), v)));
        assert(label_axes(ea@.subrange(0, i + 1)) =~= label_axes(ea@.subrange(0, i as int)).push(
            (axis_label(a), v),
        ));
        assert(labelled_axes(Some(out)).unwrap() =~= label_axes(ea@.subrange(0, i + 1)));
        i = i + 1;
    }
    assert(ea@.subrange(0, ea@.len() as int) =~= ea@);
    out
}

fn opt_copy(o: &Option<String>) -> (r: Option<String>)
    ensures
        opt_str(r) == opt_str(*o),
{
    match o {
        Some(s) => Some(s.clone()),
        None => None,
    }
}

fn coolant_str(m: CoolantMode) -> (r: String)
    ensures
        r@ == coolant_text(m),
{
    match m {
        CoolantMode::Off => "Off".to_owned(),
        CoolantMode::Mist => "Mist".to_owned(),
        CoolantMode::Flood => "Flood".to_owned(),
    }
}

fn on_off_str(on: bool) -> (r: String)
    ensures
        r@ == if on {
            "On"@
        } else {
            "Off"@
        },
{
    if on {
        "On".to_owned()
    } else {
        "Off".to_owned()
    }
}

/// The record that describes a node; see `expected_record`.
pub fn to_record(node: &OpNode) -> (r: CommandRecord)
    ensures
        r@ == expected_record(node@),
{
    let mut rec = bare(node.command_type().name().to_owned());
    match &node.category {
        OpCategory::Moving { end, cmd } => {
            rec.end = Some(*end);
            rec.extra_axes = match &node.extra_axes {
                Some(ea) => Some(labelled(ea)),
                None => None,
            };
            match cmd {
                crate::ops::types::MoveCmd::ArcTo { center, cw } => {
                    rec.center_offset = Some(*center);
                    rec.clockwise = Some(*cw);
                },
                crate::ops::types::MoveCmd::BezierTo { control1, control2 } => {
                    rec.control1 = Some(*control1);
                    rec.control2 = Some(*control2);
                },
                crate::ops::types::MoveCmd::QuadraticBezierTo { control } => {
                    rec.control = Some(*control);
                },
                crate::ops::types::MoveCmd::ScanLine { power_values } => {
                    rec.power_values = Some(crate::ops::types::copy_vec(power_values));
                },
                _ => {},
            }
        },
        OpCategory::State(c) => match c {
            StateCmd::Dwell(d) => rec.duration_ms = Some(*d),
            StateCmd::SetPower(p) => rec.power = Some(*p),
            StateCmd::SetFeedRate(v) => rec.speed = Some(*v),
            StateCmd::SetRapidRate(v) => rec.speed = Some(*v),
            StateCmd::SetFrequency(v) => rec.frequency = Some(*v),
            StateCmd::SetPulseWidth(v) => rec.pulse_width = Some(*v),
            StateCmd::SetSpindleRpm(v) => rec.spindle_speed = Some(*v),
            StateCmd::SetCoolant(m) => rec.coolant = Some(coolant_str(*m)),
            StateCmd::SetAirAssist(m) => rec.air_assist = Some(on_off_str(*m == AirAssistMode::On)),
            StateCmd::SetHeadCoolant(m) => rec.head_coolant = Some(on_off_str(*m == HeadCoolantMode::On)),
            StateCmd::SetHead(h) => rec.head_uid = Some(h.clone()),
        },
        OpCategory::Marker(m) => match m {
            MarkerCmd::LayerStart(u) => rec.layer_uid = Some(u.clone()),
            MarkerCmd::LayerEnd(u) => rec.layer_uid = Some(u.clone()),
            MarkerCmd::WorkpieceStart(u) => rec.workpiece_uid = Some(u.clone()),
            MarkerCmd::WorkpieceEnd(u) => rec.workpiece_uid = Some(u.clone()),
            MarkerCmd::OpsSectionStart { section_type, workpiece_uid, raster_mode } => {
                rec.section_type = Some(section_type.name().to_owned());
                rec.workpiece_uid = opt_copy(workpiece_uid);
                rec.raster_mode = match raster_mode {
                    Some(rm) => Some(rm.name().to_owned()),
                    None => None,
                };
            },
            MarkerCmd::OpsSectionEnd { section_type, raster_mode, .. } => {
                rec.section_type = Some(section_type.name().to_owned());
                rec.raster_mode = match raster_mode {
                    Some(rm) => Some(rm.name().to_owned()),
                    None => None,
                };
            },
            MarkerCmd::StateBlockStart { name } => rec.name = opt_copy(name),
            MarkerCmd::ProcessStart { uid, params } => {
                rec.process_uid = Some(uid.clone());
                rec.process_params = Some(params.clone());
            },
            MarkerCmd::ProcessEnd { uid } => rec.process_uid = Some(uid.clone()),
            _ => {},
        },
    }
    rec
}

/// A node that a record can describe exactly: only moving commands carry
/// extra axes, a section start names its workpiece and a section end does
/// not, and a section marker's type and raster mode go together.
pub open spec fn representable(n: OpNodeView) -> bool {
    &&& !(n.category is Moving) ==> n.extra_axes is None
    &&& match n.category {
        OpCategoryView::Marker(MarkerCmd::OpsSectionStart { section_type, workpiece_uid, raster_mode }) => {
            workpiece_uid is Some && section_error(section_type, raster_mode) is None
        },
        OpCategoryView::Marker(MarkerCmd::OpsSectionEnd { section_type, workpiece_uid, raster_mode }) => {
            workpiece_uid is None && section_error(section_type, raster_mode) is None
        },
        _ => true,
    }
}

/// Two marker commands that agree, their strings compared by content.
pub open spec fn same_marker(x: MarkerCmd, y: MarkerCmd) -> bool {
    match (x, y) {
        (MarkerCmd::LayerStart(p), MarkerCmd::LayerStart(q)) => p@ == q@,
        (MarkerCmd::LayerEnd(p), MarkerCmd::LayerEnd(q)) => p@ == q@,
        (MarkerCmd::WorkpieceStart(p), MarkerCmd::WorkpieceStart(q)) => p@ == q@,
        (MarkerCmd::WorkpieceEnd(p), MarkerCmd::WorkpieceEnd(q)) => p@ == q@,
        (
            MarkerCmd::OpsSectionStart { section_type: s1, workpiece_uid: w1, raster_mode: r1 },
            MarkerCmd::OpsSectionStart { section_type: s2, workpiece_uid: w2, raster_mode: r2 },
        ) => s1 == s2 && r1 == r2 && opt_str(w1) == opt_str(w2),
        (
            MarkerCmd::OpsSectionEnd { section_type: s1, workpiece_uid: w1, raster_mode: r1 },
            MarkerCmd::OpsSectionEnd { section_type: s2, workpiece_uid: w2, raster_mode: r2 },
        ) => s1 == s2 && r1 == r2 && opt_str(w1) == opt_str(w2),
        (MarkerCmd::StateBlockStart { name: a }, MarkerCmd::StateBlockStart { name: b }) => opt_str(a)
            == opt_str(b),
        (
            MarkerCmd::ProcessStart { uid: u1, params: p1 },
            MarkerCmd::ProcessStart { uid: u2, params: p2 },
        ) => u1@ == u2@ && p1@ == p2@,
        (MarkerCmd::ProcessEnd { uid: u1 }, MarkerCmd::ProcessEnd { uid: u2 }) => u1@ == u2@,
        _ => x == y,
    }
}

/// Two nodes that agree, their strings compared by content.
pub open spec fn same_node(a: OpNodeView, b: OpNodeView) -> bool {
    &&& a.extra_axes == b.extra_axes
    &&& match (a.category, b.category) {
        (OpCategoryView::State(StateCmd::SetHead(p)), OpCategoryView::State(StateCmd::SetHead(q))) => p@
            == q@,
        (OpCategoryView::Marker(x), OpCategoryView::Marker(y)) => same_marker(x, y),
        _ => a.category == b.category,
    }
}

proof fn lemma_type_name_read(ct: CommandType)
    ensures
        command_type_named(command_type_name(ct)) == Some(ct),
{
    assert(command_type_name(ct) == command_type_name(ct));
    let c = choose|c: CommandType| #[trigger] command_type_name(c) == command_type_name(ct);
    lemma_command_type_name_injective(c, ct);
}

proof fn lemma_axis_read(a: Axis)
    ensures
        axis_named(axis_label(a)) == Some(a),
{
    assert(axis_label(a) == axis_label(a));
    let c = choose|c: Axis| #[trigger] axis_label(c) == axis_label(a);
    lemma_axis_label_injective(c, a);
}

proof fn lemma_section_read(t: SectionType)
    ensures
        section_named(section_type_name(t)) == Some(t),
{
    assert(section_type_name(t) == section_type_name(t));
    let c = choose|c: SectionType| #[trigger] section_type_name(c) == section_type_name(t);
    lemma_section_type_name_injective(c, t);
}

proof fn lemma_raster_read(o: Option<RasterMode>)
    ensures
        record_raster_mode(
            match o {
                Some(m) => Some(raster_mode_name(m)),
                None => None,
            },
        ) == o,
{
    if let Some(m) = o {
        assert(raster_mode_name(m) == raster_mode_name(m));
        let c = choose|c: RasterMode| #[trigger] raster_mode_name(c) == raster_mode_name(m);
        lemma_raster_mode_name_injective(c, m);
    }
}

proof fn lemma_labels_read(s: Seq<(Axis, u64)>)
    ensures
        first_unknown_label(label_axes(s)) is None,
        parsed_axes(label_axes(s)) == s,
    decreases s.len(),
{
    if s.len() > 0 {
        lemma_axis_read(s[0].0);
        assert(label_axes(s).drop_first() =~= label_axes(s.drop_first()));
        lemma_labels_read(s.drop_first());
    }
    assert forall|k: int| 0 <= k < s.len() implies #[trigger] parsed_axes(label_axes(s))[k] == s[k] by {
        lemma_axis_read(s[k].0);
    }
    assert(parsed_axes(label_axes(s)) =~= s);
}

proof fn lemma_modes_read()
    ensures
        forall|m: CoolantMode| #[trigger] coolant_named(coolant_text(m)) == m,
        forall|m: AirAssistMode| #[trigger] air_named(air_text(m)) == m,
        forall|m: HeadCoolantMode| #[trigger] head_coolant_named(head_coolant_text(m)) == m,
{
    reveal_strlit("Off");
    reveal_strlit("On");
    reveal_strlit("Mist");
    reveal_strlit("Flood");
    assert("Off"@.len() == 3 && "On"@.len() == 2 && "Mist"@.len() == 4 && "Flood"@.len() == 5);
}

/// What `to_record` writes, `from_record` reads back: the record of a
/// representable node is readable, is no refused section marker, and
/// describes only nodes that agree with the node it was written from.
#[verifier::rlimit(40)]
pub proof fn lemma_record_round_trip(n: OpNodeView, m: OpNodeView)
    requires
        representable(n),
    ensures
        record_error(expected_record(n)) is None,
        !record_section_mismatch(expected_record(n)),
        record_node(m, expected_record(n)) ==> same_node(m, n),
{
    let r = expected_record(n);
    let ct = node_command_type(n);
    lemma_type_name_read(ct);
    lemma_modes_read();
    assert(r.kind == Some(command_type_name(ct)));
    match n.extra_axes {
        Some(s) => lemma_labels_read(s),
        None => {},
    }
    match n.category {
        OpCategoryView::Marker(MarkerCmd::OpsSectionStart { section_type, workpiece_uid, raster_mode }) => {
            lemma_section_read(section_type);
            lemma_raster_read(raster_mode);
        },
        OpCategoryView::Marker(MarkerCmd::OpsSectionEnd { section_type, workpiece_uid, raster_mode }) => {
            lemma_section_read(section_type);
            lemma_raster_read(raster_mode);
        },
        _ => {},
    }
}

/// The records of a node sequence, in order.
pub open spec fn records_of(s: Seq<OpNodeView>) -> Seq<RecordView> {
    s.map_values(|n: OpNodeView| expected_record(n))
}

/// The views of a sequence of records.
pub open spec fn record_views(s: Seq<CommandRecord>) -> Seq<RecordView> {
    s.map_values(|r: CommandRecord| r@)
}

/// Every record before position `i` can be read.
pub open spec fn readable_before(records: Seq<RecordView>, i: int) -> bool {
    forall|j: int| 0 <= j < i ==> record_error(#[trigger] records[j]) is None
}

/// A sequence written out as records: the record of every command, in
/// order, and the point that the sequence's last move went to.
pub fn ops_to_records(ops: &Ops) -> (r: (Vec<CommandRecord>, Point3D))
    ensures
        record_views(r.0@) == records_of(ops@),
        r.1 == ops.last_move_to,
{
    let mut v: Vec<CommandRecord> = Vec::new();
    let mut i: usize = 0;
    while i < ops.commands.len()
        invariant
            i <= ops@.len(),
            ops@.len() == ops.commands@.len(),
            record_views(v@) == records_of(ops@).take(i as int),
        decreases ops.commands.len() - i,
    {
        let rec = to_record(&ops.commands[i]);
        let ghost prev = v@;
        proof {
            assert(ops@[i as int] == ops.commands@[i as int]@);
            assert(records_of(ops@)[i as int] == rec@);
        }
        v.push(rec);
        proof {
            assert(v@ == prev.push(rec));
            assert(record_views(v@) =~= record_views(prev).push(rec@));
        }
        i = i + 1;
        assert(record_views(v@) =~= records_of(ops@).take(i as int));
    }
    assert(records_of(ops@).take(i as int) =~= records_of(ops@));
    (v, ops.last_move_to)
}

/// A sequence read back from records, whose last move went to
/// `last_move_to`. The records are read in order; the first that cannot be
/// read ends the reading with its error (see `record_error`). A readable
/// section marker whose section type and raster mode do not go together,
/// reached with every record before it readable, is not accepted.
pub fn ops_from_records(records: &Vec<CommandRecord>, last_move_to: Point3D) -> (r: Result<Ops, RecordError>)
    requires
        forall|i: int|
            0 <= i < records@.len() && readable_before(record_views(records@), i) ==> !record_section_mismatch(
                #[trigger] records@[i]@,
            ),
    ensures
        match r {
            Ok(o) => {
                &&& o.last_move_to == last_move_to
                &&& o@.len() == records@.len()
                &&& readable_before(record_views(records@), records@.len() as int)
                &&& forall|i: int| 0 <= i < records@.len() ==> record_node(#[trigger] o@[i], records@[i]@)
            },
            Err(e) => exists|k: int|
                0 <= k < records@.len() && readable_before(record_views(records@), k) && #[trigger] record_error(
                    records@[k]@,
                ) == Some(error_view(e)),
        },
{
    let ghost views = record_views(records@);
    let mut ops = Ops::new();
    let mut i: usize = 0;
    while i < records.len()
        invariant
            i <= records@.len(),
            views == record_views(records@),
            ops@.len() == i,
            readable_before(views, i as int),
            forall|k: int| 0 <= k < i ==> record_node(#[trigger] ops@[k], records@[k]@),
            forall|k: int|
                0 <= k < records@.len() && readable_before(views, k) ==> !record_section_mismatch(
                    #[trigger] records@[k]@,
                ),
        decreases records@.len() - i,
    {
        assert(views[i as int] == records@[i as int]@);
        match from_record(&records[i]) {
            Ok(node) => {
                let ghost before = ops@;
                ops.push(node);
                proof {
                    assert forall|k: int| 0 <= k < i + 1 implies record_node(#[trigger] ops@[k], records@[k]@) by {
                        if k < i {
                            assert(ops@[k] == before[k]);
                        }
                    }
                    assert forall|j: int| 0 <= j < i + 1 implies record_error(#[trigger] views[j]) is None by {
                        if j == i {
                            assert(views[j] == records@[j]@);
                        }
                    }
                }
                i = i + 1;
            },
            Err(e) => {
                assert(record_error(records@[i as int]@) == Some(error_view(e)));
                return Err(e);
            },
        }
    }
    ops.last_move_to = last_move_to;
    Ok(ops)
}

/// Writing a sequence of representable commands out as records and
/// reading them back gives the sequence again: every record can be read,
/// none is a refused section marker (so the reading succeeds), and any
/// sequence read from the records agrees with the written one command by
/// command.
pub proof fn lemma_records_round_trip(s: Seq<OpNodeView>, m: Seq<OpNodeView>)
    requires
        forall|i: int| 0 <= i < s.len() ==> representable(#[trigger] s[i]),
    ensures
        readable_before(records_of(s), s.len() as int),
        forall|i: int| 0 <= i < s.len() ==> !record_section_mismatch(#[trigger] records_of(s)[i]),
        m.len() == s.len() && (forall|i: int| 0 <= i < s.len() ==> record_node(#[trigger] m[i], records_of(s)[i]))
            ==> forall|i: int| 0 <= i < s.len() ==> same_node(#[trigger] m[i], s[i]),
{
    let r = records_of(s);
    assert forall|i: int| 0 <= i < s.len() implies record_error(#[trigger] r[i]) is None
        && !record_section_mismatch(r[i]) && (record_node(m[i], r[i]) ==> same_node(m[i], s[i])) by {
        lemma_record_round_trip(s[i], m[i]);
    }
    assert forall|j: int| 0 <= j < s.len() implies record_error(#[trigger] r[j]) is None by {
        lemma_record_round_trip(s[j], m[j]);
    }
    if m.len() == s.len() && (forall|i: int| 0 <= i < s.len() ==> record_node(#[trigger] m[i], r[i])) {
        assert forall|i: int| 0 <= i < s.len() implies same_node(#[trigger] m[i], s[i]) by {
            lemma_record_round_trip(s[i], m[i]);
        }
    }
}

} // verus!
