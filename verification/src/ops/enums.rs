//! Command, section and raster-mode enumerations with their wire names
//! and numeric codes.
use vstd::prelude::*;

use crate::text::str_equals;

verus! {

/// The kind of one command in an operation sequence.
#[derive(Clone, Copy, Debug, PartialEq, Eq, Structural)]
pub enum CommandType {
    MoveTo,
    LineTo,
    ArcTo,
    ScanLine,
    Dwell,
    BezierTo,
    QuadraticBezierTo,
    SetPower,
    SetFeedRate,
    SetRapidRate,
    SetHead,
    SetFrequency,
    SetPulseWidth,
    SetSpindleRpm,
    SetCoolant,
    SetAirAssist,
    SetHeadCoolant,
    JobStart,
    JobEnd,
    LayerStart,
    LayerEnd,
    WorkpieceStart,
    WorkpieceEnd,
    OpsSectionStart,
    OpsSectionEnd,
    StateBlockStart,
    StateBlockEnd,
    ProcessStart,
    ProcessEnd,
}

/// The numeric code of a command type (its `u8` wire value).
pub open spec fn command_type_code(ct: CommandType) -> u8 {
    match ct {
        CommandType::MoveTo => 1u8,
        CommandType::LineTo => 2u8,
        CommandType::ArcTo => 3u8,
        CommandType::ScanLine => 4u8,
        CommandType::Dwell => 5u8,
        CommandType::BezierTo => 6u8,
        CommandType::QuadraticBezierTo => 7u8,
        CommandType::SetPower => 10u8,
        CommandType::SetFeedRate => 11u8,
        CommandType::SetRapidRate => 12u8,
        CommandType::SetHead => 15u8,
        CommandType::SetFrequency => 16u8,
        CommandType::SetPulseWidth => 17u8,
        CommandType::SetSpindleRpm => 18u8,
        CommandType::SetCoolant => 20u8,
        CommandType::SetAirAssist => 21u8,
        CommandType::SetHeadCoolant => 22u8,
        CommandType::JobStart => 100u8,
        CommandType::JobEnd => 101u8,
        CommandType::LayerStart => 102u8,
        CommandType::LayerEnd => 103u8,
        CommandType::WorkpieceStart => 104u8,
        CommandType::WorkpieceEnd => 105u8,
        CommandType::OpsSectionStart => 106u8,
        CommandType::OpsSectionEnd => 107u8,
        CommandType::StateBlockStart => 108u8,
        CommandType::StateBlockEnd => 109u8,
        CommandType::ProcessStart => 110u8,
        CommandType::ProcessEnd => 111u8,
    }
}

/// The upper-case wire name of a command type.
pub open spec fn command_type_name(ct: CommandType) -> Seq<char> {
    match ct {
        CommandType::MoveTo => "MOVE_TO"@,
        CommandType::LineTo => "LINE_TO"@,
        CommandType::ArcTo => "ARC_TO"@,
        CommandType::ScanLine => "SCAN_LINE"@,
        CommandType::Dwell => "DWELL"@,
        CommandType::BezierTo => "BEZIER_TO"@,
        CommandType::QuadraticBezierTo => "QUADRATIC_BEZIER_TO"@,
        CommandType::SetPower => "SET_POWER"@,
        CommandType::SetFeedRate => "SET_FEED_RATE"@,
        CommandType::SetRapidRate => "SET_RAPID_RATE"@,
        CommandType::SetHead => "SET_HEAD"@,
        CommandType::SetFrequency => "SET_FREQUENCY"@,
        CommandType::SetPulseWidth => "SET_PULSE_WIDTH"@,
        CommandType::SetSpindleRpm => "SET_SPINDLE_RPM"@,
        CommandType::SetCoolant => "SET_COOLANT"@,
        CommandType::SetAirAssist => "SET_AIR_ASSIST"@,
        CommandType::SetHeadCoolant => "SET_HEAD_COOLANT"@,
        CommandType::JobStart => "JOB_START"@,
        CommandType::JobEnd => "JOB_END"@,
        CommandType::LayerStart => "LAYER_START"@,
        CommandType::LayerEnd => "LAYER_END"@,
        CommandType::WorkpieceStart => "WORKPIECE_START"@,
        CommandType::WorkpieceEnd => "WORKPIECE_END"@,
        CommandType::OpsSectionStart => "OPS_SECTION_START"@,
        CommandType::OpsSectionEnd => "OPS_SECTION_END"@,
        CommandType::StateBlockStart => "STATE_BLOCK_START"@,
        CommandType::StateBlockEnd => "STATE_BLOCK_END"@,
        CommandType::ProcessStart => "PROCESS_START"@,
        CommandType::ProcessEnd => "PROCESS_END"@,
    }
}

/// The category a command type belongs to.
pub open spec fn command_type_category(ct: CommandType) -> CommandCategory {
    match ct {
        CommandType::MoveTo => CommandCategory::Moving,
        CommandType::LineTo => CommandCategory::Moving,
        CommandType::ArcTo => CommandCategory::Moving,
        CommandType::ScanLine => CommandCategory::Moving,
        CommandType::Dwell => CommandCategory::State,
        CommandType::BezierTo => CommandCategory::Moving,
        CommandType::QuadraticBezierTo => CommandCategory::Moving,
        CommandType::SetPower => CommandCategory::State,
        CommandType::SetFeedRate => CommandCategory::State,
        CommandType::SetRapidRate => CommandCategory::State,
        CommandType::SetHead => CommandCategory::State,
        CommandType::SetFrequency => CommandCategory::State,
        CommandType::SetPulseWidth => CommandCategory::State,
        CommandType::SetSpindleRpm => CommandCategory::State,
        CommandType::SetCoolant => CommandCategory::State,
        CommandType::SetAirAssist => CommandCategory::State,
        CommandType::SetHeadCoolant => CommandCategory::State,
        CommandType::JobStart => CommandCategory::Marker,
        CommandType::JobEnd => CommandCategory::Marker,
        CommandType::LayerStart => CommandCategory::Marker,
        CommandType::LayerEnd => CommandCategory::Marker,
        CommandType::WorkpieceStart => CommandCategory::Marker,
        CommandType::WorkpieceEnd => CommandCategory::Marker,
        CommandType::OpsSectionStart => CommandCategory::Marker,
        CommandType::OpsSectionEnd => CommandCategory::Marker,
        CommandType::StateBlockStart => CommandCategory::Marker,
        CommandType::StateBlockEnd => CommandCategory::Marker,
        CommandType::ProcessStart => CommandCategory::Marker,
        CommandType::ProcessEnd => CommandCategory::Marker,
    }
}

/// The command type whose numeric code is `v`, if any.
pub open spec fn command_type_from_code(v: u8) -> Option<CommandType> {
    if v == 1u8 {
        Some(CommandType::MoveTo)
    } else if v == 2u8 {
        Some(CommandType::LineTo)
    } else if v == 3u8 {
        Some(CommandType::ArcTo)
    } else if v == 4u8 {
        Some(CommandType::ScanLine)
    } else if v == 5u8 {
        Some(CommandType::Dwell)
    } else if v == 6u8 {
        Some(CommandType::BezierTo)
    } else if v == 7u8 {
        Some(CommandType::QuadraticBezierTo)
    } else if v == 10u8 {
        Some(CommandType::SetPower)
    } else if v == 11u8 {
        Some(CommandType::SetFeedRate)
    } else if v == 12u8 {
        Some(CommandType::SetRapidRate)
    } else if v == 15u8 {
        Some(CommandType::SetHead)
    } else if v == 16u8 {
        Some(CommandType::SetFrequency)
    } else if v == 17u8 {
        Some(CommandType::SetPulseWidth)
    } else if v == 18u8 {
        Some(CommandType::SetSpindleRpm)
    } else if v == 20u8 {
        Some(CommandType::SetCoolant)
    } else if v == 21u8 {
        Some(CommandType::SetAirAssist)
    } else if v == 22u8 {
        Some(CommandType::SetHeadCoolant)
    } else if v == 100u8 {
        Some(CommandType::JobStart)
    } else if v == 101u8 {
        Some(CommandType::JobEnd)
    } else if v == 102u8 {
        Some(CommandType::LayerStart)
    } else if v == 103u8 {
        Some(CommandType::LayerEnd)
    } else if v == 104u8 {
        Some(CommandType::WorkpieceStart)
    } else if v == 105u8 {
        Some(CommandType::WorkpieceEnd)
    } else if v == 106u8 {
        Some(CommandType::OpsSectionStart)
    } else if v == 107u8 {
        Some(CommandType::OpsSectionEnd)
    } else if v == 108u8 {
        Some(CommandType::StateBlockStart)
    } else if v == 109u8 {
        Some(CommandType::StateBlockEnd)
    } else if v == 110u8 {
        Some(CommandType::ProcessStart)
    } else if v == 111u8 {
        Some(CommandType::ProcessEnd)
    } else {
        None
    }
}

impl CommandType {
    /// Parse a command type from its upper-case wire name (`"MOVE_TO"`,
    /// `"DWELL"`, ...). Matching is case-sensitive.
    pub fn from_name(s: &str) -> (r: Option<CommandType>)
        ensures
            match r {
                Some(ct) => command_type_name(ct) == s@,
                None => forall|ct: CommandType| command_type_name(ct) != s@,
            },
    {
        if str_equals(s, "MOVE_TO") {
            return Some(CommandType::MoveTo);
        }
        if str_equals(s, "LINE_TO") {
            return Some(CommandType::LineTo);
        }
        if str_equals(s, "ARC_TO") {
            return Some(CommandType::ArcTo);
        }
        if str_equals(s, "SCAN_LINE") {
            return Some(CommandType::ScanLine);
        }
        if str_equals(s, "DWELL") {
            return Some(CommandType::Dwell);
        }
        if str_equals(s, "BEZIER_TO") {
            return Some(CommandType::BezierTo);
        }
        if str_equals(s, "QUADRATIC_BEZIER_TO") {
            return Some(CommandType::QuadraticBezierTo);
        }
        if str_equals(s, "SET_POWER") {
            return Some(CommandType::SetPower);
        }
        if str_equals(s, "SET_FEED_RATE") {
            return Some(CommandType::SetFeedRate);
        }
        if str_equals(s, "SET_RAPID_RATE") {
            return Some(CommandType::SetRapidRate);
        }
        if str_equals(s, "SET_HEAD") {
            return Some(CommandType::SetHead);
        }
        if str_equals(s, "SET_FREQUENCY") {
            return Some(CommandType::SetFrequency);
        }
        if str_equals(s, "SET_PULSE_WIDTH") {
            return Some(CommandType::SetPulseWidth);
        }
        if str_equals(s, "SET_SPINDLE_RPM") {
            return Some(CommandType::SetSpindleRpm);
        }
        if str_equals(s, "SET_COOLANT") {
            return Some(CommandType::SetCoolant);
        }
        if str_equals(s, "SET_AIR_ASSIST") {
            return Some(CommandType::SetAirAssist);
        }
        if str_equals(s, "SET_HEAD_COOLANT") {
            return Some(CommandType::SetHeadCoolant);
        }
        if str_equals(s, "JOB_START") {
            return Some(CommandType::JobStart);
        }
        if str_equals(s, "JOB_END") {
            return Some(CommandType::JobEnd);
        }
        if str_equals(s, "LAYER_START") {
            return Some(CommandType::LayerStart);
        }
        if str_equals(s, "LAYER_END") {
            return Some(CommandType::LayerEnd);
        }
        if str_equals(s, "WORKPIECE_START") {
            return Some(CommandType::WorkpieceStart);
        }
        if str_equals(s, "WORKPIECE_END") {
            return Some(CommandType::WorkpieceEnd);
        }
        if str_equals(s, "OPS_SECTION_START") {
            return Some(CommandType::OpsSectionStart);
        }
        if str_equals(s, "OPS_SECTION_END") {
            return Some(CommandType::OpsSectionEnd);
        }
        if str_equals(s, "STATE_BLOCK_START") {
            return Some(CommandType::StateBlockStart);
        }
        if str_equals(s, "STATE_BLOCK_END") {
            return Some(CommandType::StateBlockEnd);
        }
        if str_equals(s, "PROCESS_START") {
            return Some(CommandType::ProcessStart);
        }
        if str_equals(s, "PROCESS_END") {
            return Some(CommandType::ProcessEnd);
        }
        None
    }

    /// The upper-case wire name of this command type.
    pub fn name(&self) -> (r: &'static str)
        ensures
            r@ == command_type_name(*self),
    {
        match self {
            CommandType::MoveTo => "MOVE_TO",
            CommandType::LineTo => "LINE_TO",
            CommandType::ArcTo => "ARC_TO",
            CommandType::ScanLine => "SCAN_LINE",
            CommandType::Dwell => "DWELL",
            CommandType::BezierTo => "BEZIER_TO",
            CommandType::QuadraticBezierTo => "QUADRATIC_BEZIER_TO",
            CommandType::SetPower => "SET_POWER",
            CommandType::SetFeedRate => "SET_FEED_RATE",
            CommandType::SetRapidRate => "SET_RAPID_RATE",
            CommandType::SetHead => "SET_HEAD",
            CommandType::SetFrequency => "SET_FREQUENCY",
            CommandType::SetPulseWidth => "SET_PULSE_WIDTH",
            CommandType::SetSpindleRpm => "SET_SPINDLE_RPM",
            CommandType::SetCoolant => "SET_COOLANT",
            CommandType::SetAirAssist => "SET_AIR_ASSIST",
            CommandType::SetHeadCoolant => "SET_HEAD_COOLANT",
            CommandType::JobStart => "JOB_START",
            CommandType::JobEnd => "JOB_END",
            CommandType::LayerStart => "LAYER_START",
            CommandType::LayerEnd => "LAYER_END",
            CommandType::WorkpieceStart => "WORKPIECE_START",
            CommandType::WorkpieceEnd => "WORKPIECE_END",
            CommandType::OpsSectionStart => "OPS_SECTION_START",
            CommandType::OpsSectionEnd => "OPS_SECTION_END",
            CommandType::StateBlockStart => "STATE_BLOCK_START",
            CommandType::StateBlockEnd => "STATE_BLOCK_END",
            CommandType::ProcessStart => "PROCESS_START",
            CommandType::ProcessEnd => "PROCESS_END",
        }
    }

    /// The numeric wire code of this command type.
    pub fn value(&self) -> (r: u8)
        ensures
            r == command_type_code(*self),
    {
        match self {
            CommandType::MoveTo => 1,
            CommandType::LineTo => 2,
            CommandType::ArcTo => 3,
            CommandType::ScanLine => 4,
            CommandType::Dwell => 5,
            CommandType::BezierTo => 6,
            CommandType::QuadraticBezierTo => 7,
            CommandType::SetPower => 10,
            CommandType::SetFeedRate => 11,
            CommandType::SetRapidRate => 12,
            CommandType::SetHead => 15,
            CommandType::SetFrequency => 16,
            CommandType::SetPulseWidth => 17,
            CommandType::SetSpindleRpm => 18,
            CommandType::SetCoolant => 20,
            CommandType::SetAirAssist => 21,
            CommandType::SetHeadCoolant => 22,
            CommandType::JobStart => 100,
            CommandType::JobEnd => 101,
            CommandType::LayerStart => 102,
            CommandType::LayerEnd => 103,
            CommandType::WorkpieceStart => 104,
            CommandType::WorkpieceEnd => 105,
            CommandType::OpsSectionStart => 106,
            CommandType::OpsSectionEnd => 107,
            CommandType::StateBlockStart => 108,
            CommandType::StateBlockEnd => 109,
            CommandType::ProcessStart => 110,
            CommandType::ProcessEnd => 111,
        }
    }

    /// The command type with numeric code `v`; `None` for a code that
    /// names no command type.
    pub fn from_value(v: u8) -> (r: Option<CommandType>)
        ensures
            r == command_type_from_code(v),
            match r {
                Some(ct) => command_type_code(ct) == v,
                None => forall|ct: CommandType| command_type_code(ct) != v,
            },
    {
        match v {
            1 => Some(CommandType::MoveTo),
            2 => Some(CommandType::LineTo),
            3 => Some(CommandType::ArcTo),
            4 => Some(CommandType::ScanLine),
            5 => Some(CommandType::Dwell),
            6 => Some(CommandType::BezierTo),
            7 => Some(CommandType::QuadraticBezierTo),
            10 => Some(CommandType::SetPower),
            11 => Some(CommandType::SetFeedRate),
            12 => Some(CommandType::SetRapidRate),
            15 => Some(CommandType::SetHead),
            16 => Some(CommandType::SetFrequency),
            17 => Some(CommandType::SetPulseWidth),
            18 => Some(CommandType::SetSpindleRpm),
            20 => Some(CommandType::SetCoolant),
            21 => Some(CommandType::SetAirAssist),
            22 => Some(CommandType::SetHeadCoolant),
            100 => Some(CommandType::JobStart),
            101 => Some(CommandType::JobEnd),
            102 => Some(CommandType::LayerStart),
            103 => Some(CommandType::LayerEnd),
            104 => Some(CommandType::WorkpieceStart),
            105 => Some(CommandType::WorkpieceEnd),
            106 => Some(CommandType::OpsSectionStart),
            107 => Some(CommandType::OpsSectionEnd),
            108 => Some(CommandType::StateBlockStart),
            109 => Some(CommandType::StateBlockEnd),
            110 => Some(CommandType::ProcessStart),
            111 => Some(CommandType::ProcessEnd),
            _ => None,
        }
    }

    /// The category (moving, state or marker) of this command type.
    pub fn category(&self) -> (r: CommandCategory)
        ensures
            r == command_type_category(*self),
    {
        match self {
            CommandType::MoveTo
            | CommandType::LineTo
            | CommandType::ArcTo
            | CommandType::BezierTo
            | CommandType::QuadraticBezierTo
            | CommandType::ScanLine => CommandCategory::Moving,
            CommandType::Dwell
            | CommandType::SetPower
            | CommandType::SetFeedRate
            | CommandType::SetRapidRate
            | CommandType::SetFrequency
            | CommandType::SetPulseWidth
            | CommandType::SetHead
            | CommandType::SetSpindleRpm
            | CommandType::SetCoolant
            | CommandType::SetAirAssist
            | CommandType::SetHeadCoolant => CommandCategory::State,
            CommandType::JobStart
            | CommandType::JobEnd
            | CommandType::LayerStart
            | CommandType::LayerEnd
            | CommandType::WorkpieceStart
            | CommandType::WorkpieceEnd
            | CommandType::OpsSectionStart
            | CommandType::OpsSectionEnd
            | CommandType::StateBlockStart
            | CommandType::StateBlockEnd
            | CommandType::ProcessStart
            | CommandType::ProcessEnd => CommandCategory::Marker,
        }
    }
}

/// The broad category of a command.
#[derive(Clone, Copy, Debug, PartialEq, Eq, Structural)]
pub enum CommandCategory {
    Moving,
    State,
    Marker,
}

/// The upper-case name of a command category.
pub open spec fn command_category_name(c: CommandCategory) -> Seq<char> {
    match c {
        CommandCategory::Moving => "MOVING"@,
        CommandCategory::State => "STATE"@,
        CommandCategory::Marker => "MARKER"@,
    }
}

impl CommandCategory {
    /// The upper-case name of this category.
    pub fn name(&self) -> (r: &'static str)
        ensures
            r@ == command_category_name(*self),
    {
        match self {
            CommandCategory::Moving => "MOVING",
            CommandCategory::State => "STATE",
            CommandCategory::Marker => "MARKER",
        }
    }
}

/// The kind of an ops section.
#[derive(Clone, Copy, Debug, PartialEq, Eq, Structural)]
pub enum SectionType {
    VectorOutline,
    RasterFill,
}

/// The upper-case wire name of a section type.
pub open spec fn section_type_name(t: SectionType) -> Seq<char> {
    match t {
        SectionType::VectorOutline => "VECTOR_OUTLINE"@,
        SectionType::RasterFill => "RASTER_FILL"@,
    }
}

impl SectionType {
    /// The upper-case wire name of this section type.
    pub fn name(&self) -> (r: &'static str)
        ensures
            r@ == section_type_name(*self),
    {
        match self {
            SectionType::VectorOutline => "VECTOR_OUTLINE",
            SectionType::RasterFill => "RASTER_FILL",
        }
    }

    /// Parse a section type from its upper-case wire name.
    pub fn from_name(s: &str) -> (r: Option<SectionType>)
        ensures
            match r {
                Some(t) => section_type_name(t) == s@,
                None => forall|t: SectionType| section_type_name(t) != s@,
            },
    {
        if str_equals(s, "VECTOR_OUTLINE") {
            return Some(SectionType::VectorOutline);
        }
        if str_equals(s, "RASTER_FILL") {
            return Some(SectionType::RasterFill);
        }
        None
    }
}

/// How a raster section modulates the laser.
#[derive(Clone, Copy, Debug, PartialEq, Eq, Structural)]
pub enum RasterMode {
    VariablePower,
    ConstantPower,
    DepthMap,
}

/// The upper-case wire name of a raster mode.
pub open spec fn raster_mode_name(m: RasterMode) -> Seq<char> {
    match m {
        RasterMode::VariablePower => "VARIABLE_POWER"@,
        RasterMode::ConstantPower => "CONSTANT_POWER"@,
        RasterMode::DepthMap => "DEPTH_MAP"@,
    }
}

/// The numeric code of a raster mode.
pub open spec fn raster_mode_code(m: RasterMode) -> u8 {
    match m {
        RasterMode::VariablePower => 1u8,
        RasterMode::ConstantPower => 2u8,
        RasterMode::DepthMap => 3u8,
    }
}

impl RasterMode {
    /// The upper-case wire name of this raster mode.
    pub fn name(&self) -> (r: &'static str)
        ensures
            r@ == raster_mode_name(*self),
    {
        match self {
            RasterMode::VariablePower => "VARIABLE_POWER",
            RasterMode::ConstantPower => "CONSTANT_POWER",
            RasterMode::DepthMap => "DEPTH_MAP",
        }
    }

    /// The numeric code of this raster mode.
    pub fn value(&self) -> (r: u8)
        ensures
            r == raster_mode_code(*self),
    {
        match self {
            RasterMode::VariablePower => 1,
            RasterMode::ConstantPower => 2,
            RasterMode::DepthMap => 3,
        }
    }

    /// Parse a raster mode from its upper-case wire name.
    pub fn from_name(s: &str) -> (r: Option<RasterMode>)
        ensures
            match r {
                Some(m) => raster_mode_name(m) == s@,
                None => forall|m: RasterMode| raster_mode_name(m) != s@,
            },
    {
        if str_equals(s, "VARIABLE_POWER") {
            return Some(RasterMode::VariablePower);
        }
        if str_equals(s, "CONSTANT_POWER") {
            return Some(RasterMode::ConstantPower);
        }
        if str_equals(s, "DEPTH_MAP") {
            return Some(RasterMode::DepthMap);
        }
        None
    }
}

/// Length and two characters of a name; together they tell the wire
/// names of the command types apart.
spec fn name_signature(s: Seq<char>) -> (int, char, char) {
    (s.len() as int, s[0], if s.len() > 5 { s[5] } else { ' ' })
}

spec fn command_type_signature(ct: CommandType) -> (int, char, char) {
    match ct {
        CommandType::MoveTo => (7, 'M', 'T'),
        CommandType::LineTo => (7, 'L', 'T'),
        CommandType::ArcTo => (6, 'A', 'O'),
        CommandType::ScanLine => (9, 'S', 'L'),
        CommandType::Dwell => (5, 'D', ' '),
        CommandType::BezierTo => (9, 'B', 'R'),
        CommandType::QuadraticBezierTo => (19, 'Q', 'A'),
        CommandType::SetPower => (9, 'S', 'O'),
        CommandType::SetFeedRate => (13, 'S', 'E'),
        CommandType::SetRapidRate => (14, 'S', 'A'),
        CommandType::SetHead => (8, 'S', 'E'),
        CommandType::SetFrequency => (13, 'S', 'R'),
        CommandType::SetPulseWidth => (15, 'S', 'U'),
        CommandType::SetSpindleRpm => (15, 'S', 'P'),
        CommandType::SetCoolant => (11, 'S', 'O'),
        CommandType::SetAirAssist => (14, 'S', 'I'),
        CommandType::SetHeadCoolant => (16, 'S', 'E'),
        CommandType::JobStart => (9, 'J', 'T'),
        CommandType::JobEnd => (7, 'J', 'N'),
        CommandType::LayerStart => (11, 'L', '_'),
        CommandType::LayerEnd => (9, 'L', '_'),
        CommandType::WorkpieceStart => (15, 'W', 'I'),
        CommandType::WorkpieceEnd => (13, 'W', 'I'),
        CommandType::OpsSectionStart => (17, 'O', 'E'),
        CommandType::OpsSectionEnd => (15, 'O', 'E'),
        CommandType::StateBlockStart => (17, 'S', '_'),
        CommandType::StateBlockEnd => (15, 'S', '_'),
        CommandType::ProcessStart => (13, 'P', 'S'),
        CommandType::ProcessEnd => (11, 'P', 'S'),
    }
}

proof fn lemma_command_type_name_signature(ct: CommandType)
    ensures
        name_signature(command_type_name(ct)) == command_type_signature(ct),
{
    match ct {
            CommandType::MoveTo => {
                reveal_strlit("MOVE_TO");
            }
            CommandType::LineTo => {
                reveal_strlit("LINE_TO");
            }
            CommandType::ArcTo => {
                reveal_strlit("ARC_TO");
            }
            CommandType::ScanLine => {
                reveal_strlit("SCAN_LINE");
            }
            CommandType::Dwell => {
                reveal_strlit("DWELL");
            }
            CommandType::BezierTo => {
                reveal_strlit("BEZIER_TO");
            }
            CommandType::QuadraticBezierTo => {
                reveal_strlit("QUADRATIC_BEZIER_TO");
            }
            CommandType::SetPower => {
                reveal_strlit("SET_POWER");
            }
            CommandType::SetFeedRate => {
                reveal_strlit("SET_FEED_RATE");
            }
            CommandType::SetRapidRate => {
                reveal_strlit("SET_RAPID_RATE");
            }
            CommandType::SetHead => {
                reveal_strlit("SET_HEAD");
            }
            CommandType::SetFrequency => {
                reveal_strlit("SET_FREQUENCY");
            }
            CommandType::SetPulseWidth => {
                reveal_strlit("SET_PULSE_WIDTH");
            }
            CommandType::SetSpindleRpm => {
                reveal_strlit("SET_SPINDLE_RPM");
            }
            CommandType::SetCoolant => {
                reveal_strlit("SET_COOLANT");
            }
            CommandType::SetAirAssist => {
                reveal_strlit("SET_AIR_ASSIST");
            }
            CommandType::SetHeadCoolant => {
                reveal_strlit("SET_HEAD_COOLANT");
            }
            CommandType::JobStart => {
                reveal_strlit("JOB_START");
            }
            CommandType::JobEnd => {
                reveal_strlit("JOB_END");
            }
            CommandType::LayerStart => {
                reveal_strlit("LAYER_START");
            }
            CommandType::LayerEnd => {
                reveal_strlit("LAYER_END");
            }
            CommandType::WorkpieceStart => {
                reveal_strlit("WORKPIECE_START");
            }
            CommandType::WorkpieceEnd => {
                reveal_strlit("WORKPIECE_END");
            }
            CommandType::OpsSectionStart => {
                reveal_strlit("OPS_SECTION_START");
            }
            CommandType::OpsSectionEnd => {
                reveal_strlit("OPS_SECTION_END");
            }
            CommandType::StateBlockStart => {
                reveal_strlit("STATE_BLOCK_START");
            }
            CommandType::StateBlockEnd => {
                reveal_strlit("STATE_BLOCK_END");
            }
            CommandType::ProcessStart => {
                reveal_strlit("PROCESS_START");
            }
            CommandType::ProcessEnd => {
                reveal_strlit("PROCESS_END");
            }
    }
}

/// Distinct command types have distinct wire names, so a name parsed
/// back with `CommandType::from_name` yields the command type it came from.
pub proof fn lemma_command_type_name_injective(a: CommandType, b: CommandType)
    ensures
        command_type_name(a) == command_type_name(b) <==> a == b,
{
    lemma_command_type_name_signature(a);
    lemma_command_type_name_signature(b);
}

/// Distinct command types have distinct numeric codes, and every code
/// maps back to its command type.
pub proof fn lemma_command_type_code_roundtrip(ct: CommandType)
    ensures
        command_type_from_code(command_type_code(ct)) == Some(ct),
{
}

/// Distinct section types have distinct wire names.
pub proof fn lemma_section_type_name_injective(a: SectionType, b: SectionType)
    ensures
        section_type_name(a) == section_type_name(b) <==> a == b,
{
    reveal_strlit("VECTOR_OUTLINE");
    reveal_strlit("RASTER_FILL");
    assert("VECTOR_OUTLINE"@.len() == 14);
    assert("RASTER_FILL"@.len() == 11);
}

/// Distinct raster modes have distinct wire names.
pub proof fn lemma_raster_mode_name_injective(a: RasterMode, b: RasterMode)
    ensures
        raster_mode_name(a) == raster_mode_name(b) <==> a == b,
{
    reveal_strlit("VARIABLE_POWER");
    reveal_strlit("CONSTANT_POWER");
    reveal_strlit("DEPTH_MAP");
    assert("VARIABLE_POWER"@.len() == 14);
    assert("CONSTANT_POWER"@.len() == 14);
    assert("DEPTH_MAP"@.len() == 9);
    assert("VARIABLE_POWER"@[0] == 'V');
    assert("CONSTANT_POWER"@[0] == 'C');
}

} // verus!
