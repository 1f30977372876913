//! Shared instrument-facing types: index newtypes, selector enums with their
//! wire values, and motor-movement planning.
//!
//! Every selector enum exposes `wire()` (the value it takes on the wire, as a
//! spec function), an `as_*` method proved equal to it, and — where the
//! original wire tables reject unknown values — a `from_*` constructor whose
//! contract says exactly which values are accepted.

use vstd::prelude::*;

use crate::error::NanonisError;

verus! {

/// TCP channel index (0-23).
#[derive(Debug, Clone, Copy, PartialEq, Eq, Hash, Structural)]
pub struct ChannelIndex(pub u8);

impl ChannelIndex {
    /// A channel index, rejecting values above 23.
    pub fn new(index: u8) -> (r: Result<Self, String>)
        ensures
            match r {
                Ok(c) => index <= 23 && c.0 == index,
                Err(_) => index > 23,
            },
    {
        if index <= 23 {
            Ok(ChannelIndex(index))
        } else {
            Err("channel index out of range".to_string())
        }
    }

    /// A channel index taken as it is, without the range check.
    pub fn new_unchecked(index: u8) -> (r: Self)
        ensures
            r.0 == index,
    {
        ChannelIndex(index)
    }

    /// The raw index.
    pub fn get(self) -> (r: u8)
        ensures
            r == self.0,
    {
        self.0
    }
}

/// Signal slot index.
#[derive(Debug, Clone, Copy, PartialEq, Eq, Hash, Structural)]
pub struct SignalIndex(pub u8);

impl SignalIndex {
    /// A signal index.
    pub fn new(index: u8) -> (r: Self)
        ensures
            r.0 == index,
    {
        SignalIndex(index)
    }

    /// The raw index.
    pub fn get(self) -> (r: u8)
        ensures
            r == self.0,
    {
        self.0
    }
}

/// Oscilloscope instance index.
#[derive(Debug, Clone, Copy, PartialEq, Eq, Structural)]
pub struct OscilloscopeIndex(pub i32);

/// A number of coarse-motor steps.
#[derive(Debug, Clone, Copy, PartialEq, Eq, Structural)]
pub struct StepCount(pub u16);

/// A number of samples to acquire.
#[derive(Debug, Clone, Copy, PartialEq, Eq, Structural)]
pub struct SampleCount(pub i32);

impl SampleCount {
    /// A sample count.
    pub fn new(count: i32) -> (r: Self)
        ensures
            r.0 == count,
    {
        SampleCount(count)
    }
}

/// Oscilloscope timebase table index.
#[derive(Debug, Clone, Copy, PartialEq, Eq, Structural)]
pub struct TimebaseIndex(pub i32);

/// Which oscilloscope frame to fetch.
#[derive(Debug, Clone, Copy, PartialEq, Eq, Structural)]
pub enum DataToGet {
    Current,
    NextTrigger,
    Wait2Triggers,
}

#[derive(Debug, Clone, Copy, PartialEq, Eq, Structural)]
pub enum MotorDirection {
    XPlus,
    XMinus,
    YPlus,
    YMinus,
    ZPlus,
    ZMinus,
}

impl MotorDirection {
    /// The wire value of the selector.
    pub open spec fn wire(self) -> u32 {
        match self {
            MotorDirection::XPlus => 0,
            MotorDirection::XMinus => 1,
            MotorDirection::YPlus => 2,
            MotorDirection::YMinus => 3,
            MotorDirection::ZPlus => 4,
            MotorDirection::ZMinus => 5,
        }
    }

    /// The wire value of the selector.
    pub fn as_u32(self) -> (r: u32)
        ensures
            r == self.wire(),
    {
        match self {
            MotorDirection::XPlus => 0,
            MotorDirection::XMinus => 1,
            MotorDirection::YPlus => 2,
            MotorDirection::YMinus => 3,
            MotorDirection::ZPlus => 4,
            MotorDirection::ZMinus => 5,
        }
    }

    /// The selector a wire value names; out-of-range values are rejected.
    pub fn from_u32(value: u32) -> (r: Result<Self, NanonisError>)
        ensures
            match r {
                Ok(v) => v.wire() == value,
                Err(e) => value > 5 && e is InvalidInput,
            },
    {
        match value {
            0 => Ok(MotorDirection::XPlus),
            1 => Ok(MotorDirection::XMinus),
            2 => Ok(MotorDirection::YPlus),
            3 => Ok(MotorDirection::YMinus),
            4 => Ok(MotorDirection::ZPlus),
            5 => Ok(MotorDirection::ZMinus),
            _ => Err(NanonisError::InvalidInput("value names no MotorDirection variant".to_string())),
        }
    }
}

#[derive(Debug, Clone, Copy, PartialEq, Eq, Structural)]
pub enum MotorGroup {
    Group1,
    Group2,
    Group3,
    Group4,
    Group5,
    Group6,
}

impl MotorGroup {
    /// The wire value of the selector.
    pub open spec fn wire(self) -> u32 {
        match self {
            MotorGroup::Group1 => 0,
            MotorGroup::Group2 => 1,
            MotorGroup::Group3 => 2,
            MotorGroup::Group4 => 3,
            MotorGroup::Group5 => 4,
            MotorGroup::Group6 => 5,
        }
    }

    /// The wire value of the selector.
    pub fn as_u32(self) -> (r: u32)
        ensures
            r == self.wire(),
    {
        match self {
            MotorGroup::Group1 => 0,
            MotorGroup::Group2 => 1,
            MotorGroup::Group3 => 2,
            MotorGroup::Group4 => 3,
            MotorGroup::Group5 => 4,
            MotorGroup::Group6 => 5,
        }
    }

    /// The selector a wire value names; out-of-range values are rejected.
    pub fn from_u32(value: u32) -> (r: Result<Self, NanonisError>)
        ensures
            match r {
                Ok(v) => v.wire() == value,
                Err(e) => value > 5 && e is InvalidInput,
            },
    {
        match value {
            0 => Ok(MotorGroup::Group1),
            1 => Ok(MotorGroup::Group2),
            2 => Ok(MotorGroup::Group3),
            3 => Ok(MotorGroup::Group4),
            4 => Ok(MotorGroup::Group5),
            5 => Ok(MotorGroup::Group6),
            _ => Err(NanonisError::InvalidInput("value names no MotorGroup variant".to_string())),
        }
    }
}

#[derive(Debug, Clone, Copy, PartialEq, Eq, Structural)]
pub enum MotorAxis {
    All,
    X,
    Y,
    Z,
}

impl MotorAxis {
    /// The wire value of the selector.
    pub open spec fn wire(self) -> u16 {
        match self {
            MotorAxis::All => 0,
            MotorAxis::X => 1,
            MotorAxis::Y => 2,
            MotorAxis::Z => 3,
        }
    }

    /// The wire value of the selector.
    pub fn as_u16(self) -> (r: u16)
        ensures
            r == self.wire(),
    {
        match self {
            MotorAxis::All => 0,
            MotorAxis::X => 1,
            MotorAxis::Y => 2,
            MotorAxis::Z => 3,
        }
    }

    /// The selector a wire value names; out-of-range values fall back to
    /// `MotorAxis::All`.
    pub fn from_u16(value: u16) -> (r: Self)
        ensures
            value <= 3 ==> r.wire() == value,
    {
        match value {
            0 => MotorAxis::All,
            1 => MotorAxis::X,
            2 => MotorAxis::Y,
            3 => MotorAxis::Z,
            _ => MotorAxis::All,
        }
    }
}

#[derive(Debug, Clone, Copy, PartialEq, Eq, Structural)]
pub enum MovementMode {
    Relative,
    Absolute,
}

impl MovementMode {
    /// The wire value of the selector.
    pub open spec fn wire(self) -> u32 {
        match self {
            MovementMode::Relative => 0,
            MovementMode::Absolute => 1,
        }
    }

    /// The wire value of the selector.
    pub fn as_u32(self) -> (r: u32)
        ensures
            r == self.wire(),
    {
        match self {
            MovementMode::Relative => 0,
            MovementMode::Absolute => 1,
        }
    }

    /// The selector a wire value names; out-of-range values are rejected.
    pub fn from_u32(value: u32) -> (r: Result<Self, NanonisError>)
        ensures
            match r {
                Ok(v) => v.wire() == value,
                Err(e) => value > 1 && e is InvalidInput,
            },
    {
        match value {
            0 => Ok(MovementMode::Relative),
            1 => Ok(MovementMode::Absolute),
            _ => Err(NanonisError::InvalidInput("value names no MovementMode variant".to_string())),
        }
    }
}

#[derive(Debug, Clone, Copy, PartialEq, Eq, Structural)]
pub enum ScanAction {
    Start,
    Stop,
    Pause,
    Resume,
    Freeze,
    Unfreeze,
    GoToCenter,
}

impl ScanAction {
    /// The wire value of the selector.
    pub open spec fn wire(self) -> u16 {
        match self {
            ScanAction::Start => 0,
            ScanAction::Stop => 1,
            ScanAction::Pause => 2,
            ScanAction::Resume => 3,
            ScanAction::Freeze => 4,
            ScanAction::Unfreeze => 5,
            ScanAction::GoToCenter => 6,
        }
    }

    /// The wire value of the selector.
    pub fn as_u16(self) -> (r: u16)
        ensures
            r == self.wire(),
    {
        match self {
            ScanAction::Start => 0,
            ScanAction::Stop => 1,
            ScanAction::Pause => 2,
            ScanAction::Resume => 3,
            ScanAction::Freeze => 4,
            ScanAction::Unfreeze => 5,
            ScanAction::GoToCenter => 6,
        }
    }

    /// The selector a wire value names; out-of-range values are rejected.
    pub fn from_u16(value: u16) -> (r: Result<Self, NanonisError>)
        ensures
            match r {
                Ok(v) => v.wire() == value,
                Err(e) => value > 6 && e is InvalidInput,
            },
    {
        match value {
            0 => Ok(ScanAction::Start),
            1 => Ok(ScanAction::Stop),
            2 => Ok(ScanAction::Pause),
            3 => Ok(ScanAction::Resume),
            4 => Ok(ScanAction::Freeze),
            5 => Ok(ScanAction::Unfreeze),
            6 => Ok(ScanAction::GoToCenter),
            _ => Err(NanonisError::InvalidInput("value names no ScanAction variant".to_string())),
        }
    }
}

#[derive(Debug, Clone, Copy, PartialEq, Eq, Structural)]
pub enum ScanDirection {
    Down,
    Up,
}

impl ScanDirection {
    /// The wire value of the selector.
    pub open spec fn wire(self) -> u32 {
        match self {
            ScanDirection::Down => 0,
            ScanDirection::Up => 1,
        }
    }

    /// The wire value of the selector.
    pub fn as_u32(self) -> (r: u32)
        ensures
            r == self.wire(),
    {
        match self {
            ScanDirection::Down => 0,
            ScanDirection::Up => 1,
        }
    }

    /// The selector a wire value names; out-of-range values are rejected.
    pub fn from_u32(value: u32) -> (r: Result<Self, NanonisError>)
        ensures
            match r {
                Ok(v) => v.wire() == value,
                Err(e) => value > 1 && e is InvalidInput,
            },
    {
        match value {
            0 => Ok(ScanDirection::Down),
            1 => Ok(ScanDirection::Up),
            _ => Err(NanonisError::InvalidInput("value names no ScanDirection variant".to_string())),
        }
    }
}

#[derive(Debug, Clone, Copy, PartialEq, Eq, Structural)]
pub enum ZControllerHold {
    NoChange,
    Hold,
    Release,
}

impl ZControllerHold {
    /// The wire value of the selector.
    pub open spec fn wire(self) -> u16 {
        match self {
            ZControllerHold::NoChange => 0,
            ZControllerHold::Hold => 1,
            ZControllerHold::Release => 2,
        }
    }

    /// The wire value of the selector.
    pub fn as_u16(self) -> (r: u16)
        ensures
            r == self.wire(),
    {
        match self {
            ZControllerHold::NoChange => 0,
            ZControllerHold::Hold => 1,
            ZControllerHold::Release => 2,
        }
    }
}

#[derive(Debug, Clone, Copy, PartialEq, Eq, Structural)]
pub enum PulseMode {
    Keep,
    Relative,
    Absolute,
}

impl PulseMode {
    /// The wire value of the selector.
    pub open spec fn wire(self) -> u16 {
        match self {
            PulseMode::Keep => 0,
            PulseMode::Relative => 1,
            PulseMode::Absolute => 2,
        }
    }

    /// The wire value of the selector.
    pub fn as_u16(self) -> (r: u16)
        ensures
            r == self.wire(),
    {
        match self {
            PulseMode::Keep => 0,
            PulseMode::Relative => 1,
            PulseMode::Absolute => 2,
        }
    }
}

#[derive(Debug, Clone, Copy, PartialEq, Eq, Structural)]
pub enum TriggerMode {
    Immediate,
    Level,
    Digital,
}

impl TriggerMode {
    /// The wire value of the selector.
    pub open spec fn wire(self) -> u16 {
        match self {
            TriggerMode::Immediate => 0,
            TriggerMode::Level => 1,
            TriggerMode::Digital => 2,
        }
    }

    /// The wire value of the selector.
    pub fn as_u16(self) -> (r: u16)
        ensures
            r == self.wire(),
    {
        match self {
            TriggerMode::Immediate => 0,
            TriggerMode::Level => 1,
            TriggerMode::Digital => 2,
        }
    }

    /// The selector a wire value names; out-of-range values fall back to
    /// `TriggerMode::Immediate`.
    pub fn from_u16(value: u16) -> (r: Self)
        ensures
            value <= 2 ==> r.wire() == value,
    {
        match value {
            0 => TriggerMode::Immediate,
            1 => TriggerMode::Level,
            2 => TriggerMode::Digital,
            _ => TriggerMode::Immediate,
        }
    }
}

#[derive(Debug, Clone, Copy, PartialEq, Eq, Structural)]
pub enum TriggerSlope {
    Falling,
    Rising,
}

impl TriggerSlope {
    /// The wire value of the selector.
    pub open spec fn wire(self) -> u16 {
        match self {
            TriggerSlope::Falling => 0,
            TriggerSlope::Rising => 1,
        }
    }

    /// The wire value of the selector.
    pub fn as_u16(self) -> (r: u16)
        ensures
            r == self.wire(),
    {
        match self {
            TriggerSlope::Falling => 0,
            TriggerSlope::Rising => 1,
        }
    }

    /// The selector a wire value names; out-of-range values are rejected.
    pub fn from_u16(value: u16) -> (r: Result<Self, NanonisError>)
        ensures
            match r {
                Ok(v) => v.wire() == value,
                Err(e) => value > 1 && e is InvalidInput,
            },
    {
        match value {
            0 => Ok(TriggerSlope::Falling),
            1 => Ok(TriggerSlope::Rising),
            _ => Err(NanonisError::InvalidInput("value names no TriggerSlope variant".to_string())),
        }
    }
}

#[derive(Debug, Clone, Copy, PartialEq, Eq, Structural)]
pub enum OsciTriggerMode {
    Immediate,
    Level,
    Auto,
}

impl OsciTriggerMode {
    /// The wire value of the selector.
    pub open spec fn wire(self) -> u16 {
        match self {
            OsciTriggerMode::Immediate => 0,
            OsciTriggerMode::Level => 1,
            OsciTriggerMode::Auto => 2,
        }
    }

    /// The wire value of the selector.
    pub fn as_u16(self) -> (r: u16)
        ensures
            r == self.wire(),
    {
        match self {
            OsciTriggerMode::Immediate => 0,
            OsciTriggerMode::Level => 1,
            OsciTriggerMode::Auto => 2,
        }
    }

    /// The selector a wire value names; out-of-range values are rejected.
    pub fn from_u16(value: u16) -> (r: Result<Self, NanonisError>)
        ensures
            match r {
                Ok(v) => v.wire() == value,
                Err(e) => value > 2 && e is InvalidInput,
            },
    {
        match value {
            0 => Ok(OsciTriggerMode::Immediate),
            1 => Ok(OsciTriggerMode::Level),
            2 => Ok(OsciTriggerMode::Auto),
            _ => Err(NanonisError::InvalidInput("value names no OsciTriggerMode variant".to_string())),
        }
    }
}

#[derive(Debug, Clone, Copy, PartialEq, Eq, Structural)]
pub enum OversamplingIndex {
    Samples50,
    Samples20,
    Samples10,
    Samples5,
    Samples2,
    Samples1,
}

impl OversamplingIndex {
    /// The wire value of the selector.
    pub open spec fn wire(self) -> u16 {
        match self {
            OversamplingIndex::Samples50 => 0,
            OversamplingIndex::Samples20 => 1,
            OversamplingIndex::Samples10 => 2,
            OversamplingIndex::Samples5 => 3,
            OversamplingIndex::Samples2 => 4,
            OversamplingIndex::Samples1 => 5,
        }
    }

    /// The wire value of the selector.
    pub fn as_u16(self) -> (r: u16)
        ensures
            r == self.wire(),
    {
        match self {
            OversamplingIndex::Samples50 => 0,
            OversamplingIndex::Samples20 => 1,
            OversamplingIndex::Samples10 => 2,
            OversamplingIndex::Samples5 => 3,
            OversamplingIndex::Samples2 => 4,
            OversamplingIndex::Samples1 => 5,
        }
    }

    /// The selector a wire value names; out-of-range values are rejected.
    pub fn from_u16(value: u16) -> (r: Result<Self, NanonisError>)
        ensures
            match r {
                Ok(v) => v.wire() == value,
                Err(e) => value > 5 && e is InvalidInput,
            },
    {
        match value {
            0 => Ok(OversamplingIndex::Samples50),
            1 => Ok(OversamplingIndex::Samples20),
            2 => Ok(OversamplingIndex::Samples10),
            3 => Ok(OversamplingIndex::Samples5),
            4 => Ok(OversamplingIndex::Samples2),
            5 => Ok(OversamplingIndex::Samples1),
            _ => Err(NanonisError::InvalidInput("value names no OversamplingIndex variant".to_string())),
        }
    }
}

#[derive(Debug, Clone, Copy, PartialEq, Eq, Structural)]
pub enum TCPLogStatus {
    Disconnected,
    Idle,
    Start,
    Stop,
    Running,
    TCPConnect,
    TCPDisconnect,
    BufferOverflow,
}

impl TCPLogStatus {
    /// The wire value of the selector.
    pub open spec fn wire(self) -> i32 {
        match self {
            TCPLogStatus::Disconnected => 0,
            TCPLogStatus::Idle => 1,
            TCPLogStatus::Start => 2,
            TCPLogStatus::Stop => 3,
            TCPLogStatus::Running => 4,
            TCPLogStatus::TCPConnect => 5,
            TCPLogStatus::TCPDisconnect => 6,
            TCPLogStatus::BufferOverflow => 7,
        }
    }

    /// The wire value of the selector.
    pub fn as_i32(self) -> (r: i32)
        ensures
            r == self.wire(),
    {
        match self {
            TCPLogStatus::Disconnected => 0,
            TCPLogStatus::Idle => 1,
            TCPLogStatus::Start => 2,
            TCPLogStatus::Stop => 3,
            TCPLogStatus::Running => 4,
            TCPLogStatus::TCPConnect => 5,
            TCPLogStatus::TCPDisconnect => 6,
            TCPLogStatus::BufferOverflow => 7,
        }
    }

    /// The selector a wire value names; out-of-range values are rejected.
    pub fn from_i32(value: i32) -> (r: Result<Self, NanonisError>)
        ensures
            match r {
                Ok(v) => v.wire() == value,
                Err(e) => !(0 <= value <= 7) && e is InvalidInput,
            },
    {
        match value {
            0 => Ok(TCPLogStatus::Disconnected),
            1 => Ok(TCPLogStatus::Idle),
            2 => Ok(TCPLogStatus::Start),
            3 => Ok(TCPLogStatus::Stop),
            4 => Ok(TCPLogStatus::Running),
            5 => Ok(TCPLogStatus::TCPConnect),
            6 => Ok(TCPLogStatus::TCPDisconnect),
            7 => Ok(TCPLogStatus::BufferOverflow),
            _ => Err(NanonisError::InvalidInput("value names no TCPLogStatus variant".to_string())),
        }
    }
}

/// One coarse-motor movement: a direction, a step count and a motor group.
#[derive(Debug, Clone, Copy, PartialEq, Eq, Structural)]
pub struct MotorMovement {
    pub direction: MotorDirection,
    pub steps: StepCount,
    pub group: MotorGroup,
}

impl MotorMovement {
    /// A movement from its parts.
    pub fn new(direction: MotorDirection, steps: StepCount, group: MotorGroup) -> (r: Self)
        ensures
            r.direction == direction && r.steps == steps && r.group == group,
    {
        MotorMovement { direction, steps, group }
    }
}

/// A three-axis coarse-motor displacement in steps, signed per axis.
#[derive(Debug, Clone, Copy, PartialEq, Eq, Structural)]
pub struct MotorDisplacement {
    pub x: i16,
    pub y: i16,
    pub z: i16,
}

/// The step count a signed displacement takes on one axis.
pub open spec fn steps_of(v: int) -> u16 {
    if v < 0 {
        (-v) as u16
    } else {
        v as u16
    }
}

/// The movements a displacement is carried out by, in the safe order:
/// the retraction away from the surface first, then the lateral axes, then
/// the approach toward the surface last.
pub open spec fn spec_movements(d: MotorDisplacement) -> Seq<(MotorDirection, u16)> {
    (if d.z < 0 {
        seq![(MotorDirection::ZMinus, steps_of(d.z as int))]
    } else {
        Seq::empty()
    }) + (if d.x > 0 {
        seq![(MotorDirection::XPlus, d.x as u16)]
    } else if d.x < 0 {
        seq![(MotorDirection::XMinus, steps_of(d.x as int))]
    } else {
        Seq::empty()
    }) + (if d.y > 0 {
        seq![(MotorDirection::YPlus, d.y as u16)]
    } else if d.y < 0 {
        seq![(MotorDirection::YMinus, steps_of(d.y as int))]
    } else {
        Seq::empty()
    }) + (if d.z > 0 {
        seq![(MotorDirection::ZPlus, d.z as u16)]
    } else {
        Seq::empty()
    })
}

impl MotorDisplacement {
    /// A displacement from its axis step counts.
    pub fn new(x: i16, y: i16, z: i16) -> (r: Self)
        ensures
            r == (MotorDisplacement { x, y, z }),
    {
        MotorDisplacement { x, y, z }
    }

    /// A displacement along the first lateral axis only.
    pub fn x_only(steps: i16) -> (r: Self)
        ensures
            r == (MotorDisplacement { x: steps, y: 0i16, z: 0i16 }),
    {
        MotorDisplacement { x: steps, y: 0, z: 0 }
    }

    /// A displacement along the second lateral axis only.
    pub fn y_only(steps: i16) -> (r: Self)
        ensures
            r == (MotorDisplacement { x: 0i16, y: steps, z: 0i16 }),
    {
        MotorDisplacement { x: 0, y: steps, z: 0 }
    }

    /// A displacement along the vertical axis only.
    pub fn z_only(steps: i16) -> (r: Self)
        ensures
            r == (MotorDisplacement { x: 0i16, y: 0i16, z: steps }),
    {
        MotorDisplacement { x: 0, y: 0, z: steps }
    }

    /// Whether the displacement moves nothing.
    pub fn is_zero(&self) -> (r: bool)
        ensures
            r == (self.x == 0 && self.y == 0 && self.z == 0),
    {
        self.x == 0 && self.y == 0 && self.z == 0
    }

    /// The movements that carry out this displacement, in the safe order:
    /// any retraction away from the surface first, then the lateral axes,
    /// then any approach toward the surface last.
    pub fn to_motor_movements(&self) -> (r: Vec<(MotorDirection, u16)>)
        ensures
            r@ == spec_movements(*self),
    {
        let mut movements: Vec<(MotorDirection, u16)> = Vec::new();
        if self.z < 0 {
            movements.push((MotorDirection::ZMinus, (-(self.z as i32)) as u16));
        }
        if self.x > 0 {
            movements.push((MotorDirection::XPlus, self.x as u16));
        } else if self.x < 0 {
            movements.push((MotorDirection::XMinus, (-(self.x as i32)) as u16));
        }
        if self.y > 0 {
            movements.push((MotorDirection::YPlus, self.y as u16));
        } else if self.y < 0 {
            movements.push((MotorDirection::YMinus, (-(self.y as i32)) as u16));
        }
        if self.z > 0 {
            movements.push((MotorDirection::ZPlus, self.z as u16));
        }
        proof {
            assert(movements@ =~= spec_movements(*self));
        }
        movements
    }
}


/// The state of the height controller.
#[derive(Debug, Clone, Copy, PartialEq, Eq, Structural)]
pub enum ZControllerStatus {
    Off,
    On,
    Hold,
    SwitchingOff,
    SafeTip,
    Withdrawing,
}

impl ZControllerStatus {
    /// The wire value of the status.
    pub open spec fn wire(self) -> u16 {
        match self {
            ZControllerStatus::Off => 1,
            ZControllerStatus::On => 2,
            ZControllerStatus::Hold => 3,
            ZControllerStatus::SwitchingOff => 4,
            ZControllerStatus::SafeTip => 5,
            ZControllerStatus::Withdrawing => 6,
        }
    }

    /// The wire value of the status.
    pub fn as_u16(self) -> (r: u16)
        ensures
            r == self.wire(),
    {
        match self {
            ZControllerStatus::Off => 1,
            ZControllerStatus::On => 2,
            ZControllerStatus::Hold => 3,
            ZControllerStatus::SwitchingOff => 4,
            ZControllerStatus::SafeTip => 5,
            ZControllerStatus::Withdrawing => 6,
        }
    }

    /// The status a wire value names; unassigned values are rejected.
    pub fn from_u16(value: u16) -> (r: Result<Self, NanonisError>)
        ensures
            match r {
                Ok(v) => v.wire() == value,
                Err(e) => !(1 <= value <= 6) && e is InvalidInput,
            },
    {
        match value {
            1 => Ok(ZControllerStatus::Off),
            2 => Ok(ZControllerStatus::On),
            3 => Ok(ZControllerStatus::Hold),
            4 => Ok(ZControllerStatus::SwitchingOff),
            5 => Ok(ZControllerStatus::SafeTip),
            6 => Ok(ZControllerStatus::Withdrawing),
            _ => Err(NanonisError::InvalidInput("value names no controller status".to_string())),
        }
    }
}

} // verus!
