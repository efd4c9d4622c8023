//! Enumerated device-state domains reported by the inverter.
//!
//! Each domain is a closed set of raw byte codes. Decoding a code outside
//! the known set is a failure condition: the decoders never substitute a
//! default, they return `None` and the caller reports the raw byte.

use vstd::prelude::*;

verus! {

/// Outcome of transmitting a command to the device, reported in byte 0 of
/// most response payloads.
#[derive(Clone, Copy, Debug, PartialEq, Eq, Structural)]
pub enum TransmissionState {
    Okay,
    Busy,
    CommandNotImplemented,
    VariableDoesNotExist,
    VariableValueOutOfRange,
    EepromNotAccessible,
    NotToggledServiceMode,
    CannotSendCommandToMicro,
    CommandNotExecuted,
    VariableNotAvailable,
}

impl TransmissionState {
    /// The raw wire code of this state.
    pub open spec fn as_code(self) -> u8 {
        match self {
            TransmissionState::Okay => 0,
            TransmissionState::Busy => 6,
            TransmissionState::CommandNotImplemented => 51,
            TransmissionState::VariableDoesNotExist => 52,
            TransmissionState::VariableValueOutOfRange => 53,
            TransmissionState::EepromNotAccessible => 54,
            TransmissionState::NotToggledServiceMode => 55,
            TransmissionState::CannotSendCommandToMicro => 56,
            TransmissionState::CommandNotExecuted => 57,
            TransmissionState::VariableNotAvailable => 58,
        }
    }

    /// The state a raw byte stands for, or `None` outside the legal set.
    pub open spec fn from_code(c: u8) -> Option<TransmissionState> {
        if c == 0 {
            Some(TransmissionState::Okay)
        } else if c == 6 {
            Some(TransmissionState::Busy)
        } else if c == 51 {
            Some(TransmissionState::CommandNotImplemented)
        } else if c == 52 {
            Some(TransmissionState::VariableDoesNotExist)
        } else if c == 53 {
            Some(TransmissionState::VariableValueOutOfRange)
        } else if c == 54 {
            Some(TransmissionState::EepromNotAccessible)
        } else if c == 55 {
            Some(TransmissionState::NotToggledServiceMode)
        } else if c == 56 {
            Some(TransmissionState::CannotSendCommandToMicro)
        } else if c == 57 {
            Some(TransmissionState::CommandNotExecuted)
        } else if c == 58 {
            Some(TransmissionState::VariableNotAvailable)
        } else {
            None
        }
    }

    /// Decode a raw byte; `Some` exactly on the legal code set.
    pub fn from_u8(c: u8) -> (r: Option<TransmissionState>)
        ensures
            r == TransmissionState::from_code(c),
    {
        match c {
            0 => Some(TransmissionState::Okay),
            6 => Some(TransmissionState::Busy),
            51 => Some(TransmissionState::CommandNotImplemented),
            52 => Some(TransmissionState::VariableDoesNotExist),
            53 => Some(TransmissionState::VariableValueOutOfRange),
            54 => Some(TransmissionState::EepromNotAccessible),
            55 => Some(TransmissionState::NotToggledServiceMode),
            56 => Some(TransmissionState::CannotSendCommandToMicro),
            57 => Some(TransmissionState::CommandNotExecuted),
            58 => Some(TransmissionState::VariableNotAvailable),
            _ => None,
        }
    }

    /// A state's own code decodes back to that state.
    pub proof fn lemma_code_round_trip(self)
        ensures
            TransmissionState::from_code(self.as_code()) == Some(self),
    {
    }
}

/// Overall operating state of the inverter, reported in byte 1 of most
/// response payloads.
#[derive(Clone, Copy, Debug, PartialEq, Eq, Structural)]
pub enum GlobalState {
    SendingParameters,
    WaitSunGrid,
    CheckingGrid,
    MeasuringRiso,
    DcDcStart,
    InverterStart,
    Run,
    Recovery,
    Pause,
    GroundFault,
    OthFault,
    AddressSetting,
    SelfTest,
    SelfTestFail,
    SensorTestMeasureRiso,
    LeakFault,
    WaitingForManualReset,
}

impl GlobalState {
    /// The raw wire code of this state.
    pub open spec fn as_code(self) -> u8 {
        match self {
            GlobalState::SendingParameters => 0,
            GlobalState::WaitSunGrid => 1,
            GlobalState::CheckingGrid => 2,
            GlobalState::MeasuringRiso => 3,
            GlobalState::DcDcStart => 4,
            GlobalState::InverterStart => 5,
            GlobalState::Run => 6,
            GlobalState::Recovery => 7,
            GlobalState::Pause => 8,
            GlobalState::GroundFault => 9,
            GlobalState::OthFault => 10,
            GlobalState::AddressSetting => 11,
            GlobalState::SelfTest => 12,
            GlobalState::SelfTestFail => 13,
            GlobalState::SensorTestMeasureRiso => 14,
            GlobalState::LeakFault => 15,
            GlobalState::WaitingForManualReset => 16,
        }
    }

    /// The state a raw byte stands for, or `None` outside the legal set.
    pub open spec fn from_code(c: u8) -> Option<GlobalState> {
        if c == 0 {
            Some(GlobalState::SendingParameters)
        } else if c == 1 {
            Some(GlobalState::WaitSunGrid)
        } else if c == 2 {
            Some(GlobalState::CheckingGrid)
        } else if c == 3 {
            Some(GlobalState::MeasuringRiso)
        } else if c == 4 {
            Some(GlobalState::DcDcStart)
        } else if c == 5 {
            Some(GlobalState::InverterStart)
        } else if c == 6 {
            Some(GlobalState::Run)
        } else if c == 7 {
            Some(GlobalState::Recovery)
        } else if c == 8 {
            Some(GlobalState::Pause)
        } else if c == 9 {
            Some(GlobalState::GroundFault)
        } else if c == 10 {
            Some(GlobalState::OthFault)
        } else if c == 11 {
            Some(GlobalState::AddressSetting)
        } else if c == 12 {
            Some(GlobalState::SelfTest)
        } else if c == 13 {
            Some(GlobalState::SelfTestFail)
        } else if c == 14 {
            Some(GlobalState::SensorTestMeasureRiso)
        } else if c == 15 {
            Some(GlobalState::LeakFault)
        } else if c == 16 {
            Some(GlobalState::WaitingForManualReset)
        } else {
            None
        }
    }

    /// Decode a raw byte; `Some` exactly on the legal code set.
    pub fn from_u8(c: u8) -> (r: Option<GlobalState>)
        ensures
            r == GlobalState::from_code(c),
    {
        match c {
            0 => Some(GlobalState::SendingParameters),
            1 => Some(GlobalState::WaitSunGrid),
            2 => Some(GlobalState::CheckingGrid),
            3 => Some(GlobalState::MeasuringRiso),
            4 => Some(GlobalState::DcDcStart),
            5 => Some(GlobalState::InverterStart),
            6 => Some(GlobalState::Run),
            7 => Some(GlobalState::Recovery),
            8 => Some(GlobalState::Pause),
            9 => Some(GlobalState::GroundFault),
            10 => Some(GlobalState::OthFault),
            11 => Some(GlobalState::AddressSetting),
            12 => Some(GlobalState::SelfTest),
            13 => Some(GlobalState::SelfTestFail),
            14 => Some(GlobalState::SensorTestMeasureRiso),
            15 => Some(GlobalState::LeakFault),
            16 => Some(GlobalState::WaitingForManualReset),
            _ => None,
        }
    }

    /// A state's own code decodes back to that state.
    pub proof fn lemma_code_round_trip(self)
        ensures
            GlobalState::from_code(self.as_code()) == Some(self),
    {
    }
}

/// State of the inverter stage, reported in byte 2 of a `State` response.
#[derive(Clone, Copy, Debug, PartialEq, Eq, Structural)]
pub enum InverterState {
    StandBy,
    CheckingGrid,
    Run,
    BulkOverVoltage,
    OutOverCurrent,
    IgbtSat,
    BulkUnderVoltage,
    DegaussError,
    NoParameters,
    BulkLow,
    GridOverVoltage,
    CommunicationError,
    Degaussing,
    Starting,
    BulkCapFail,
    LeakFail,
    DcDcFail,
    IldTemperatureFail,
}

impl InverterState {
    /// The raw wire code of this state.
    pub open spec fn as_code(self) -> u8 {
        match self {
            InverterState::StandBy => 0,
            InverterState::CheckingGrid => 1,
            InverterState::Run => 2,
            InverterState::BulkOverVoltage => 3,
            InverterState::OutOverCurrent => 4,
            InverterState::IgbtSat => 5,
            InverterState::BulkUnderVoltage => 6,
            InverterState::DegaussError => 7,
            InverterState::NoParameters => 8,
            InverterState::BulkLow => 9,
            InverterState::GridOverVoltage => 10,
            InverterState::CommunicationError => 11,
            InverterState::Degaussing => 12,
            InverterState::Starting => 13,
            InverterState::BulkCapFail => 14,
            InverterState::LeakFail => 15,
            InverterState::DcDcFail => 16,
            InverterState::IldTemperatureFail => 17,
        }
    }

    /// The state a raw byte stands for, or `None` outside the legal set.
    pub open spec fn from_code(c: u8) -> Option<InverterState> {
        if c == 0 {
            Some(InverterState::StandBy)
        } else if c == 1 {
            Some(InverterState::CheckingGrid)
        } else if c == 2 {
            Some(InverterState::Run)
        } else if c == 3 {
            Some(InverterState::BulkOverVoltage)
        } else if c == 4 {
            Some(InverterState::OutOverCurrent)
        } else if c == 5 {
            Some(InverterState::IgbtSat)
        } else if c == 6 {
            Some(InverterState::BulkUnderVoltage)
        } else if c == 7 {
            Some(InverterState::DegaussError)
        } else if c == 8 {
            Some(InverterState::NoParameters)
        } else if c == 9 {
            Some(InverterState::BulkLow)
        } else if c == 10 {
            Some(InverterState::GridOverVoltage)
        } else if c == 11 {
            Some(InverterState::CommunicationError)
        } else if c == 12 {
            Some(InverterState::Degaussing)
        } else if c == 13 {
            Some(InverterState::Starting)
        } else if c == 14 {
            Some(InverterState::BulkCapFail)
        } else if c == 15 {
            Some(InverterState::LeakFail)
        } else if c == 16 {
            Some(InverterState::DcDcFail)
        } else if c == 17 {
            Some(InverterState::IldTemperatureFail)
        } else {
            None
        }
    }

    /// Decode a raw byte; `Some` exactly on the legal code set.
    pub fn from_u8(c: u8) -> (r: Option<InverterState>)
        ensures
            r == InverterState::from_code(c),
    {
        match c {
            0 => Some(InverterState::StandBy),
            1 => Some(InverterState::CheckingGrid),
            2 => Some(InverterState::Run),
            3 => Some(InverterState::BulkOverVoltage),
            4 => Some(InverterState::OutOverCurrent),
            5 => Some(InverterState::IgbtSat),
            6 => Some(InverterState::BulkUnderVoltage),
            7 => Some(InverterState::DegaussError),
            8 => Some(InverterState::NoParameters),
            9 => Some(InverterState::BulkLow),
            10 => Some(InverterState::GridOverVoltage),
            11 => Some(InverterState::CommunicationError),
            12 => Some(InverterState::Degaussing),
            13 => Some(InverterState::Starting),
            14 => Some(InverterState::BulkCapFail),
            15 => Some(InverterState::LeakFail),
            16 => Some(InverterState::DcDcFail),
            17 => Some(InverterState::IldTemperatureFail),
            _ => None,
        }
    }

    /// A state's own code decodes back to that state.
    pub proof fn lemma_code_round_trip(self)
        ensures
            InverterState::from_code(self.as_code()) == Some(self),
    {
    }
}

/// State of a DC/DC converter channel, reported in bytes 3 and 4 of a
/// `State` response.
#[derive(Clone, Copy, Debug, PartialEq, Eq, Structural)]
pub enum DcDcState {
    Off,
    RampStart,
    PowerOk,
    BiasOk,
    LeakFault,
    LeakProtection,
    InputOverCurrent,
    InputUnderVoltage,
    InputOverVoltage,
    InputLow,
    NoParameters,
    BulkOverVoltage,
    CommunicationError,
}

impl DcDcState {
    /// The raw wire code of this state.
    pub open spec fn as_code(self) -> u8 {
        match self {
            DcDcState::Off => 0,
            DcDcState::RampStart => 1,
            DcDcState::PowerOk => 2,
            DcDcState::BiasOk => 3,
            DcDcState::LeakFault => 4,
            DcDcState::LeakProtection => 5,
            DcDcState::InputOverCurrent => 6,
            DcDcState::InputUnderVoltage => 7,
            DcDcState::InputOverVoltage => 8,
            DcDcState::InputLow => 9,
            DcDcState::NoParameters => 10,
            DcDcState::BulkOverVoltage => 11,
            DcDcState::CommunicationError => 12,
        }
    }

    /// The state a raw byte stands for, or `None` outside the legal set.
    pub open spec fn from_code(c: u8) -> Option<DcDcState> {
        if c == 0 {
            Some(DcDcState::Off)
        } else if c == 1 {
            Some(DcDcState::RampStart)
        } else if c == 2 {
            Some(DcDcState::PowerOk)
        } else if c == 3 {
            Some(DcDcState::BiasOk)
        } else if c == 4 {
            Some(DcDcState::LeakFault)
        } else if c == 5 {
            Some(DcDcState::LeakProtection)
        } else if c == 6 {
            Some(DcDcState::InputOverCurrent)
        } else if c == 7 {
            Some(DcDcState::InputUnderVoltage)
        } else if c == 8 {
            Some(DcDcState::InputOverVoltage)
        } else if c == 9 {
            Some(DcDcState::InputLow)
        } else if c == 10 {
            Some(DcDcState::NoParameters)
        } else if c == 11 {
            Some(DcDcState::BulkOverVoltage)
        } else if c == 12 {
            Some(DcDcState::CommunicationError)
        } else {
            None
        }
    }

    /// Decode a raw byte; `Some` exactly on the legal code set.
    pub fn from_u8(c: u8) -> (r: Option<DcDcState>)
        ensures
            r == DcDcState::from_code(c),
    {
        match c {
            0 => Some(DcDcState::Off),
            1 => Some(DcDcState::RampStart),
            2 => Some(DcDcState::PowerOk),
            3 => Some(DcDcState::BiasOk),
            4 => Some(DcDcState::LeakFault),
            5 => Some(DcDcState::LeakProtection),
            6 => Some(DcDcState::InputOverCurrent),
            7 => Some(DcDcState::InputUnderVoltage),
            8 => Some(DcDcState::InputOverVoltage),
            9 => Some(DcDcState::InputLow),
            10 => Some(DcDcState::NoParameters),
            11 => Some(DcDcState::BulkOverVoltage),
            12 => Some(DcDcState::CommunicationError),
            _ => None,
        }
    }

    /// A state's own code decodes back to that state.
    pub proof fn lemma_code_round_trip(self)
        ensures
            DcDcState::from_code(self.as_code()) == Some(self),
    {
    }
}

/// Physical quantity that a `Measure` request asks the device to sample.
/// Each quantity has a fixed one-byte code in the range 1–63.
#[derive(Clone, Copy, Debug, PartialEq, Eq, Structural)]
pub enum MeasurementType {
    GridVoltage,
    GridCurrent,
    GridPower,
    Frequency,
    VBulk,
    IleakDcDc,
    IleakInverter,
    Pin1,
    Pin2,
    InverterTemperature,
    BoosterTemperature,
    Input1Voltage,
    Input1Current,
    Input2Voltage,
    Input2Current,
    GridVoltageDcDc,
    GridFrequencyDcDc,
    IsolationResistance,
    VBulkDcDc,
    AverageGridVoltage,
    VBulkMid,
    PowerPeak,
    PowerPeakToday,
    GridVoltageNeutral,
    WindGeneratorFrequency,
    GridVoltageNeutralPhase,
    GridCurrentPhaseR,
    GridCurrentPhaseS,
    GridCurrentPhaseT,
    FrequencyPhaseR,
    FrequencyPhaseS,
    FrequencyPhaseT,
    VBulkPlus,
    VBulkMinus,
    SupervisorTemperature,
    AlimTemperature,
    HeatSinkTemperature,
    Temperature1,
    Temperature2,
    Temperature3,
    Fan1Speed,
    Fan2Speed,
    Fan3Speed,
    Fan4Speed,
    Fan5Speed,
    PowerSaturationLimit,
    BulkReference,
    VPanelMicro,
}

impl MeasurementType {
    /// The raw wire code of this quantity, sent in byte 2 of a `Measure`
    /// request frame.
    pub open spec fn as_code(self) -> u8 {
        match self {
            MeasurementType::GridVoltage => 1,
            MeasurementType::GridCurrent => 2,
            MeasurementType::GridPower => 3,
            MeasurementType::Frequency => 4,
            MeasurementType::VBulk => 5,
            MeasurementType::IleakDcDc => 6,
            MeasurementType::IleakInverter => 7,
            MeasurementType::Pin1 => 8,
            MeasurementType::Pin2 => 9,
            MeasurementType::InverterTemperature => 21,
            MeasurementType::BoosterTemperature => 22,
            MeasurementType::Input1Voltage => 23,
            MeasurementType::Input1Current => 25,
            MeasurementType::Input2Voltage => 26,
            MeasurementType::Input2Current => 27,
            MeasurementType::GridVoltageDcDc => 28,
            MeasurementType::GridFrequencyDcDc => 29,
            MeasurementType::IsolationResistance => 30,
            MeasurementType::VBulkDcDc => 31,
            MeasurementType::AverageGridVoltage => 32,
            MeasurementType::VBulkMid => 33,
            MeasurementType::PowerPeak => 34,
            MeasurementType::PowerPeakToday => 35,
            MeasurementType::GridVoltageNeutral => 36,
            MeasurementType::WindGeneratorFrequency => 37,
            MeasurementType::GridVoltageNeutralPhase => 38,
            MeasurementType::GridCurrentPhaseR => 39,
            MeasurementType::GridCurrentPhaseS => 40,
            MeasurementType::GridCurrentPhaseT => 41,
            MeasurementType::FrequencyPhaseR => 42,
            MeasurementType::FrequencyPhaseS => 43,
            MeasurementType::FrequencyPhaseT => 44,
            MeasurementType::VBulkPlus => 45,
            MeasurementType::VBulkMinus => 46,
            MeasurementType::SupervisorTemperature => 47,
            MeasurementType::AlimTemperature => 48,
            MeasurementType::HeatSinkTemperature => 49,
            MeasurementType::Temperature1 => 50,
            MeasurementType::Temperature2 => 51,
            MeasurementType::Temperature3 => 52,
            MeasurementType::Fan1Speed => 53,
            MeasurementType::Fan2Speed => 54,
            MeasurementType::Fan3Speed => 55,
            MeasurementType::Fan4Speed => 56,
            MeasurementType::Fan5Speed => 57,
            MeasurementType::PowerSaturationLimit => 58,
            MeasurementType::BulkReference => 59,
            MeasurementType::VPanelMicro => 60,
        }
    }

    /// The raw wire code of this quantity.
    pub fn code(&self) -> (r: u8)
        ensures
            r == self.as_code(),
    {
        match self {
            MeasurementType::GridVoltage => 1,
            MeasurementType::GridCurrent => 2,
            MeasurementType::GridPower => 3,
            MeasurementType::Frequency => 4,
            MeasurementType::VBulk => 5,
            MeasurementType::IleakDcDc => 6,
            MeasurementType::IleakInverter => 7,
            MeasurementType::Pin1 => 8,
            MeasurementType::Pin2 => 9,
            MeasurementType::InverterTemperature => 21,
            MeasurementType::BoosterTemperature => 22,
            MeasurementType::Input1Voltage => 23,
            MeasurementType::Input1Current => 25,
            MeasurementType::Input2Voltage => 26,
            MeasurementType::Input2Current => 27,
            MeasurementType::GridVoltageDcDc => 28,
            MeasurementType::GridFrequencyDcDc => 29,
            MeasurementType::IsolationResistance => 30,
            MeasurementType::VBulkDcDc => 31,
            MeasurementType::AverageGridVoltage => 32,
            MeasurementType::VBulkMid => 33,
            MeasurementType::PowerPeak => 34,
            MeasurementType::PowerPeakToday => 35,
            MeasurementType::GridVoltageNeutral => 36,
            MeasurementType::WindGeneratorFrequency => 37,
            MeasurementType::GridVoltageNeutralPhase => 38,
            MeasurementType::GridCurrentPhaseR => 39,
            MeasurementType::GridCurrentPhaseS => 40,
            MeasurementType::GridCurrentPhaseT => 41,
            MeasurementType::FrequencyPhaseR => 42,
            MeasurementType::FrequencyPhaseS => 43,
            MeasurementType::FrequencyPhaseT => 44,
            MeasurementType::VBulkPlus => 45,
            MeasurementType::VBulkMinus => 46,
            MeasurementType::SupervisorTemperature => 47,
            MeasurementType::AlimTemperature => 48,
            MeasurementType::HeatSinkTemperature => 49,
            MeasurementType::Temperature1 => 50,
            MeasurementType::Temperature2 => 51,
            MeasurementType::Temperature3 => 52,
            MeasurementType::Fan1Speed => 53,
            MeasurementType::Fan2Speed => 54,
            MeasurementType::Fan3Speed => 55,
            MeasurementType::Fan4Speed => 56,
            MeasurementType::Fan5Speed => 57,
            MeasurementType::PowerSaturationLimit => 58,
            MeasurementType::BulkReference => 59,
            MeasurementType::VPanelMicro => 60,
        }
    }

    /// Every quantity's code lies in the protocol's 1–63 range.
    pub proof fn lemma_code_in_range(self)
        ensures
            1 <= self.as_code() <= 63,
    {
    }
}

} // verus!
