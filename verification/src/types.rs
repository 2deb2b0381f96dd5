//! Plain data model of the ASIO driver ABI: boolean and error codes, sample
//! format tags, message and future selectors, and the records exchanged with
//! the driver during setup.
//!
//! The enums carry no representation attributes here; each offers a `code`
//! method giving the integer the driver ABI uses for it, and the tag enums a
//! `from_code` inverse, so the unverified boundary layer can translate both
//! ways. Raw driver pointers appear only as opaque numeric handles that this
//! library never dereferences.

use vstd::prelude::*;

verus! {

/// Boolean as the ASIO ABI encodes it: 0 for false, 1 for true.
#[derive(Copy, Clone, Debug, PartialEq, Eq, Structural)]
pub enum ASIOBool {
    False,
    True,
}

impl ASIOBool {
    /// The ABI value of this boolean: 0 for `False`, 1 for `True`.
    pub open spec fn spec_code(self) -> int {
        match self {
            ASIOBool::False => 0,
            ASIOBool::True => 1,
        }
    }

    /// Returns the ABI value of this boolean.
    pub fn code(self) -> (r: i32)
        ensures
            r as int == self.spec_code(),
    {
        match self {
            ASIOBool::False => 0,
            ASIOBool::True => 1,
        }
    }
}

/// Result codes an ASIO driver returns from its entry points.
#[derive(Copy, Clone, Debug, PartialEq, Eq, Structural)]
pub enum ASIOError {
    /// The call succeeded.
    Okay,
    /// Unique success value for future (extension) calls.
    Success,
    /// Hardware input or output is not present or available.
    NotPresent,
    /// Hardware is malfunctioning.
    HWMalfunction,
    /// An input parameter was invalid.
    InvalidParameter,
    /// Hardware is in a bad mode or used in a bad mode.
    InvalidMode,
    /// Hardware is not running when the sample position is inquired.
    SPNotAdvancing,
    /// Sample clock or rate cannot be determined or is not present.
    NoClock,
    /// Not enough memory to complete the request.
    NoMemory,
}

impl ASIOError {
    /// The ABI value of this result code.
    pub open spec fn spec_code(self) -> int {
        match self {
            ASIOError::Okay => 0,
            ASIOError::Success => 0x3f4847a0,
            ASIOError::NotPresent => -1000,
            ASIOError::HWMalfunction => -999,
            ASIOError::InvalidParameter => -998,
            ASIOError::InvalidMode => -997,
            ASIOError::SPNotAdvancing => -996,
            ASIOError::NoClock => -995,
            ASIOError::NoMemory => -994,
        }
    }

    /// Returns the ABI value of this result code.
    pub fn code(self) -> (r: i32)
        ensures
            r as int == self.spec_code(),
    {
        match self {
            ASIOError::Okay => 0,
            ASIOError::Success => 0x3f4847a0,
            ASIOError::NotPresent => -1000,
            ASIOError::HWMalfunction => -999,
            ASIOError::InvalidParameter => -998,
            ASIOError::InvalidMode => -997,
            ASIOError::SPNotAdvancing => -996,
            ASIOError::NoClock => -995,
            ASIOError::NoMemory => -994,
        }
    }
}

/// Setup-time fatal errors. Each is raised once while a session is being
/// built and aborts its creation; none can occur on the real-time path.
#[derive(Copy, Clone, Debug, PartialEq, Eq, Structural)]
pub enum SetupError {
    /// The driver reported a native sample format this library cannot convert.
    UnsupportedSampleType,
    /// More channels were requested on one side than the router supports,
    /// or a side was left without any channel.
    UnsupportedTopology,
    /// A channel was handed buffer regions whose lengths disagree with the
    /// session's buffer length.
    BufferLengthMismatch,
}

/// Native sample format tags of the ASIO ABI.
#[derive(Copy, Clone, Debug, PartialEq, Eq, Structural)]
pub enum ASIOSampleType {
    Int16MSB,
    /// Used for 20-bit samples as well.
    Int24MSB,
    Int32MSB,
    /// IEEE 754 32-bit float.
    Float32MSB,
    /// IEEE 754 64-bit double float.
    Float64MSB,
    /// 32-bit data word with 16 significant bits.
    Int32MSB16,
    /// 32-bit data word with 18 significant bits.
    Int32MSB18,
    /// 32-bit data word with 20 significant bits.
    Int32MSB20,
    /// 32-bit data word with 24 significant bits.
    Int32MSB24,
    Int16LSB,
    /// Used for 20-bit samples as well.
    Int24LSB,
    Int32LSB,
    /// IEEE 754 32-bit float, as found on Intel x86.
    Float32LSB,
    /// IEEE 754 64-bit double float, as found on Intel x86.
    Float64LSB,
    /// 32-bit data word with 16 significant bits.
    Int32LSB16,
    /// 32-bit data word with 18 significant bits.
    Int32LSB18,
    /// 32-bit data word with 20 significant bits.
    Int32LSB20,
    /// 32-bit data word with 24 significant bits.
    Int32LSB24,
    /// DSD 1-bit data, 8 samples per byte, first sample in the least significant bit.
    DSDInt8LSB1,
    /// DSD 1-bit data, 8 samples per byte, first sample in the most significant bit.
    DSDInt8MSB1,
    /// DSD 8-bit data, one sample per byte.
    DSDInt8NER8,
    /// Sentinel past the last valid tag; names no real format.
    LastEntry,
}

impl ASIOSampleType {
    /// The ABI value of this format tag.
    pub open spec fn spec_code(self) -> int {
        match self {
            ASIOSampleType::Int16MSB => 0,
            ASIOSampleType::Int24MSB => 1,
            ASIOSampleType::Int32MSB => 2,
            ASIOSampleType::Float32MSB => 3,
            ASIOSampleType::Float64MSB => 4,
            ASIOSampleType::Int32MSB16 => 8,
            ASIOSampleType::Int32MSB18 => 9,
            ASIOSampleType::Int32MSB20 => 10,
            ASIOSampleType::Int32MSB24 => 11,
            ASIOSampleType::Int16LSB => 16,
            ASIOSampleType::Int24LSB => 17,
            ASIOSampleType::Int32LSB => 18,
            ASIOSampleType::Float32LSB => 19,
            ASIOSampleType::Float64LSB => 20,
            ASIOSampleType::Int32LSB16 => 24,
            ASIOSampleType::Int32LSB18 => 25,
            ASIOSampleType::Int32LSB20 => 26,
            ASIOSampleType::Int32LSB24 => 27,
            ASIOSampleType::DSDInt8LSB1 => 32,
            ASIOSampleType::DSDInt8MSB1 => 33,
            ASIOSampleType::DSDInt8NER8 => 40,
            ASIOSampleType::LastEntry => 41,
        }
    }

    /// Returns the ABI value of this format tag.
    pub fn code(self) -> (r: i32)
        ensures
            r as int == self.spec_code(),
    {
        match self {
            ASIOSampleType::Int16MSB => 0,
            ASIOSampleType::Int24MSB => 1,
            ASIOSampleType::Int32MSB => 2,
            ASIOSampleType::Float32MSB => 3,
            ASIOSampleType::Float64MSB => 4,
            ASIOSampleType::Int32MSB16 => 8,
            ASIOSampleType::Int32MSB18 => 9,
            ASIOSampleType::Int32MSB20 => 10,
            ASIOSampleType::Int32MSB24 => 11,
            ASIOSampleType::Int16LSB => 16,
            ASIOSampleType::Int24LSB => 17,
            ASIOSampleType::Int32LSB => 18,
            ASIOSampleType::Float32LSB => 19,
            ASIOSampleType::Float64LSB => 20,
            ASIOSampleType::Int32LSB16 => 24,
            ASIOSampleType::Int32LSB18 => 25,
            ASIOSampleType::Int32LSB20 => 26,
            ASIOSampleType::Int32LSB24 => 27,
            ASIOSampleType::DSDInt8LSB1 => 32,
            ASIOSampleType::DSDInt8MSB1 => 33,
            ASIOSampleType::DSDInt8NER8 => 40,
            ASIOSampleType::LastEntry => 41,
        }
    }

    /// The format tag a given ABI value names, if any.
    pub open spec fn spec_from_code(c: int) -> Option<ASIOSampleType> {
        if c == 0 {
            Some(ASIOSampleType::Int16MSB)
        } else if c == 1 {
            Some(ASIOSampleType::Int24MSB)
        } else if c == 2 {
            Some(ASIOSampleType::Int32MSB)
        } else if c == 3 {
            Some(ASIOSampleType::Float32MSB)
        } else if c == 4 {
            Some(ASIOSampleType::Float64MSB)
        } else if c == 8 {
            Some(ASIOSampleType::Int32MSB16)
        } else if c == 9 {
            Some(ASIOSampleType::Int32MSB18)
        } else if c == 10 {
            Some(ASIOSampleType::Int32MSB20)
        } else if c == 11 {
            Some(ASIOSampleType::Int32MSB24)
        } else if c == 16 {
            Some(ASIOSampleType::Int16LSB)
        } else if c == 17 {
            Some(ASIOSampleType::Int24LSB)
        } else if c == 18 {
            Some(ASIOSampleType::Int32LSB)
        } else if c == 19 {
            Some(ASIOSampleType::Float32LSB)
        } else if c == 20 {
            Some(ASIOSampleType::Float64LSB)
        } else if c == 24 {
            Some(ASIOSampleType::Int32LSB16)
        } else if c == 25 {
            Some(ASIOSampleType::Int32LSB18)
        } else if c == 26 {
            Some(ASIOSampleType::Int32LSB20)
        } else if c == 27 {
            Some(ASIOSampleType::Int32LSB24)
        } else if c == 32 {
            Some(ASIOSampleType::DSDInt8LSB1)
        } else if c == 33 {
            Some(ASIOSampleType::DSDInt8MSB1)
        } else if c == 40 {
            Some(ASIOSampleType::DSDInt8NER8)
        } else {
            None
        }
    }

    /// Maps an ABI value back to its format tag; `None` for a value that
    /// names no format (the sentinel included).
    pub fn from_code(c: i32) -> (r: Option<ASIOSampleType>)
        ensures
            r == ASIOSampleType::spec_from_code(c as int),
    {
        match c {
            0 => Some(ASIOSampleType::Int16MSB),
            1 => Some(ASIOSampleType::Int24MSB),
            2 => Some(ASIOSampleType::Int32MSB),
            3 => Some(ASIOSampleType::Float32MSB),
            4 => Some(ASIOSampleType::Float64MSB),
            8 => Some(ASIOSampleType::Int32MSB16),
            9 => Some(ASIOSampleType::Int32MSB18),
            10 => Some(ASIOSampleType::Int32MSB20),
            11 => Some(ASIOSampleType::Int32MSB24),
            16 => Some(ASIOSampleType::Int16LSB),
            17 => Some(ASIOSampleType::Int24LSB),
            18 => Some(ASIOSampleType::Int32LSB),
            19 => Some(ASIOSampleType::Float32LSB),
            20 => Some(ASIOSampleType::Float64LSB),
            24 => Some(ASIOSampleType::Int32LSB16),
            25 => Some(ASIOSampleType::Int32LSB18),
            26 => Some(ASIOSampleType::Int32LSB20),
            27 => Some(ASIOSampleType::Int32LSB24),
            32 => Some(ASIOSampleType::DSDInt8LSB1),
            33 => Some(ASIOSampleType::DSDInt8MSB1),
            40 => Some(ASIOSampleType::DSDInt8NER8),
            _ => None,
        }
    }

    /// The size in bytes of one sample word of this format.
    pub open spec fn spec_size_in_bytes(self) -> int {
        match self {
            ASIOSampleType::Int16MSB => 2,
            ASIOSampleType::Int24MSB => 3,
            ASIOSampleType::Int32MSB => 4,
            ASIOSampleType::Float32MSB => 4,
            ASIOSampleType::Float64MSB => 8,
            ASIOSampleType::Int32MSB16 => 4,
            ASIOSampleType::Int32MSB18 => 4,
            ASIOSampleType::Int32MSB20 => 4,
            ASIOSampleType::Int32MSB24 => 4,
            ASIOSampleType::Int16LSB => 2,
            ASIOSampleType::Int24LSB => 3,
            ASIOSampleType::Int32LSB => 4,
            ASIOSampleType::Float32LSB => 4,
            ASIOSampleType::Float64LSB => 8,
            ASIOSampleType::Int32LSB16 => 2,
            ASIOSampleType::Int32LSB18 => 4,
            ASIOSampleType::Int32LSB20 => 4,
            ASIOSampleType::Int32LSB24 => 4,
            ASIOSampleType::DSDInt8LSB1 => 1,
            ASIOSampleType::DSDInt8MSB1 => 1,
            ASIOSampleType::DSDInt8NER8 => 1,
            ASIOSampleType::LastEntry => 0,
        }
    }

    /// Returns the size in bytes of one sample word. The sentinel tag names
    /// no format and has no size; rejecting it is a setup-time concern, so
    /// callers must rule it out first.
    pub fn size_in_bytes(&self) -> (r: usize)
        requires
            !(*self is LastEntry),
        ensures
            r as int == self.spec_size_in_bytes(),
    {
        match self {
            ASIOSampleType::Int16MSB => 2,
            ASIOSampleType::Int24MSB => 3,
            ASIOSampleType::Int32MSB => 4,
            ASIOSampleType::Float32MSB => 4,
            ASIOSampleType::Float64MSB => 8,
            ASIOSampleType::Int32MSB16 => 4,
            ASIOSampleType::Int32MSB18 => 4,
            ASIOSampleType::Int32MSB20 => 4,
            ASIOSampleType::Int32MSB24 => 4,
            ASIOSampleType::Int16LSB => 2,
            ASIOSampleType::Int24LSB => 3,
            ASIOSampleType::Int32LSB => 4,
            ASIOSampleType::Float32LSB => 4,
            ASIOSampleType::Float64LSB => 8,
            ASIOSampleType::Int32LSB16 => 2,
            ASIOSampleType::Int32LSB18 => 4,
            ASIOSampleType::Int32LSB20 => 4,
            ASIOSampleType::Int32LSB24 => 4,
            ASIOSampleType::DSDInt8LSB1 => 1,
            ASIOSampleType::DSDInt8MSB1 => 1,
            ASIOSampleType::DSDInt8NER8 => 1,
            ASIOSampleType::LastEntry => 0,
        }
    }
}

/// Message selectors a driver may pass to the host's message callback.
#[derive(Copy, Clone, Debug, PartialEq, Eq, Structural)]
pub enum MessageSelector {
    /// Asks whether the selector in the value argument is supported.
    SelectorSupported,
    /// Asks for the host's engine version, 2 or higher.
    EngineVersion,
    /// Asks the host to close and re-open the driver.
    ResetRequest,
    /// Not yet supported; always answered 0.
    BufferSizeChange,
    /// The driver went out of sync and asks for a restart.
    ResyncRequest,
    /// The driver's latencies have changed.
    LatenciesChanged,
    /// Asks whether the host expects the time-info form of the buffer-switch
    /// callback.
    SupportsTimeInfo,
    /// Asks whether the host consumes time code.
    SupportsTimeCode,
    /// Unused: media machine control commands.
    MMCCommand,
    /// Asks whether the host supports input monitoring.
    SupportsInputMonitor,
    /// Unused and undefined.
    SupportsInputGain,
    /// Unused and undefined.
    SupportsInputMeter,
    /// Unused and undefined.
    SupportsOutputGain,
    /// Unused and undefined.
    SupportsOutputMeter,
    /// The driver detected an overload.
    Overload,
    /// Count of the selectors; names no real message.
    NumMessageSelectors,
}

impl MessageSelector {
    /// The ABI value of this selector.
    pub open spec fn spec_code(self) -> int {
        match self {
            MessageSelector::SelectorSupported => 1,
            MessageSelector::EngineVersion => 2,
            MessageSelector::ResetRequest => 3,
            MessageSelector::BufferSizeChange => 4,
            MessageSelector::ResyncRequest => 5,
            MessageSelector::LatenciesChanged => 6,
            MessageSelector::SupportsTimeInfo => 7,
            MessageSelector::SupportsTimeCode => 8,
            MessageSelector::MMCCommand => 9,
            MessageSelector::SupportsInputMonitor => 10,
            MessageSelector::SupportsInputGain => 11,
            MessageSelector::SupportsInputMeter => 12,
            MessageSelector::SupportsOutputGain => 13,
            MessageSelector::SupportsOutputMeter => 14,
            MessageSelector::Overload => 15,
            MessageSelector::NumMessageSelectors => 16,
        }
    }

    /// Returns the ABI value of this selector.
    pub fn code(self) -> (r: i32)
        ensures
            r as int == self.spec_code(),
    {
        match self {
            MessageSelector::SelectorSupported => 1,
            MessageSelector::EngineVersion => 2,
            MessageSelector::ResetRequest => 3,
            MessageSelector::BufferSizeChange => 4,
            MessageSelector::ResyncRequest => 5,
            MessageSelector::LatenciesChanged => 6,
            MessageSelector::SupportsTimeInfo => 7,
            MessageSelector::SupportsTimeCode => 8,
            MessageSelector::MMCCommand => 9,
            MessageSelector::SupportsInputMonitor => 10,
            MessageSelector::SupportsInputGain => 11,
            MessageSelector::SupportsInputMeter => 12,
            MessageSelector::SupportsOutputGain => 13,
            MessageSelector::SupportsOutputMeter => 14,
            MessageSelector::Overload => 15,
            MessageSelector::NumMessageSelectors => 16,
        }
    }

    /// The selector a given ABI value names, if any.
    pub open spec fn spec_from_code(c: int) -> Option<MessageSelector> {
        if c == 1 {
            Some(MessageSelector::SelectorSupported)
        } else if c == 2 {
            Some(MessageSelector::EngineVersion)
        } else if c == 3 {
            Some(MessageSelector::ResetRequest)
        } else if c == 4 {
            Some(MessageSelector::BufferSizeChange)
        } else if c == 5 {
            Some(MessageSelector::ResyncRequest)
        } else if c == 6 {
            Some(MessageSelector::LatenciesChanged)
        } else if c == 7 {
            Some(MessageSelector::SupportsTimeInfo)
        } else if c == 8 {
            Some(MessageSelector::SupportsTimeCode)
        } else if c == 9 {
            Some(MessageSelector::MMCCommand)
        } else if c == 10 {
            Some(MessageSelector::SupportsInputMonitor)
        } else if c == 11 {
            Some(MessageSelector::SupportsInputGain)
        } else if c == 12 {
            Some(MessageSelector::SupportsInputMeter)
        } else if c == 13 {
            Some(MessageSelector::SupportsOutputGain)
        } else if c == 14 {
            Some(MessageSelector::SupportsOutputMeter)
        } else if c == 15 {
            Some(MessageSelector::Overload)
        } else {
            None
        }
    }

    /// Maps an ABI value back to its selector; `None` for a value that names
    /// no selector (the count sentinel included), which the message callback
    /// answers as "not supported".
    pub fn from_code(c: i32) -> (r: Option<MessageSelector>)
        ensures
            r == MessageSelector::spec_from_code(c as int),
    {
        match c {
            1 => Some(MessageSelector::SelectorSupported),
            2 => Some(MessageSelector::EngineVersion),
            3 => Some(MessageSelector::ResetRequest),
            4 => Some(MessageSelector::BufferSizeChange),
            5 => Some(MessageSelector::ResyncRequest),
            6 => Some(MessageSelector::LatenciesChanged),
            7 => Some(MessageSelector::SupportsTimeInfo),
            8 => Some(MessageSelector::SupportsTimeCode),
            9 => Some(MessageSelector::MMCCommand),
            10 => Some(MessageSelector::SupportsInputMonitor),
            11 => Some(MessageSelector::SupportsInputGain),
            12 => Some(MessageSelector::SupportsInputMeter),
            13 => Some(MessageSelector::SupportsOutputGain),
            14 => Some(MessageSelector::SupportsOutputMeter),
            15 => Some(MessageSelector::Overload),
            _ => None,
        }
    }
}

/// Future (extension) selectors a host may pass to the driver.
#[derive(Copy, Clone, Debug, PartialEq, Eq, Structural)]
pub enum FutureSelector {
    EnableTimeCodeRead,
    DisableTimeCodeRead,
    SetInputMonitor,
    Transport,
    SetInputGain,
    GetInputMeter,
    SetOutputGain,
    GetOutputMeter,
    CanInputMonitor,
    CanTimeInfo,
    CanTimeCode,
    CanTransport,
    CanInputGain,
    CanInputMeter,
    CanOutputGain,
    CanOutputMeter,
    OptionalOne,
    /// DSD support: sets the I/O format.
    SetIoFormat,
    /// DSD support: reads the I/O format.
    GetIoFormat,
    /// DSD support: asks whether the format can be used.
    CanDoIoFormat,
    /// Asks whether the driver can detect and report overloads.
    CanReportOverload,
    /// Asks for the driver's internal buffer sizes.
    GetInternalBufferSamples,
}

impl FutureSelector {
    /// The ABI value of this selector.
    pub open spec fn spec_code(self) -> int {
        match self {
            FutureSelector::EnableTimeCodeRead => 1,
            FutureSelector::DisableTimeCodeRead => 2,
            FutureSelector::SetInputMonitor => 3,
            FutureSelector::Transport => 4,
            FutureSelector::SetInputGain => 5,
            FutureSelector::GetInputMeter => 6,
            FutureSelector::SetOutputGain => 7,
            FutureSelector::GetOutputMeter => 8,
            FutureSelector::CanInputMonitor => 9,
            FutureSelector::CanTimeInfo => 10,
            FutureSelector::CanTimeCode => 11,
            FutureSelector::CanTransport => 12,
            FutureSelector::CanInputGain => 13,
            FutureSelector::CanInputMeter => 14,
            FutureSelector::CanOutputGain => 15,
            FutureSelector::CanOutputMeter => 16,
            FutureSelector::OptionalOne => 17,
            FutureSelector::SetIoFormat => 0x23111961,
            FutureSelector::GetIoFormat => 0x23111983,
            FutureSelector::CanDoIoFormat => 0x23112004,
            FutureSelector::CanReportOverload => 0x24042012,
            FutureSelector::GetInternalBufferSamples => 0x25042012,
        }
    }

    /// Returns the ABI value of this selector.
    pub fn code(self) -> (r: i32)
        ensures
            r as int == self.spec_code(),
    {
        match self {
            FutureSelector::EnableTimeCodeRead => 1,
            FutureSelector::DisableTimeCodeRead => 2,
            FutureSelector::SetInputMonitor => 3,
            FutureSelector::Transport => 4,
            FutureSelector::SetInputGain => 5,
            FutureSelector::GetInputMeter => 6,
            FutureSelector::SetOutputGain => 7,
            FutureSelector::GetOutputMeter => 8,
            FutureSelector::CanInputMonitor => 9,
            FutureSelector::CanTimeInfo => 10,
            FutureSelector::CanTimeCode => 11,
            FutureSelector::CanTransport => 12,
            FutureSelector::CanInputGain => 13,
            FutureSelector::CanInputMeter => 14,
            FutureSelector::CanOutputGain => 15,
            FutureSelector::CanOutputMeter => 16,
            FutureSelector::OptionalOne => 17,
            FutureSelector::SetIoFormat => 0x23111961,
            FutureSelector::GetIoFormat => 0x23111983,
            FutureSelector::CanDoIoFormat => 0x23112004,
            FutureSelector::CanReportOverload => 0x24042012,
            FutureSelector::GetInternalBufferSamples => 0x25042012,
        }
    }
}

/// Flags qualifying the time information of a callback.
#[derive(Copy, Clone, Debug, PartialEq, Eq, Structural)]
pub enum TimeInfoFlags {
    NoFlags,
    SystemTimeValid,
    SamplePositionValid,
    SampleRateValid,
    SpeedValid,
    SampleRateChanged,
    ClockSourceChanged,
}

impl TimeInfoFlags {
    /// The ABI bit of this flag.
    pub open spec fn spec_bit(self) -> int {
        match self {
            TimeInfoFlags::NoFlags => 0,
            TimeInfoFlags::SystemTimeValid => 1,
            TimeInfoFlags::SamplePositionValid => 2,
            TimeInfoFlags::SampleRateValid => 4,
            TimeInfoFlags::SpeedValid => 8,
            TimeInfoFlags::SampleRateChanged => 16,
            TimeInfoFlags::ClockSourceChanged => 32,
        }
    }

    /// Returns the ABI bit of this flag.
    pub fn bit(self) -> (r: u32)
        ensures
            r as int == self.spec_bit(),
    {
        match self {
            TimeInfoFlags::NoFlags => 0,
            TimeInfoFlags::SystemTimeValid => 1,
            TimeInfoFlags::SamplePositionValid => 2,
            TimeInfoFlags::SampleRateValid => 4,
            TimeInfoFlags::SpeedValid => 8,
            TimeInfoFlags::SampleRateChanged => 16,
            TimeInfoFlags::ClockSourceChanged => 32,
        }
    }
}

/// Flags qualifying a time code reading.
#[derive(Copy, Clone, Debug, PartialEq, Eq, Structural)]
pub enum TimeCodeFlags {
    NoFlags,
    TcValid,
    TcRunning,
    TcReverse,
    TcOnspeed,
    TcStill,
    TcSpeedValid,
}

impl TimeCodeFlags {
    /// The ABI bit of this flag.
    pub open spec fn spec_bit(self) -> int {
        match self {
            TimeCodeFlags::NoFlags => 0,
            TimeCodeFlags::TcValid => 1,
            TimeCodeFlags::TcRunning => 2,
            TimeCodeFlags::TcReverse => 4,
            TimeCodeFlags::TcOnspeed => 8,
            TimeCodeFlags::TcStill => 16,
            TimeCodeFlags::TcSpeedValid => 256,
        }
    }

    /// Returns the ABI bit of this flag.
    pub fn bit(self) -> (r: u32)
        ensures
            r as int == self.spec_bit(),
    {
        match self {
            TimeCodeFlags::NoFlags => 0,
            TimeCodeFlags::TcValid => 1,
            TimeCodeFlags::TcRunning => 2,
            TimeCodeFlags::TcReverse => 4,
            TimeCodeFlags::TcOnspeed => 8,
            TimeCodeFlags::TcStill => 16,
            TimeCodeFlags::TcSpeedValid => 256,
        }
    }
}

/// The record a driver fills when it is initialized: versions, its name, and
/// its last error message, as fixed-size NUL-padded byte fields. The system
/// reference is an opaque handle owned by the setup layer; this library never
/// dereferences it.
#[derive(Copy, Clone)]
pub struct DriverInfo {
    /// ASIO interface version the host speaks; currently 2.
    pub asio_version: i32,
    /// Driver-specific version number.
    pub driver_version: i32,
    /// Driver name, NUL-padded.
    pub name: [u8; 32],
    /// Last error message, NUL-padded.
    pub error_message: [u8; 124],
    /// Opaque system reference (a window handle on the host platform),
    /// supplied and consumed only by the setup layer.
    pub sys_ref: usize,
}

impl DriverInfo {
    /// A blank record for the driver to fill, announcing interface version 2.
    pub fn new() -> (r: DriverInfo)
        ensures
            r.asio_version == 2,
            r.driver_version == 0,
            forall|i: int| 0 <= i < 32 ==> r.name[i] == 0u8,
            forall|i: int| 0 <= i < 124 ==> r.error_message[i] == 0u8,
            r.sys_ref == 0,
    {
        DriverInfo {
            asio_version: 2,
            driver_version: 0,
            name: [0u8; 32],
            error_message: [0u8; 124],
            sys_ref: 0,
        }
    }
}

/// One clock source a driver offers.
#[derive(Copy, Clone, Debug)]
pub struct ClockSource {
    /// Index used to select this source.
    pub index: i32,
    /// Channel this clock is associated with.
    pub associated_channel: i32,
    /// Channel group this clock is associated with.
    pub associated_group: i32,
    /// Whether this is the current clock source.
    pub is_current_source: ASIOBool,
    /// Source name, NUL-padded.
    pub name: [u8; 32],
}

impl ClockSource {
    /// A blank record for the driver to fill.
    pub fn new() -> (r: ClockSource)
        ensures
            r.index == 0,
            r.associated_channel == 0,
            r.associated_group == 0,
            r.is_current_source == ASIOBool::False,
            forall|i: int| 0 <= i < 32 ==> r.name[i] == 0u8,
    {
        ClockSource {
            index: 0,
            associated_channel: 0,
            associated_group: 0,
            is_current_source: ASIOBool::False,
            name: [0u8; 32],
        }
    }
}

/// The channel description record exchanged with the driver: the host fills
/// the index and direction, the driver the rest.
#[derive(Copy, Clone, Debug)]
pub struct ChannelInfo {
    /// Channel index, set by the host.
    pub channel: i32,
    /// Direction, set by the host: input or output.
    pub is_input: ASIOBool,
    /// Whether the channel is active, set by the driver.
    pub is_active: ASIOBool,
    /// Channel group, set by the driver.
    pub channel_group: i32,
    /// Native sample format of the channel, set by the driver.
    pub sample_type: ASIOSampleType,
    /// Channel name, NUL-padded, set by the driver.
    pub name: [u8; 32],
}

impl ChannelInfo {
    /// A blank record: no direction, no format.
    pub fn new() -> (r: ChannelInfo)
        ensures
            r.channel == 0,
            r.is_input == ASIOBool::False,
            r.is_active == ASIOBool::False,
            r.channel_group == 0,
            r.sample_type == ASIOSampleType::LastEntry,
            forall|i: int| 0 <= i < 32 ==> r.name[i] == 0u8,
    {
        ChannelInfo {
            channel: 0,
            is_input: ASIOBool::False,
            is_active: ASIOBool::False,
            channel_group: 0,
            sample_type: ASIOSampleType::LastEntry,
            name: [0u8; 32],
        }
    }

    /// A query record for the given channel: direction and index set, the
    /// rest blank for the driver to fill.
    pub fn new_for(is_input: ASIOBool, channel: i32) -> (r: ChannelInfo)
        ensures
            r.channel == channel,
            r.is_input == is_input,
            r.is_active == ASIOBool::False,
            r.channel_group == 0,
            r.sample_type == ASIOSampleType::LastEntry,
            forall|i: int| 0 <= i < 32 ==> r.name[i] == 0u8,
    {
        let mut channel_info = ChannelInfo::new();
        channel_info.channel = channel;
        channel_info.is_input = is_input;
        channel_info
    }
}

/// The buffer request and answer record of buffer creation: the host names a
/// channel and direction; the driver answers with the two region handles of
/// the channel's double buffer. The handles are opaque to this library; the
/// setup layer alone turns them into memory.
#[derive(Copy, Clone, Debug)]
pub struct BufferInfo {
    /// Direction, set by the host: input or output.
    pub is_input: ASIOBool,
    /// Channel index, set by the host.
    pub channel_num: i32,
    /// The two region handles, answered by the driver; zero until then.
    pub buffers: [usize; 2],
}

impl BufferInfo {
    /// A blank request record.
    pub fn new() -> (r: BufferInfo)
        ensures
            r.is_input == ASIOBool::False,
            r.channel_num == 0,
            r.buffers[0] == 0,
            r.buffers[1] == 0,
    {
        BufferInfo { is_input: ASIOBool::False, channel_num: 0, buffers: [0usize; 2] }
    }
}

/// The prefix of a NUL-padded byte field before its first NUL: how driver
/// and channel names come out of the fixed-size ABI records.
pub fn bytes_before_nul(bytes: &[u8]) -> (r: Vec<u8>)
    ensures
        r@.len() <= bytes@.len(),
        forall|i: int| 0 <= i < r@.len() ==> r@[i] == bytes@[i] && r@[i] != 0u8,
        r@.len() < bytes@.len() ==> bytes@[r@.len() as int] == 0u8,
{
    let mut r: Vec<u8> = Vec::new();
    let mut i: usize = 0;
    while i < bytes.len()
        invariant
            i <= bytes@.len(),
            r@.len() == i,
            forall|j: int| 0 <= j < i ==> r@[j] == bytes@[j] && r@[j] != 0u8,
        decreases bytes@.len() - i,
    {
        if bytes[i] == 0 {
            return r;
        }
        r.push(bytes[i]);
        i = i + 1;
    }
    r
}

} // verus!
