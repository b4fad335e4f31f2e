use vstd::prelude::*;

verus! {

/// Number of bits per character.
#[derive(Clone, Copy, Debug, PartialEq, Eq, Structural)]
pub enum CharSize {
    Five,
    Six,
    Seven,
    Eight,
}

/// Flow control mode of the link.
#[derive(Clone, Copy, Debug, PartialEq, Eq, Structural)]
pub enum FlowMode {
    Off,
    Software,
    Hardware,
}

/// Parity checking mode.
#[derive(Clone, Copy, Debug, PartialEq, Eq, Structural)]
pub enum ParityMode {
    Off,
    Odd,
    Even,
}

/// Number of stop bits.
#[derive(Clone, Copy, Debug, PartialEq, Eq, Structural)]
pub enum StopBitCount {
    One,
    Two,
}

impl CharSize {
    /// serialport's variant of the same width.
    pub open spec fn spec_to_driver(self) -> serialport::DataBits {
        match self {
            CharSize::Five => serialport::DataBits::Five,
            CharSize::Six => serialport::DataBits::Six,
            CharSize::Seven => serialport::DataBits::Seven,
            CharSize::Eight => serialport::DataBits::Eight,
        }
    }

    pub fn to_driver(&self) -> (r: serialport::DataBits)
        ensures
            r == self.spec_to_driver(),
    {
        match self {
            CharSize::Five => serialport::DataBits::Five,
            CharSize::Six => serialport::DataBits::Six,
            CharSize::Seven => serialport::DataBits::Seven,
            CharSize::Eight => serialport::DataBits::Eight,
        }
    }

    /// 5, 6, 7 and 8 name their width; any other code means eight bits.
    pub open spec fn spec_from_code(code: i32) -> CharSize {
        if code == 5 {
            CharSize::Five
        } else if code == 6 {
            CharSize::Six
        } else if code == 7 {
            CharSize::Seven
        } else {
            CharSize::Eight
        }
    }

    pub fn from_code(code: i32) -> (r: CharSize)
        ensures
            r == Self::spec_from_code(code),
    {
        match code {
            5 => CharSize::Five,
            6 => CharSize::Six,
            7 => CharSize::Seven,
            _ => CharSize::Eight,
        }
    }
}

impl FlowMode {
    /// serialport's variant of the same mode.
    pub open spec fn spec_to_driver(self) -> serialport::FlowControl {
        match self {
            FlowMode::Off => serialport::FlowControl::None,
            FlowMode::Software => serialport::FlowControl::Software,
            FlowMode::Hardware => serialport::FlowControl::Hardware,
        }
    }

    pub fn to_driver(&self) -> (r: serialport::FlowControl)
        ensures
            r == self.spec_to_driver(),
    {
        match self {
            FlowMode::Off => serialport::FlowControl::None,
            FlowMode::Software => serialport::FlowControl::Software,
            FlowMode::Hardware => serialport::FlowControl::Hardware,
        }
    }

    /// The mode that serialport's variant names.
    pub open spec fn spec_from_driver(f: serialport::FlowControl) -> FlowMode {
        match f {
            serialport::FlowControl::None => FlowMode::Off,
            serialport::FlowControl::Software => FlowMode::Software,
            serialport::FlowControl::Hardware => FlowMode::Hardware,
        }
    }

    pub fn from_driver(f: serialport::FlowControl) -> (r: FlowMode)
        ensures
            r == Self::spec_from_driver(f),
            r.spec_to_driver() == f,
    {
        match f {
            serialport::FlowControl::None => FlowMode::Off,
            serialport::FlowControl::Software => FlowMode::Software,
            serialport::FlowControl::Hardware => FlowMode::Hardware,
        }
    }

    /// 1 is software, 2 is hardware; any other code means no flow control.
    pub open spec fn spec_from_code(code: i32) -> FlowMode {
        if code == 1 {
            FlowMode::Software
        } else if code == 2 {
            FlowMode::Hardware
        } else {
            FlowMode::Off
        }
    }

    pub open spec fn spec_code(self) -> i32 {
        match self {
            FlowMode::Off => 0,
            FlowMode::Software => 1,
            FlowMode::Hardware => 2,
        }
    }

    pub fn from_code(code: i32) -> (r: FlowMode)
        ensures
            r == Self::spec_from_code(code),
    {
        match code {
            1 => FlowMode::Software,
            2 => FlowMode::Hardware,
            _ => FlowMode::Off,
        }
    }

    /// The integer code of the mode: none is 0, software 1, hardware 2.
    pub fn code(&self) -> (r: i32)
        ensures
            r == self.spec_code(),
            Self::spec_from_code(r) == *self,
    {
        match self {
            FlowMode::Off => 0,
            FlowMode::Software => 1,
            FlowMode::Hardware => 2,
        }
    }
}

impl ParityMode {
    /// serialport's variant of the same mode.
    pub open spec fn spec_to_driver(self) -> serialport::Parity {
        match self {
            ParityMode::Off => serialport::Parity::None,
            ParityMode::Odd => serialport::Parity::Odd,
            ParityMode::Even => serialport::Parity::Even,
        }
    }

    pub fn to_driver(&self) -> (r: serialport::Parity)
        ensures
            r == self.spec_to_driver(),
    {
        match self {
            ParityMode::Off => serialport::Parity::None,
            ParityMode::Odd => serialport::Parity::Odd,
            ParityMode::Even => serialport::Parity::Even,
        }
    }

    /// 1 is odd, 2 is even; any other code means no parity.
    pub open spec fn spec_from_code(code: i32) -> ParityMode {
        if code == 1 {
            ParityMode::Odd
        } else if code == 2 {
            ParityMode::Even
        } else {
            ParityMode::Off
        }
    }

    pub fn from_code(code: i32) -> (r: ParityMode)
        ensures
            r == Self::spec_from_code(code),
    {
        match code {
            1 => ParityMode::Odd,
            2 => ParityMode::Even,
            _ => ParityMode::Off,
        }
    }
}

impl StopBitCount {
    /// serialport's variant of the same count.
    pub open spec fn spec_to_driver(self) -> serialport::StopBits {
        match self {
            StopBitCount::One => serialport::StopBits::One,
            StopBitCount::Two => serialport::StopBits::Two,
        }
    }

    pub fn to_driver(&self) -> (r: serialport::StopBits)
        ensures
            r == self.spec_to_driver(),
    {
        match self {
            StopBitCount::One => serialport::StopBits::One,
            StopBitCount::Two => serialport::StopBits::Two,
        }
    }

    /// 2 is two stop bits; any other code means one.
    pub open spec fn spec_from_code(code: i32) -> StopBitCount {
        if code == 2 {
            StopBitCount::Two
        } else {
            StopBitCount::One
        }
    }

    pub fn from_code(code: i32) -> (r: StopBitCount)
        ensures
            r == Self::spec_from_code(code),
    {
        match code {
            2 => StopBitCount::Two,
            _ => StopBitCount::One,
        }
    }
}

/// The 32-bit pattern of `x` read as unsigned.
pub open spec fn u32_bits(x: i32) -> u32 {
    if x >= 0 {
        x as u32
    } else {
        (x + 0x1_0000_0000) as u32
    }
}

/// The 32-bit pattern of `x` sign-extended to 64 bits, read as unsigned.
pub open spec fn u64_bits(x: i32) -> u64 {
    if x >= 0 {
        x as u64
    } else {
        (x + 0x1_0000_0000_0000_0000) as u64
    }
}

/// The settings a port is opened with, fixed when the handle is made.
#[derive(Clone, Copy, Debug, PartialEq, Eq, Structural)]
pub struct PortConfig {
    pub baud_rate: u32,
    pub data_bits: CharSize,
    pub flow_control: FlowMode,
    pub parity: ParityMode,
    pub stop_bits: StopBitCount,
    /// Read and write timeout, in milliseconds.
    pub timeout_ms: u64,
}

impl PortConfig {
    pub open spec fn spec_from_codes(
        baud_rate: i32,
        data_bits: i32,
        flow_control: i32,
        parity: i32,
        stop_bits: i32,
        timeout: i32,
    ) -> PortConfig {
        PortConfig {
            baud_rate: u32_bits(baud_rate),
            data_bits: CharSize::spec_from_code(data_bits),
            flow_control: FlowMode::spec_from_code(flow_control),
            parity: ParityMode::spec_from_code(parity),
            stop_bits: StopBitCount::spec_from_code(stop_bits),
            timeout_ms: u64_bits(timeout),
        }
    }

    /// Decodes the integer settings; a code that names no mode takes the
    /// default of its field instead of failing.
    pub fn from_codes(
        baud_rate: i32,
        data_bits: i32,
        flow_control: i32,
        parity: i32,
        stop_bits: i32,
        timeout: i32,
    ) -> (r: PortConfig)
        ensures
            r == Self::spec_from_codes(baud_rate, data_bits, flow_control, parity, stop_bits, timeout),
    {
        let baud: u32 = if baud_rate >= 0 {
            baud_rate as u32
        } else {
            (baud_rate as i64 + 0x1_0000_0000i64) as u32
        };
        let timeout_ms: u64 = if timeout >= 0 {
            timeout as u64
        } else {
            (timeout as i128 + 0x1_0000_0000_0000_0000i128) as u64
        };
        PortConfig {
            baud_rate: baud,
            data_bits: CharSize::from_code(data_bits),
            flow_control: FlowMode::from_code(flow_control),
            parity: ParityMode::from_code(parity),
            stop_bits: StopBitCount::from_code(stop_bits),
            timeout_ms,
        }
    }
}

/// Codes outside the recognised ones never make construction fail: each
/// field falls back to eight data bits, no flow control, no parity and one
/// stop bit.
pub proof fn lemma_unrecognized_codes_fall_back(
    baud_rate: i32,
    data_bits: i32,
    flow_control: i32,
    parity: i32,
    stop_bits: i32,
    timeout: i32,
)
    requires
        !(5 <= data_bits <= 8),
        !(1 <= flow_control <= 2),
        !(1 <= parity <= 2),
        !(1 <= stop_bits <= 2),
    ensures
        ({
            let c = PortConfig::spec_from_codes(baud_rate, data_bits, flow_control, parity, stop_bits, timeout);
            &&& c.data_bits == CharSize::Eight
            &&& c.flow_control == FlowMode::Off
            &&& c.parity == ParityMode::Off
            &&& c.stop_bits == StopBitCount::One
        }),
{
}

} // verus!
