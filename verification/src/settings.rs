//! Port settings as a caller writes them, and the line configuration that
//! valid settings stand for.

use crate::error::{ComPortError, ErrorView};
use crate::text::{decimal, decimal_string, same_text};
use vstd::prelude::*;
use vstd::string::*;

verus! {

/// Baud rate of the default settings.
pub const DEFAULT_BAUD_RATE: u32 = 115200;

/// Read timeout hint of the default settings, in milliseconds.
pub const DEFAULT_TIMEOUT_MS: u64 = 1000;

/// Number of bits in a character on the line.
#[derive(Debug, Clone, Copy, PartialEq, Eq, Structural)]
pub enum DataBits {
    Five,
    Six,
    Seven,
    Eight,
}

/// Number of bits that end a character on the line.
#[derive(Debug, Clone, Copy, PartialEq, Eq, Structural)]
pub enum StopBits {
    One,
    Two,
}

/// Parity checking on the line.
#[derive(Debug, Clone, Copy, PartialEq, Eq, Structural)]
pub enum Parity {
    /// No parity bit; its name in settings is `None`.
    Off,
    Odd,
    Even,
}

/// Flow control on the line.
#[derive(Debug, Clone, Copy, PartialEq, Eq, Structural)]
pub enum FlowControl {
    /// No flow control; its name in settings is `None`.
    Off,
    Software,
    Hardware,
}

/// The four line parameters of valid settings.
#[derive(Debug, Clone, Copy, PartialEq, Eq, Structural)]
pub struct LineConfig {
    pub data_bits: DataBits,
    pub stop_bits: StopBits,
    pub parity: Parity,
    pub flow_control: FlowControl,
}

/// The data bits that a count stands for, if it is one of 5, 6, 7, 8.
pub open spec fn data_bits_of(count: u8) -> Option<DataBits> {
    if count == 5 {
        Some(DataBits::Five)
    } else if count == 6 {
        Some(DataBits::Six)
    } else if count == 7 {
        Some(DataBits::Seven)
    } else if count == 8 {
        Some(DataBits::Eight)
    } else {
        None
    }
}

/// The stop bits that a count stands for, if it is 1 or 2.
pub open spec fn stop_bits_of(count: u8) -> Option<StopBits> {
    if count == 1 {
        Some(StopBits::One)
    } else if count == 2 {
        Some(StopBits::Two)
    } else {
        None
    }
}

/// The parity that a name stands for: `None`, `Odd` or `Even`, spelled so.
pub open spec fn parity_named(name: Seq<char>) -> Option<Parity> {
    if name == "None"@ {
        Some(Parity::Off)
    } else if name == "Odd"@ {
        Some(Parity::Odd)
    } else if name == "Even"@ {
        Some(Parity::Even)
    } else {
        None
    }
}

/// The flow control that a name stands for: `None`, `Software` or
/// `Hardware`, spelled so.
pub open spec fn flow_control_named(name: Seq<char>) -> Option<FlowControl> {
    if name == "None"@ {
        Some(FlowControl::Off)
    } else if name == "Software"@ {
        Some(FlowControl::Software)
    } else if name == "Hardware"@ {
        Some(FlowControl::Hardware)
    } else {
        None
    }
}

impl DataBits {
    /// Reads a count of data bits.
    pub fn from_count(count: u8) -> (bits: Option<DataBits>)
        ensures
            bits == data_bits_of(count),
    {
        if count == 5 {
            Some(DataBits::Five)
        } else if count == 6 {
            Some(DataBits::Six)
        } else if count == 7 {
            Some(DataBits::Seven)
        } else if count == 8 {
            Some(DataBits::Eight)
        } else {
            None
        }
    }
}

impl StopBits {
    /// Reads a count of stop bits.
    pub fn from_count(count: u8) -> (bits: Option<StopBits>)
        ensures
            bits == stop_bits_of(count),
    {
        if count == 1 {
            Some(StopBits::One)
        } else if count == 2 {
            Some(StopBits::Two)
        } else {
            None
        }
    }
}

impl Parity {
    /// Reads the name of a parity.
    pub fn from_name(name: &str) -> (parity: Option<Parity>)
        ensures
            parity == parity_named(name@),
    {
        if same_text(name, "None") {
            Some(Parity::Off)
        } else if same_text(name, "Odd") {
            Some(Parity::Odd)
        } else if same_text(name, "Even") {
            Some(Parity::Even)
        } else {
            None
        }
    }
}

impl FlowControl {
    /// Reads the name of a flow control.
    pub fn from_name(name: &str) -> (flow: Option<FlowControl>)
        ensures
            flow == flow_control_named(name@),
    {
        if same_text(name, "None") {
            Some(FlowControl::Off)
        } else if same_text(name, "Software") {
            Some(FlowControl::Software)
        } else if same_text(name, "Hardware") {
            Some(FlowControl::Hardware)
        } else {
            None
        }
    }
}

/// Settings for opening a port, as a caller supplies them.
///
/// Data bits and stop bits are counts, parity and flow control are names;
/// `validate` says which values are accepted. The baud rate is not checked
/// here: the driver knows what the hardware can do. `timeout_ms` is the read
/// timeout that the driver is asked to apply. The five line states are
/// accepted and carried, and never applied to the hardware.
#[derive(Debug, Clone, PartialEq, Eq)]
pub struct PortSettings {
    pub baud_rate: u32,
    pub data_bits: u8,
    pub stop_bits: u8,
    pub parity: String,
    pub flow_control: String,
    pub timeout_ms: u64,
    pub rts: Option<bool>,
    pub cts: Option<bool>,
    pub dtr: Option<bool>,
    pub dsr: Option<bool>,
    pub dcd: Option<bool>,
}

impl PortSettings {
    /// The line configuration of these settings, or the complaint about the
    /// first field that is outside its set. The fields are looked at in the
    /// order parity, flow control, stop bits, data bits.
    pub open spec fn line_config(&self) -> Result<LineConfig, Seq<char>> {
        match parity_named(self.parity@) {
            None => Err("Invalid parity: "@ + self.parity@),
            Some(parity) => match flow_control_named(self.flow_control@) {
                None => Err("Invalid flow control: "@ + self.flow_control@),
                Some(flow_control) => match stop_bits_of(self.stop_bits) {
                    None => Err("Invalid stop bits: "@ + decimal(self.stop_bits as nat)),
                    Some(stop_bits) => match data_bits_of(self.data_bits) {
                        None => Err("Invalid data bits: "@ + decimal(self.data_bits as nat)),
                        Some(data_bits) => Ok(
                            LineConfig { data_bits, stop_bits, parity, flow_control },
                        ),
                    },
                },
            },
        }
    }

    /// Whether every checked field is inside its set.
    pub open spec fn is_valid(&self) -> bool {
        self.line_config() is Ok
    }

    /// Checks the settings. Valid settings give their line configuration;
    /// others give `InvalidConfiguration`, naming the first offending field
    /// and its value.
    pub fn validate(&self) -> (checked: Result<LineConfig, ComPortError>)
        ensures
            match checked {
                Ok(line) => self.line_config() == Ok::<LineConfig, Seq<char>>(line),
                Err(error) => self.line_config() matches Err(complaint) && error@
                    == ErrorView::InvalidConfiguration(complaint),
            },
    {
        let parity = match Parity::from_name(self.parity.as_str()) {
            Some(parity) => parity,
            None => {
                let complaint = String::from_str("Invalid parity: ").concat(self.parity.as_str());
                return Err(ComPortError::InvalidConfiguration(complaint));
            },
        };
        let flow_control = match FlowControl::from_name(self.flow_control.as_str()) {
            Some(flow_control) => flow_control,
            None => {
                let complaint = String::from_str("Invalid flow control: ").concat(
                    self.flow_control.as_str(),
                );
                return Err(ComPortError::InvalidConfiguration(complaint));
            },
        };
        let stop_bits = match StopBits::from_count(self.stop_bits) {
            Some(stop_bits) => stop_bits,
            None => {
                let digits = decimal_string(self.stop_bits as u64);
                let complaint = String::from_str("Invalid stop bits: ").concat(digits.as_str());
                return Err(ComPortError::InvalidConfiguration(complaint));
            },
        };
        let data_bits = match DataBits::from_count(self.data_bits) {
            Some(data_bits) => data_bits,
            None => {
                let digits = decimal_string(self.data_bits as u64);
                let complaint = String::from_str("Invalid data bits: ").concat(digits.as_str());
                return Err(ComPortError::InvalidConfiguration(complaint));
            },
        };
        Ok(LineConfig { data_bits, stop_bits, parity, flow_control })
    }
}

impl Default for PortSettings {
    /// 115200 baud, eight data bits, no parity, one stop bit, no flow
    /// control, a read timeout hint of one second, no line state set.
    fn default() -> (settings: PortSettings)
        ensures
            settings.baud_rate == DEFAULT_BAUD_RATE,
            settings.data_bits == 8,
            settings.stop_bits == 1,
            settings.parity@ == "None"@,
            settings.flow_control@ == "None"@,
            settings.timeout_ms == DEFAULT_TIMEOUT_MS,
            settings.rts is None,
            settings.cts is None,
            settings.dtr is None,
            settings.dsr is None,
            settings.dcd is None,
            settings.line_config() == Ok::<LineConfig, Seq<char>>(
                LineConfig {
                    data_bits: DataBits::Eight,
                    stop_bits: StopBits::One,
                    parity: Parity::Off,
                    flow_control: FlowControl::Off,
                },
            ),
    {
        PortSettings {
            baud_rate: DEFAULT_BAUD_RATE,
            data_bits: 8,
            stop_bits: 1,
            parity: String::from_str("None"),
            flow_control: String::from_str("None"),
            timeout_ms: DEFAULT_TIMEOUT_MS,
            rts: None,
            cts: None,
            dtr: None,
            dsr: None,
            dcd: None,
        }
    }
}

} // verus!
