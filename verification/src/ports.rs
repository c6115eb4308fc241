//! The ports that the system shows, and how each is described to a caller.

use crate::error::{ComPortError, ComPortResult, ErrorView};
use crate::text::{decimal, decimal_string};
use vstd::prelude::*;
use vstd::string::*;

verus! {

/// How a port is attached, as the driver reports it.
#[derive(Debug, Clone, Copy, PartialEq, Eq, Structural)]
pub enum PortType {
    /// Attached over USB, with the device's vendor and product id.
    Usb { vid: u16, pid: u16 },
    /// Attached over Bluetooth.
    Bluetooth,
    /// Attached over PCI.
    Pci,
    /// The driver cannot tell.
    Unknown,
}

/// One port of the driver's enumeration.
#[derive(Debug, Clone, PartialEq, Eq)]
pub struct DetectedPort {
    pub port_name: String,
    pub port_type: PortType,
}

/// The description of a port to a caller.
#[derive(Debug, Clone, PartialEq, Eq)]
pub struct PortInfo {
    pub name: String,
    pub description: Option<String>,
    pub vid: Option<u16>,
    pub pid: Option<u16>,
}

/// A `PortInfo` with its texts as sequences of characters.
pub struct PortInfoView {
    pub name: Seq<char>,
    pub description: Option<Seq<char>>,
    pub vid: Option<u16>,
    pub pid: Option<u16>,
}

impl View for PortInfo {
    type V = PortInfoView;

    open spec fn view(&self) -> PortInfoView {
        PortInfoView {
            name: self.name@,
            description: match self.description {
                Some(text) => Some(text@),
                None => None,
            },
            vid: self.vid,
            pid: self.pid,
        }
    }
}

/// The descriptions in a list, each taken by its view.
pub open spec fn views_of(list: Seq<PortInfo>) -> Seq<PortInfoView> {
    Seq::new(list.len(), |i: int| list[i]@)
}

/// The detail of the error that a failed enumeration gives.
pub open spec fn enumeration_failure_detail() -> Seq<char> {
    "Failed to enumerate available serial ports"@
}

/// The words for a kind of port: none for a kind that the driver cannot
/// tell; for a USB port, its two ids in decimal.
pub open spec fn description_of(port_type: PortType) -> Option<Seq<char>> {
    match port_type {
        PortType::Usb { vid, pid } => Some(
            "USB Serial Port ("@ + decimal(vid as nat) + " "@ + decimal(pid as nat) + ")"@,
        ),
        PortType::Bluetooth => Some("Bluetooth Serial Port"@),
        PortType::Pci => Some("PCI Serial Port"@),
        PortType::Unknown => None,
    }
}

/// The description of a detected port: its name, the words for its kind,
/// and the vendor and product id where the port is a USB port.
pub open spec fn port_info_of(port: DetectedPort) -> PortInfoView {
    PortInfoView {
        name: port.port_name@,
        description: description_of(port.port_type),
        vid: match port.port_type {
            PortType::Usb { vid, pid } => Some(vid),
            _ => None,
        },
        pid: match port.port_type {
            PortType::Usb { vid, pid } => Some(pid),
            _ => None,
        },
    }
}

/// What an enumeration gives a caller: the description of each detected
/// port, in the driver's order, or an I/O error where the driver failed.
pub open spec fn listing_of(detected: Result<Vec<DetectedPort>, String>) -> Result<
    Seq<PortInfoView>,
    ErrorView,
> {
    match detected {
        Ok(ports) => Ok(Seq::new(ports@.len(), |i: int| port_info_of(ports@[i]))),
        Err(_) => Err(ErrorView::IoError(enumeration_failure_detail())),
    }
}

impl PortInfo {
    /// Describes one detected port.
    pub fn describe(port: &DetectedPort) -> (info: PortInfo)
        ensures
            info@ == port_info_of(*port),
    {
        let name = port.port_name.clone();
        match port.port_type {
            PortType::Usb { vid, pid } => {
                let vendor = decimal_string(vid as u64);
                let product = decimal_string(pid as u64);
                let description = String::from_str("USB Serial Port (").concat(
                    vendor.as_str(),
                ).concat(" ").concat(product.as_str()).concat(")");
                PortInfo { name, description: Some(description), vid: Some(vid), pid: Some(pid) }
            },
            PortType::Bluetooth => PortInfo {
                name,
                description: Some(String::from_str("Bluetooth Serial Port")),
                vid: None,
                pid: None,
            },
            PortType::Pci => PortInfo {
                name,
                description: Some(String::from_str("PCI Serial Port")),
                vid: None,
                pid: None,
            },
            PortType::Unknown => PortInfo { name, description: None, vid: None, pid: None },
        }
    }
}

/// Turns the driver's enumeration into the list shown to a caller.
///
/// `detected` is what the driver's enumeration returned: the ports, or the
/// driver's complaint. A failed enumeration is reported as `IoError`.
pub fn describe_ports(detected: Result<Vec<DetectedPort>, String>) -> (listing: ComPortResult<
    Vec<PortInfo>,
>)
    ensures
        match listing {
            Ok(list) => listing_of(detected) == Ok::<Seq<PortInfoView>, ErrorView>(
                views_of(list@),
            ),
            Err(error) => listing_of(detected) == Err::<Seq<PortInfoView>, ErrorView>(error@),
        },
{
    match detected {
        Err(_) => Err(
            ComPortError::IoError(String::from_str("Failed to enumerate available serial ports")),
        ),
        Ok(ports) => {
            let mut list: Vec<PortInfo> = Vec::new();
            let mut i: usize = 0;
            while i < ports.len()
                invariant
                    i <= ports.len(),
                    list@.len() == i,
                    forall|k: int| 0 <= k < i ==> (#[trigger] list@[k])@ == port_info_of(ports@[k]),
                decreases ports.len() - i,
            {
                let info = PortInfo::describe(&ports[i]);
                list.push(info);
                i += 1;
            }
            assert(views_of(list@) =~= Seq::new(
                ports@.len(),
                |i: int| port_info_of(ports@[i]),
            ));
            Ok(list)
        },
    }
}

} // verus!
