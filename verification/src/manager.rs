//! The session manager: the operations on named ports, and the state of
//! each port between them.
//!
//! A port is closed or open, and open exactly while the manager holds its
//! handle. The manager does no I/O. Where an operation needs the driver, the
//! manager first decides whether the driver is asked at all, and hands back
//! what to ask for; the caller asks, and reports how the driver answered:
//!
//! - opening: `open_port`, the driver's open, `finish_open`;
//! - reconfiguring: `update_settings`, the driver's open, `finish_open`;
//! - writing: `write_data`, the driver's write, `write_completed`, the
//!   driver's flush, `flush_completed`;
//! - reading: `read_data`, the driver's read, `read_completed`.
//!
//! A caller that shares a manager keeps it locked from `open_port` or
//! `update_settings` to the end of `finish_open`.

use crate::error::{view_of, ComPortError, ComPortResult, ErrorView};
use crate::ports::{
    describe_ports, listing_of, views_of, DetectedPort, PortInfo, PortInfoView,
};
use crate::registry::PortRegistry;
use crate::settings::{DataBits, FlowControl, Parity, PortSettings, StopBits};
use crate::transfer::{read_buffer, READ_TIMEOUT_SECS, WRITE_TIMEOUT_SECS};
use vstd::prelude::*;
use vstd::string::*;

verus! {

/// What the driver is asked for when a port is to be opened.
#[derive(Debug, Clone, PartialEq, Eq)]
pub struct OpenRequest {
    pub port_name: String,
    pub baud_rate: u32,
    pub data_bits: DataBits,
    pub stop_bits: StopBits,
    pub parity: Parity,
    pub flow_control: FlowControl,
    /// The read timeout that the driver applies to the handle, in
    /// milliseconds.
    pub timeout_ms: u64,
}

/// An `OpenRequest` with the port's name as a sequence of characters.
pub struct OpenRequestView {
    pub port_name: Seq<char>,
    pub baud_rate: u32,
    pub data_bits: DataBits,
    pub stop_bits: StopBits,
    pub parity: Parity,
    pub flow_control: FlowControl,
    pub timeout_ms: u64,
}

impl View for OpenRequest {
    type V = OpenRequestView;

    open spec fn view(&self) -> OpenRequestView {
        OpenRequestView {
            port_name: self.port_name@,
            baud_rate: self.baud_rate,
            data_bits: self.data_bits,
            stop_bits: self.stop_bits,
            parity: self.parity,
            flow_control: self.flow_control,
            timeout_ms: self.timeout_ms,
        }
    }
}

/// What the driver is asked for when bytes are to be written: write `data`
/// to `handle`, then flush it, each within `timeout_secs` seconds.
pub struct WriteRequest<'a, H> {
    pub handle: &'a H,
    pub data: &'a [u8],
    pub timeout_secs: u64,
}

/// What the driver is asked for when bytes are to be read: read from
/// `handle` into `buffer`, within `timeout_secs` seconds.
pub struct ReadRequest<'a, H> {
    pub handle: &'a H,
    pub buffer: Vec<u8>,
    pub timeout_secs: u64,
}

/// What `open_port` answers where `open` are the names of the open ports.
///
/// An open port is refused whatever the settings are. Settings with a field
/// outside its set are refused next. Only then is there a request for the
/// driver, which carries the settings' values unchanged.
pub open spec fn open_decision(
    open: Set<Seq<char>>,
    port_name: Seq<char>,
    settings: PortSettings,
) -> Result<OpenRequestView, ErrorView> {
    if open.contains(port_name) {
        Err(ErrorView::PortAlreadyOpen(port_name))
    } else {
        match settings.line_config() {
            Err(complaint) => Err(ErrorView::InvalidConfiguration(complaint)),
            Ok(line) => Ok(
                OpenRequestView {
                    port_name,
                    baud_rate: settings.baud_rate,
                    data_bits: line.data_bits,
                    stop_bits: line.stop_bits,
                    parity: line.parity,
                    flow_control: line.flow_control,
                    timeout_ms: settings.timeout_ms,
                },
            ),
        }
    }
}

/// What `update_settings` answers where `open` are the names of the open
/// ports: a closed port is refused; an open one is closed, and then opened
/// like any closed port.
pub open spec fn reconfigure_decision(
    open: Set<Seq<char>>,
    port_name: Seq<char>,
    settings: PortSettings,
) -> Result<OpenRequestView, ErrorView> {
    if open.contains(port_name) {
        open_decision(open.remove(port_name), port_name, settings)
    } else {
        Err(ErrorView::PortNotOpen(port_name))
    }
}

/// The detail of the error for a port that the driver did not open.
pub open spec fn open_failure_detail(port_name: Seq<char>, cause: Seq<char>) -> Seq<char> {
    "Failed to open serial port: "@ + port_name + ": "@ + cause
}

/// What `finish_open` answers where `ports` are the open ports and
/// `outcome` is the driver's handle or its complaint.
pub open spec fn open_answer<H>(
    ports: Map<Seq<char>, H>,
    port_name: Seq<char>,
    outcome: Result<H, String>,
) -> Result<(), ErrorView> {
    match outcome {
        Err(cause) => Err(ErrorView::OpenFailed(open_failure_detail(port_name, cause@))),
        Ok(_) => if ports.contains_key(port_name) {
            Err(ErrorView::PortAlreadyOpen(port_name))
        } else {
            Ok(())
        },
    }
}

/// The open ports after `finish_open`: the port is added with the driver's
/// handle where `open_answer` is `Ok`, and nothing changes where it is not.
pub open spec fn after_open<H>(
    ports: Map<Seq<char>, H>,
    port_name: Seq<char>,
    outcome: Result<H, String>,
) -> Map<Seq<char>, H> {
    match outcome {
        Ok(handle) if !ports.contains_key(port_name) => ports.insert(port_name, handle),
        _ => ports,
    }
}

/// What `close_port` answers where `open` are the names of the open ports.
pub open spec fn close_answer(open: Set<Seq<char>>, port_name: Seq<char>) -> Result<
    (),
    ErrorView,
> {
    if open.contains(port_name) {
        Ok(())
    } else {
        Err(ErrorView::PortNotOpen(port_name))
    }
}

/// The session manager for serial ports.
///
/// `H` is the handle of an open port, as the driver gives it. The manager
/// owns the handle of every open port: dropping a handle closes its port.
pub struct ComPortManager<H> {
    ports: PortRegistry<H>,
}

impl<H> View for ComPortManager<H> {
    type V = Map<Seq<char>, H>;

    /// The open ports: each one's name with its handle.
    closed spec fn view(&self) -> Map<Seq<char>, H> {
        self.ports@
    }
}

impl<H> ComPortManager<H> {
    /// A manager with no open port.
    pub fn new() -> (manager: Self)
        ensures
            manager@ == Map::<Seq<char>, H>::empty(),
    {
        ComPortManager { ports: PortRegistry::new() }
    }

    /// Describes the ports that the driver's enumeration found, or reports
    /// the failed enumeration as `IoError`. The open ports play no part.
    pub fn list_ports(&self, detected: Result<Vec<DetectedPort>, String>) -> (listing:
        ComPortResult<Vec<PortInfo>>)
        ensures
            match listing {
                Ok(list) => listing_of(detected) == Ok::<Seq<PortInfoView>, ErrorView>(
                    views_of(list@),
                ),
                Err(error) => listing_of(detected) == Err::<Seq<PortInfoView>, ErrorView>(error@),
            },
    {
        describe_ports(detected)
    }

    /// Decides whether the port may be opened with these settings.
    ///
    /// `Ok` carries what the driver is to be asked for: the caller asks it,
    /// and hands the driver's answer to `finish_open`. On an error the
    /// driver is not asked. The open ports stay as they are.
    pub fn open_port(&self, port_name: &str, settings: PortSettings) -> (request: ComPortResult<
        OpenRequest,
    >)
        ensures
            view_of(request) == open_decision(self@.dom(), port_name@, settings),
    {
        if self.ports.contains(port_name) {
            return Err(ComPortError::PortAlreadyOpen(String::from_str(port_name)));
        }
        let line = settings.validate()?;
        Ok(
            OpenRequest {
                port_name: String::from_str(port_name),
                baud_rate: settings.baud_rate,
                data_bits: line.data_bits,
                stop_bits: line.stop_bits,
                parity: line.parity,
                flow_control: line.flow_control,
                timeout_ms: settings.timeout_ms,
            },
        )
    }

    /// Settles an opening with the driver's answer to `request`.
    ///
    /// A handle makes the port open, and the manager keeps the handle. The
    /// driver's complaint gives `OpenFailed`, which names the port and the
    /// complaint, and the port stays closed. Should the port be open by
    /// now, it stays as it is, the new handle is dropped, and the answer is
    /// `PortAlreadyOpen`.
    pub fn finish_open(&mut self, request: OpenRequest, outcome: Result<H, String>) -> (answer:
        ComPortResult<()>)
        ensures
            view_of(answer) == open_answer(old(self)@, request.port_name@, outcome),
            final(self)@ == after_open(old(self)@, request.port_name@, outcome),
    {
        match outcome {
            Err(cause) => {
                let detail = String::from_str("Failed to open serial port: ").concat(
                    request.port_name.as_str(),
                ).concat(": ").concat(cause.as_str());
                Err(ComPortError::OpenFailed(detail))
            },
            Ok(handle) => {
                let port_name = request.port_name;
                let name = port_name.clone();
                match self.ports.insert(port_name, handle) {
                    Ok(()) => Ok(()),
                    Err(_) => Err(ComPortError::PortAlreadyOpen(name)),
                }
            },
        }
    }

    /// Closes an open port and drops its handle; `PortNotOpen` for a port
    /// that is not open.
    pub fn close_port(&mut self, port_name: &str) -> (answer: ComPortResult<()>)
        ensures
            view_of(answer) == close_answer(old(self)@.dom(), port_name@),
            final(self)@ == old(self)@.remove(port_name@),
    {
        match self.ports.remove(port_name) {
            Some(_) => Ok(()),
            None => Err(ComPortError::PortNotOpen(String::from_str(port_name))),
        }
    }

    /// Whether the port is open.
    pub fn is_port_open(&self, port_name: &str) -> (open: bool)
        ensures
            open == self@.contains_key(port_name@),
    {
        self.ports.contains(port_name)
    }

    /// Prepares a write of `data` to an open port; `PortNotOpen` for a
    /// port that is not open.
    ///
    /// `Ok` carries what the driver is to be asked for. The caller hands
    /// the ending of the write to `write_completed`, and the ending of the
    /// flush after it to `flush_completed`.
    pub fn write_data<'a>(&'a self, port_name: &str, data: &'a [u8]) -> (request: ComPortResult<
        WriteRequest<'a, H>,
    >)
        ensures
            match request {
                Ok(request) => self@.contains_key(port_name@) && *request.handle
                    == self@[port_name@] && request.data@ == data@ && request.timeout_secs
                    == WRITE_TIMEOUT_SECS,
                Err(error) => !self@.contains_key(port_name@) && error@ == ErrorView::PortNotOpen(
                    port_name@,
                ),
            },
    {
        match self.ports.get(port_name) {
            Some(handle) => Ok(WriteRequest { handle, data, timeout_secs: WRITE_TIMEOUT_SECS }),
            None => Err(ComPortError::PortNotOpen(String::from_str(port_name))),
        }
    }

    /// Prepares a read of up to `buffer_size` bytes from an open port;
    /// `PortNotOpen` for a port that is not open.
    ///
    /// `Ok` carries what the driver is to be asked for, with a buffer of
    /// `buffer_size` zero bytes. The caller hands the buffer and the ending
    /// of the read to `read_completed`.
    pub fn read_data<'a>(&'a self, port_name: &str, buffer_size: usize) -> (request:
        ComPortResult<ReadRequest<'a, H>>)
        ensures
            match request {
                Ok(request) => self@.contains_key(port_name@) && *request.handle
                    == self@[port_name@] && request.buffer@ == Seq::new(
                    buffer_size as nat,
                    |i: int| 0u8,
                ) && request.timeout_secs == READ_TIMEOUT_SECS,
                Err(error) => !self@.contains_key(port_name@) && error@ == ErrorView::PortNotOpen(
                    port_name@,
                ),
            },
    {
        match self.ports.get(port_name) {
            Some(handle) => Ok(
                ReadRequest {
                    handle,
                    buffer: read_buffer(buffer_size),
                    timeout_secs: READ_TIMEOUT_SECS,
                },
            ),
            None => Err(ComPortError::PortNotOpen(String::from_str(port_name))),
        }
    }

    /// Closes an open port in order to open it again with new settings;
    /// `PortNotOpen` for a port that is not open, which changes nothing.
    ///
    /// An open port is closed first, whatever the settings are. `Ok` then
    /// carries what the driver is to be asked for, as from `open_port`, and
    /// the caller goes on to `finish_open`. Where the settings are refused,
    /// or the driver does not open the port, the port stays closed: the
    /// earlier configuration is not restored.
    pub fn update_settings(&mut self, port_name: &str, settings: PortSettings) -> (request:
        ComPortResult<OpenRequest>)
        ensures
            view_of(request) == reconfigure_decision(old(self)@.dom(), port_name@, settings),
            final(self)@ == old(self)@.remove(port_name@),
    {
        match self.ports.remove(port_name) {
            None => Err(ComPortError::PortNotOpen(String::from_str(port_name))),
            Some(_) => self.open_port(port_name, settings),
        }
    }

    /// Closes every open port and drops the handles.
    pub fn close_all_ports(&mut self)
        ensures
            final(self)@ == Map::<Seq<char>, H>::empty(),
    {
        self.ports.clear();
    }
}

impl<H> Default for ComPortManager<H> {
    /// A manager with no open port.
    fn default() -> (manager: Self)
        ensures
            manager@ == Map::<Seq<char>, H>::empty(),
    {
        ComPortManager::new()
    }
}

} // verus!
