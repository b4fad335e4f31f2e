use vstd::prelude::*;
use crate::bytes::{vec_i8_into_u8, vec_u8_into_i8};
use crate::config::{FlowMode, PortConfig};
use crate::driver;

verus! {

/// Why an attempt to open a port failed.
#[derive(Clone, Copy, Debug, PartialEq, Eq, Structural)]
pub enum OpenError {
    /// The device path did not exist when the handle was made.
    NoPath,
    /// The device path exists no longer.
    NotFound,
    /// The driver could not open the device.
    Driver,
}

/// What a handle holds, seen from outside: the captured path, the settings
/// and whether a session is open.
pub struct PortView {
    pub path: Option<Seq<char>>,
    pub config: PortConfig,
    pub open: bool,
}

impl PortView {
    /// A fresh handle: closed, keeping the path only if the device was present.
    pub open spec fn initial(path: Seq<char>, present: bool, config: PortConfig) -> PortView {
        PortView { path: if present { Some(path) } else { None }, config, open: false }
    }
}

/// A serial port handle: its configuration, fixed at construction, and at
/// most one open driver session, owned exclusively.
pub struct SerialPort {
    path: Option<String>,
    port: Option<serialport::TTYPort>,
    config: PortConfig,
}

impl View for SerialPort {
    type V = PortView;

    closed spec fn view(&self) -> PortView {
        PortView {
            path: match self.path {
                Some(p) => Some(p@),
                None => None,
            },
            config: self.config,
            open: self.port is Some,
        }
    }
}

/// What an open attempt does: success exactly when the handle ends open;
/// path and settings never change; an open handle and a handle without a
/// path are left exactly as they were; a failure changes nothing.
pub open spec fn open_post(before: SerialPort, after: SerialPort, succeeded: bool) -> bool {
    &&& succeeded == after@.open
    &&& after@.path == before@.path
    &&& after@.config == before@.config
    &&& before@.open ==> succeeded && after == before
    &&& before@.path is None ==> succeeded == before@.open && after == before
    &&& !succeeded ==> after == before
}

/// What closing does: it succeeds and leaves the handle closed with its path
/// and settings; a closed handle is left exactly as it was.
pub open spec fn close_post(before: SerialPort, after: SerialPort, succeeded: bool) -> bool {
    &&& succeeded
    &&& !after@.open
    &&& after@.path == before@.path
    &&& after@.config == before@.config
    &&& !before@.open ==> after == before
}

/// A buffer of `n` zero bytes.
fn zeroed(n: usize) -> (r: Vec<u8>)
    ensures
        r@ == Seq::new(n as nat, |i: int| 0u8),
{
    let mut r: Vec<u8> = Vec::with_capacity(n);
    let mut i: usize = 0;
    while i < n
        invariant
            i <= n,
            r@ == Seq::new(i as nat, |k: int| 0u8),
        decreases n - i,
    {
        r.push(0u8);
        i = i + 1;
    }
    r
}

/// The low 32 bits of `n`, read as a signed integer.
pub open spec fn i32_bits(n: int) -> i32 {
    let m = n % 0x1_0000_0000;
    if m <= i32::MAX {
        m as i32
    } else {
        (m - 0x1_0000_0000) as i32
    }
}

/// Keeps the low 32 bits of `n`, read as a signed integer.
fn low_bits_i32(n: u64) -> (r: i32)
    ensures
        r == i32_bits(n as int),
{
    let m: u64 = n % 0x1_0000_0000u64;
    if m <= 0x7fff_ffffu64 {
        m as i32
    } else {
        (m as i64 - 0x1_0000_0000i64) as i32
    }
}

/// The count the driver reported, as an `i32` with the same bits: zero
/// where it reported nothing, negative where the count does not fit.
pub fn reported_count(reported: Option<u32>) -> (r: i32)
    ensures
        r == match reported {
            Some(n) => i32_bits(n as int),
            None => 0i32,
        },
        reported matches Some(n) ==> (n <= i32::MAX ==> r == n),
{
    match reported {
        Some(n) => low_bits_i32(n as u64),
        None => 0,
    }
}

/// The code of the flow control mode the driver reported, or that of no
/// flow control where it reported nothing.
pub fn reported_flow_code(reported: Option<serialport::FlowControl>) -> (r: i32)
    ensures
        r == match reported {
            Some(f) => FlowMode::spec_from_driver(f).spec_code(),
            None => 0i32,
        },
{
    match reported {
        Some(f) => FlowMode::from_driver(f).code(),
        None => 0,
    }
}

/// The count of bytes the driver accepted, as an `i32` with its low 32
/// bits, or -1 where it failed.
pub fn written_count(reported: Option<usize>) -> (r: i32)
    ensures
        r == match reported {
            Some(n) => i32_bits(n as int),
            None => -1i32,
        },
        reported matches Some(n) ==> (n <= i32::MAX ==> r == n),
{
    match reported {
        Some(n) => low_bits_i32(n as u64),
        None => -1,
    }
}

impl SerialPort {
    /// Makes a closed handle. The path is kept only if something exists
    /// there now; codes that name no mode fall back to the defaults.
    pub fn new(
        path: &str,
        baud_rate: i32,
        data_bits: i32,
        flow_control: i32,
        parity: i32,
        stop_bits: i32,
        timeout: i32,
    ) -> (r: SerialPort)
        ensures
            r@ == PortView::initial(
                path@,
                r@.path is Some,
                PortConfig::spec_from_codes(baud_rate, data_bits, flow_control, parity, stop_bits, timeout),
            ),
    {
        let present = driver::path_exists(path);
        let config = PortConfig::from_codes(baud_rate, data_bits, flow_control, parity, stop_bits, timeout);
        Self::with_presence(path, present, config)
    }

    /// Makes a closed handle whose path is kept exactly when `present`.
    pub fn with_presence(path: &str, present: bool, config: PortConfig) -> (r: SerialPort)
        ensures
            r@ == PortView::initial(path@, present, config),
    {
        SerialPort {
            path: if present { Some(path.to_owned()) } else { None },
            port: None,
            config,
        }
    }

    /// The configuration captured at construction.
    pub fn config(&self) -> (r: PortConfig)
        ensures
            r == self@.config,
    {
        self.config
    }

    /// Whether a session is open.
    pub fn is_open(&self) -> (r: bool)
        ensures
            r == self@.open,
    {
        self.port.is_some()
    }

    /// Opens a session with the stored settings, telling why it could not.
    pub fn try_open(&mut self) -> (r: Result<(), OpenError>)
        ensures
            open_post(*old(self), *final(self), r is Ok),
            (r == Err::<(), OpenError>(OpenError::NoPath)) <==> (!old(self)@.open && old(self)@.path is None),
    {
        if self.port.is_some() {
            return Ok(());
        }
        match &self.path {
            None => Err(OpenError::NoPath),
            Some(path) => {
                if !driver::path_exists(path.as_str()) {
                    return Err(OpenError::NotFound);
                }
                let session = driver::open_session(
                    path.as_str(),
                    self.config.baud_rate,
                    self.config.data_bits.to_driver(),
                    self.config.flow_control.to_driver(),
                    self.config.parity.to_driver(),
                    self.config.stop_bits.to_driver(),
                    self.config.timeout_ms,
                );
                match session {
                    Ok(p) => {
                        self.port = Some(p);
                        Ok(())
                    },
                    Err(_) => Err(OpenError::Driver),
                }
            },
        }
    }

    /// Opens a session with the stored settings; true when the handle is open.
    pub fn open(&mut self) -> (r: bool)
        ensures
            open_post(*old(self), *final(self), r),
    {
        self.try_open().is_ok()
    }

    /// Releases the session, if any. Always succeeds.
    pub fn close(&mut self) -> (r: bool)
        ensures
            close_post(*old(self), *final(self), r),
    {
        if self.port.is_some() {
            self.port = None;
        }
        true
    }

    /// Bytes waiting to be read; 0 when closed or when the driver cannot tell.
    pub fn bytes_to_read(&mut self) -> (r: i32)
        ensures
            *final(self) == *old(self),
            !old(self)@.open ==> r == 0,
    {
        match &self.port {
            Some(p) => reported_count(driver::session_bytes_to_read(p)),
            None => 0,
        }
    }

    /// The code of the device's flow control mode (none 0, software 1,
    /// hardware 2); 0 when closed or when the driver cannot tell.
    pub fn flow_control(&mut self) -> (r: i32)
        ensures
            *final(self) == *old(self),
            0 <= r <= 2,
            !old(self)@.open ==> r == 0,
    {
        match &self.port {
            Some(p) => reported_flow_code(driver::session_flow_control(p)),
            None => 0,
        }
    }

    /// One read into a zeroed buffer of exactly `length` bytes, with the
    /// number of bytes transferred, or `None` where the handle is closed or
    /// the driver failed. Every byte past that number stays zero.
    pub fn read_counted(&mut self, length: usize) -> (r: (Vec<u8>, Option<usize>))
        ensures
            final(self)@ == old(self)@,
            r.0@.len() == length,
            r.1 matches Some(n) ==> n <= length,
            forall|i: int| 0 <= i < length && !(r.1 matches Some(n) && i < n) ==> r.0@[i] == 0u8,
            !old(self)@.open ==> *final(self) == *old(self) && r.1 is None,
    {
        let mut buf = zeroed(length);
        let got = match &mut self.port {
            Some(p) => driver::session_read(p, &mut buf),
            None => None,
        };
        (buf, got)
    }

    /// One read of at most `length` bytes into a zeroed buffer of exactly
    /// `length` bytes; errors leave the buffer as it stands. A closed handle
    /// gives `length` zeros.
    pub fn read(&mut self, length: i32) -> (r: Vec<i8>)
        requires
            0 <= length,
        ensures
            final(self)@ == old(self)@,
            r@.len() == length,
            !old(self)@.open ==> *final(self) == *old(self) && forall|i: int| 0 <= i < length ==> r@[i] == 0i8,
    {
        let (buf, _) = self.read_counted(length as usize);
        vec_u8_into_i8(buf)
    }

    /// Reads until `length` bytes have come or the timeout or an error stops
    /// it, into a zeroed buffer of exactly `length` bytes. A closed handle
    /// gives `length` zeros.
    pub fn read_exact(&mut self, length: i32) -> (r: Vec<i8>)
        requires
            0 <= length,
        ensures
            final(self)@ == old(self)@,
            r@.len() == length,
            !old(self)@.open ==> *final(self) == *old(self) && forall|i: int| 0 <= i < length ==> r@[i] == 0i8,
    {
        let mut buf = zeroed(length as usize);
        match &mut self.port {
            Some(p) => {
                let _ = driver::session_read_exact(p, &mut buf);
            },
            None => {},
        }
        vec_u8_into_i8(buf)
    }

    /// Everything read up to the end of input or the first error; empty when
    /// closed.
    pub fn read_to_eol(&mut self) -> (r: Vec<i8>)
        ensures
            final(self)@ == old(self)@,
            !old(self)@.open ==> *final(self) == *old(self) && r@.len() == 0,
    {
        let mut buf: Vec<u8> = Vec::new();
        match &mut self.port {
            Some(p) => {
                let _ = driver::session_read_to_end(p, &mut buf);
            },
            None => {},
        }
        vec_u8_into_i8(buf)
    }

    /// The carrier detect line; false when closed or when the query fails.
    pub fn read_carrier_detect(&mut self) -> (r: bool)
        ensures
            final(self)@ == old(self)@,
            !old(self)@.open ==> !r && *final(self) == *old(self),
    {
        match &mut self.port {
            Some(p) => driver::session_carrier_detect(p).unwrap_or(false),
            None => false,
        }
    }

    /// The clear to send line; false when closed or when the query fails.
    pub fn read_clear_to_send(&mut self) -> (r: bool)
        ensures
            final(self)@ == old(self)@,
            !old(self)@.open ==> !r && *final(self) == *old(self),
    {
        match &mut self.port {
            Some(p) => driver::session_clear_to_send(p).unwrap_or(false),
            None => false,
        }
    }

    /// The data set ready line; false when closed or when the query fails.
    pub fn read_data_set_ready(&mut self) -> (r: bool)
        ensures
            final(self)@ == old(self)@,
            !old(self)@.open ==> !r && *final(self) == *old(self),
    {
        match &mut self.port {
            Some(p) => driver::session_data_set_ready(p).unwrap_or(false),
            None => false,
        }
    }

    /// The ring indicator line; false when closed or when the query fails.
    pub fn read_ring_indicator(&mut self) -> (r: bool)
        ensures
            final(self)@ == old(self)@,
            !old(self)@.open ==> !r && *final(self) == *old(self),
    {
        match &mut self.port {
            Some(p) => driver::session_ring_indicator(p).unwrap_or(false),
            None => false,
        }
    }

    /// Writes the bytes; the count the driver accepted, or -1 when closed or
    /// when the driver fails.
    pub fn write(&mut self, buf: Vec<i8>) -> (r: i32)
        ensures
            final(self)@ == old(self)@,
            buf@.len() <= i32::MAX ==> r == -1 || 0 <= r <= buf@.len(),
            !old(self)@.open ==> r == -1 && *final(self) == *old(self),
    {
        let bytes = vec_i8_into_u8(buf);
        match &mut self.port {
            Some(p) => written_count(driver::session_write(p, &bytes)),
            None => -1,
        }
    }
}

/// A handle made where no device existed never opens, whatever its
/// settings: the attempt fails and leaves the handle untouched.
pub proof fn lemma_missing_path_never_opens(
    path: Seq<char>,
    config: PortConfig,
    before: SerialPort,
    after: SerialPort,
    succeeded: bool,
)
    requires
        before@ == PortView::initial(path, false, config),
        open_post(before, after, succeeded),
    ensures
        !succeeded,
        after == before,
{
}

/// Opening a handle that an earlier open left open succeeds again and
/// leaves it exactly as it was: the same single session.
pub proof fn lemma_reopen_keeps_session(
    first: SerialPort,
    second: SerialPort,
    third: SerialPort,
    opened: bool,
    reopened: bool,
)
    requires
        open_post(first, second, opened),
        opened,
        open_post(second, third, reopened),
    ensures
        reopened,
        third == second,
{
}

/// Closing twice in a row succeeds both times, and the second close changes
/// nothing.
pub proof fn lemma_close_idempotent(
    first: SerialPort,
    second: SerialPort,
    third: SerialPort,
    closed: bool,
    closed_again: bool,
)
    requires
        close_post(first, second, closed),
        close_post(second, third, closed_again),
    ensures
        closed && closed_again,
        third == second,
        !third@.open,
{
}

} // verus!
