//! The serial driver as this library sees it: serialport's types, and one
//! small trusted function per driver call.

use vstd::prelude::*;

verus! {

/// An open device session of serialport (its unix port type).
#[verifier::external_type_specification]
#[verifier::external_body]
pub struct ExTTYPort(serialport::TTYPort);

/// The error that serialport reports when a device cannot be opened.
#[verifier::external_type_specification]
#[verifier::external_body]
pub struct ExError(serialport::Error);

/// serialport's settings enums. Their variants carry no data and are read
/// by Verus, so the conversions to and from the library's own settings are
/// verified.
#[verifier::external_type_specification]
pub struct ExDataBits(serialport::DataBits);

#[verifier::external_type_specification]
pub struct ExFlowControl(serialport::FlowControl);

#[verifier::external_type_specification]
pub struct ExParity(serialport::Parity);

#[verifier::external_type_specification]
pub struct ExStopBits(serialport::StopBits);

/// Relies on std's Path::exists: whether the path names something on disk
/// right now. Nothing is promised, since the answer depends on the disk.
#[verifier::external_body]
pub(crate) fn path_exists(path: &str) -> (r: bool) {
    std::path::Path::new(path).exists()
}

/// Relies on serialport::new and its builder, then TTYPort::open: opens the
/// device at `path` with these settings, or reports why it could not.
#[verifier::external_body]
pub(crate) fn open_session(
    path: &str,
    baud_rate: u32,
    data_bits: serialport::DataBits,
    flow_control: serialport::FlowControl,
    parity: serialport::Parity,
    stop_bits: serialport::StopBits,
    timeout_ms: u64,
) -> (r: Result<serialport::TTYPort, serialport::Error>) {
    let builder = serialport::new(path, baud_rate)
        .data_bits(data_bits)
        .flow_control(flow_control)
        .parity(parity)
        .stop_bits(stop_bits)
        .timeout(std::time::Duration::from_millis(timeout_ms));
    serialport::TTYPort::open(&builder)
}

/// Relies on io::Read::read of TTYPort, a libc read: one read into `buf`,
/// which keeps its length. On success the count is at most that length and
/// the bytes from the count on keep their value; on failure nothing changes.
#[verifier::external_body]
pub(crate) fn session_read(p: &mut serialport::TTYPort, buf: &mut Vec<u8>) -> (r: Option<usize>)
    ensures
        final(buf)@.len() == old(buf)@.len(),
        r matches Some(n) ==> n <= old(buf)@.len(),
        r matches Some(n) ==> forall|i: int|
            n <= i < old(buf)@.len() ==> final(buf)@[i] == old(buf)@[i],
        r is None ==> final(buf)@ == old(buf)@,
{
    std::io::Read::read(p, buf.as_mut_slice()).ok()
}

/// Relies on io::Read::read_exact of TTYPort: reads until `buf` is full or an
/// error (a timeout among them) stops it; `buf` keeps its length.
#[verifier::external_body]
pub(crate) fn session_read_exact(p: &mut serialport::TTYPort, buf: &mut Vec<u8>) -> (r: bool)
    ensures
        final(buf)@.len() == old(buf)@.len(),
{
    std::io::Read::read_exact(p, buf.as_mut_slice()).is_ok()
}

/// Relies on io::Read::read_to_end of TTYPort: whatever is read, up to the
/// end of input or an error, is appended to `buf`.
#[verifier::external_body]
pub(crate) fn session_read_to_end(p: &mut serialport::TTYPort, buf: &mut Vec<u8>) -> (r: Option<usize>)
    ensures
        old(buf)@.is_prefix_of(final(buf)@),
{
    std::io::Read::read_to_end(p, buf).ok()
}

/// Relies on io::Write::write of TTYPort: on success the count of bytes
/// accepted is at most the length of `buf`.
#[verifier::external_body]
pub(crate) fn session_write(p: &mut serialport::TTYPort, buf: &Vec<u8>) -> (r: Option<usize>)
    ensures
        r matches Some(n) ==> n <= buf@.len(),
{
    std::io::Write::write(p, buf.as_slice()).ok()
}

/// Relies on SerialPort::bytes_to_read of TTYPort: bytes waiting in the
/// input buffer, if the driver can tell.
#[verifier::external_body]
pub(crate) fn session_bytes_to_read(p: &serialport::TTYPort) -> (r: Option<u32>) {
    serialport::SerialPort::bytes_to_read(p).ok()
}

/// Relies on SerialPort::flow_control of TTYPort: the mode the device is in,
/// if the driver can tell.
#[verifier::external_body]
pub(crate) fn session_flow_control(p: &serialport::TTYPort) -> (r: Option<serialport::FlowControl>) {
    serialport::SerialPort::flow_control(p).ok()
}

/// Relies on SerialPort::read_carrier_detect of TTYPort.
#[verifier::external_body]
pub(crate) fn session_carrier_detect(p: &mut serialport::TTYPort) -> (r: Option<bool>) {
    serialport::SerialPort::read_carrier_detect(p).ok()
}

/// Relies on SerialPort::read_clear_to_send of TTYPort.
#[verifier::external_body]
pub(crate) fn session_clear_to_send(p: &mut serialport::TTYPort) -> (r: Option<bool>) {
    serialport::SerialPort::read_clear_to_send(p).ok()
}

/// Relies on SerialPort::read_data_set_ready of TTYPort.
#[verifier::external_body]
pub(crate) fn session_data_set_ready(p: &mut serialport::TTYPort) -> (r: Option<bool>) {
    serialport::SerialPort::read_data_set_ready(p).ok()
}

/// Relies on SerialPort::read_ring_indicator of TTYPort.
#[verifier::external_body]
pub(crate) fn session_ring_indicator(p: &mut serialport::TTYPort) -> (r: Option<bool>) {
    serialport::SerialPort::read_ring_indicator(p).ok()
}

} // verus!
