use vstd::prelude::*;

verus! {

/// Number of bytes in the header that precedes every frame body.
pub const PACKET_HEADER_LENGTH: usize = 4;

/// The byte transport that carries frames to and from the sensor hub.
///
/// Nothing is assumed about what an implementation answers: every driver
/// operation states what holds for each possible answer.
pub trait SensorInterface {
    /// The failure that the transport reports.
    type SensorError;

    /// Prepares the transport for use.
    fn setup(&mut self) -> (res: Result<(), Self::SensorError>);

    /// Sends one complete frame, header included.
    fn send_packet(&mut self, packet: &[u8]) -> (res: Result<(), Self::SensorError>);

    /// Reads the next frame into `recv_buf` and answers with its length in
    /// bytes, or with zero when no frame is available.
    fn read_packet(&mut self, recv_buf: &mut [u8]) -> (res: Result<usize, Self::SensorError>);
}

} // verus!
