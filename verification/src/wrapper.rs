use vstd::prelude::*;
use crate::codec::{
    body_of, build_frame, frame_bytes, frame_len, header_of, le_bytes, parse_frame, well_framed,
    PACKET_RECV_BUF_LEN, PACKET_SEND_BUF_LEN,
};
use crate::dispatch::{
    classify, route, Dispatch, CHANNEL_EXECUTABLE, CHANNEL_HUB_CONTROL, SENSORHUB_PROD_ID_RESP,
    SENSOR_REPORTID_ROTATION_VECTOR,
};
use crate::init::{drain_pause, pause_after, InitStage, InitStep, DRAIN_PAUSE_MS, RESET_SETTLE_MS};
use crate::interface::{SensorInterface, PACKET_HEADER_LENGTH};
use crate::sequencer::NUM_CHANNELS;
use crate::state::{DeviceState, DeviceStateView};

verus! {

/// The ways in which a driver operation can fail.
#[derive(Debug)]
pub enum WrapperError<E> {
    /// The transport reported a failure.
    CommError(E),
    /// Invalid chip ID was read
    InvalidChipId(u8),
    /// Unsupported sensor firmware version
    InvalidFWVersion(u8),
    /// A received frame contradicts its own length field or record lengths.
    CorruptFrame,
    /// The body handed over for sending does not fit in one frame.
    BodyTooLong(usize),
}

/// One exchange between the driver and its transport: what the driver
/// asked for and what the transport answered.
pub enum Exchange<E> {
    /// The transport was set up.
    SetUp(Result<(), E>),
    /// These bytes were handed over for sending.
    Sent(Seq<u8>, Result<(), E>),
    /// A frame was read into the receive buffer.
    Read(Result<usize, E>),
}

/// The driver of one sensor hub behind a transport of type `SI`.
pub struct BNO080<SI: SensorInterface> {
    sensor_interface: SI,
    /// flags and per channel sequence numbers
    state: DeviceState,
    /// buffer for building and sending packet to the sensor hub
    packet_send_buf: [u8; PACKET_SEND_BUF_LEN],
    /// buffer for building packets received from the sensor hub
    packet_recv_buf: [u8; PACKET_RECV_BUF_LEN],
    /// every exchange with the transport so far, oldest first
    exchanges: Ghost<Seq<Exchange<SI::SensorError>>>,
}

/// The mathematical content of a driver whose transport fails with `E`.
pub struct DriverView<E> {
    /// Flags and sequence counters.
    pub state: DeviceStateView,
    /// The send buffer: the last frame built lies at its start.
    pub send_buf: Seq<u8>,
    /// The receive buffer: the last frame read lies at its start.
    pub recv_buf: Seq<u8>,
    /// Every exchange with the transport so far, oldest first.
    pub exchanges: Seq<Exchange<E>>,
}

impl<E> DriverView<E> {
    /// What the transport answered to the latest exchange, a read.
    pub open spec fn last_read(self) -> Result<usize, E> {
        self.exchanges.last()->Read_0
    }

    /// What the transport answered to the latest exchange, a send.
    pub open spec fn last_answer(self) -> Result<(), E> {
        self.exchanges.last()->Sent_1
    }

    /// The exchange number `index` of those made since `before`.
    pub open spec fn since(self, before: Seq<Exchange<E>>, index: int) -> Exchange<E> {
        self.exchanges[before.len() + index]
    }
}

/// The driver's answer for an answer of the transport: a failure becomes
/// `CommError`, anything else passes.
pub open spec fn wrapped<T, E>(outcome: Result<T, E>) -> Result<T, WrapperError<E>> {
    match outcome {
        Ok(value) => Ok(value),
        Err(e) => Err(WrapperError::CommError(e)),
    }
}

/// The length that a receive answered with, and zero for a failed one.
pub open spec fn length_of<E>(outcome: Result<usize, E>) -> usize {
    match outcome {
        Ok(n) => n,
        Err(_) => 0,
    }
}

/// How the frame in the first `received_len` bytes of `bytes` is routed, or
/// `None` when those bytes are no whole frame or its body is malformed.
pub open spec fn decode(bytes: Seq<u8>, received_len: int) -> Option<Dispatch> {
    if well_framed(bytes, received_len) {
        route(header_of(bytes).channel, body_of(bytes, received_len))
    } else {
        None
    }
}

/// The state after the frame in the first `received_len` bytes of `bytes`
/// has been delivered: a malformed frame leaves the state as it was.
pub open spec fn delivered(state: DeviceStateView, bytes: Seq<u8>, received_len: int)
    -> DeviceStateView {
    match decode(bytes, received_len) {
        Some(dispatch) => state.after(dispatch),
        None => state,
    }
}

/// What one read does to a driver: the read is the latest exchange, the
/// receive buffer holds whatever the transport wrote, and nothing else has
/// changed.
pub open spec fn read_once<E>(before: DriverView<E>, after: DriverView<E>) -> bool {
    &&& after.exchanges == before.exchanges.push(Exchange::Read(after.last_read()))
    &&& after.state == before.state
    &&& after.send_buf == before.send_buf
}

impl<SI: SensorInterface> View for BNO080<SI> {
    type V = DriverView<SI::SensorError>;

    closed spec fn view(&self) -> DriverView<SI::SensorError> {
        DriverView {
            state: self.state@,
            send_buf: self.packet_send_buf@,
            recv_buf: self.packet_recv_buf@,
            exchanges: self.exchanges@,
        }
    }
}

impl<SI: SensorInterface> BNO080<SI> {
    /// A driver that owns `sensor_interface`, with no flag set, every
    /// sequence counter at zero, both buffers cleared and no exchange made.
    pub fn new_with_interface(sensor_interface: SI) -> (driver: Self)
        ensures
            driver@.state == DeviceStateView::initial(),
            driver@.send_buf == Seq::new(PACKET_SEND_BUF_LEN as nat, |i: int| 0u8),
            driver@.recv_buf == Seq::new(PACKET_RECV_BUF_LEN as nat, |i: int| 0u8),
            driver@.exchanges == Seq::<Exchange<SI::SensorError>>::empty(),
    {
        let driver = BNO080 {
            sensor_interface,
            state: DeviceState::new(),
            packet_send_buf: [0; PACKET_SEND_BUF_LEN],
            packet_recv_buf: [0; PACKET_RECV_BUF_LEN],
            exchanges: Ghost(Seq::empty()),
        };
        assert(driver@.send_buf =~= Seq::new(PACKET_SEND_BUF_LEN as nat, |i: int| 0u8));
        assert(driver@.recv_buf =~= Seq::new(PACKET_RECV_BUF_LEN as nat, |i: int| 0u8));
        driver
    }

    /// Both buffers keep their capacity and there is a counter per channel.
    pub proof fn lemma_shape(&self)
        ensures
            self@.send_buf.len() == PACKET_SEND_BUF_LEN,
            self@.recv_buf.len() == PACKET_RECV_BUF_LEN,
            self@.state.per_channel_sequence.len() == NUM_CHANNELS,
    {
        self.state.lemma_channels();
    }

    /// Whether the hub has announced that a reset has completed.
    pub fn reset_complete(&self) -> (flag: bool)
        ensures
            flag == self@.state.reset_complete,
    {
        self.state.reset_complete()
    }

    /// Whether the hub has answered a product id request.
    pub fn product_id_verified(&self) -> (flag: bool)
        ensures
            flag == self@.state.product_id_verified,
    {
        self.state.product_id_verified()
    }

    /// The number of the last frame sent on `channel`.
    pub fn sequence_number(&self, channel: u8) -> (sequence: u8)
        requires
            channel < NUM_CHANNELS,
        ensures
            sequence == self@.state.per_channel_sequence[channel as int],
    {
        self.state.sequence_number(channel)
    }

    /// Routes the frame that occupies the first `received_len` bytes of the
    /// receive buffer and updates the flags. A malformed frame is refused and
    /// changes nothing. The transport is not touched.
    pub fn handle_received_packet(&mut self, received_len: usize) -> (res: Result<
        (),
        WrapperError<SI::SensorError>,
    >)
        ensures
            final(self)@.send_buf == old(self)@.send_buf,
            final(self)@.recv_buf == old(self)@.recv_buf,
            final(self)@.exchanges == old(self)@.exchanges,
            final(self)@.state == delivered(
                old(self)@.state,
                old(self)@.recv_buf,
                received_len as int,
            ),
            res is Ok <==> decode(old(self)@.recv_buf, received_len as int) is Some,
            res is Err ==> res->Err_0 is CorruptFrame,
    {
        let routed = match parse_frame(self.packet_recv_buf.as_slice(), received_len) {
            Some((header, body)) => classify(header.channel, body),
            None => None,
        };
        match routed {
            Some(dispatch) => {
                self.state.record(dispatch);
                Ok(())
            },
            None => Err(WrapperError::CorruptFrame),
        }
    }

    /// Read one packet into the receive buffer: one read on the transport,
    /// whose answer is handed on as it came, its length, or its failure as
    /// `CommError`.
    pub fn receive_packet(&mut self) -> (res: Result<usize, WrapperError<SI::SensorError>>)
        ensures
            read_once(old(self)@, final(self)@),
            res == wrapped(final(self)@.last_read()),
    {
        self.packet_recv_buf[0] = 0;
        self.packet_recv_buf[1] = 0;
        let outcome = self.sensor_interface.read_packet(&mut self.packet_recv_buf);
        self.exchanges = Ghost(self.exchanges@.push(Exchange::Read(outcome)));
        comm_result(outcome)
    }

    /// Receive and ignore one message: one read on the transport. Answers
    /// with the length read, and with zero when the transport failed.
    pub fn eat_one_message(&mut self) -> (received_len: usize)
        ensures
            read_once(old(self)@, final(self)@),
            received_len == length_of(final(self)@.last_read()),
    {
        let res = self.receive_packet();
        length_or_zero(&res)
    }

    /// Delivers the frame that a receive answered with. Answers with the
    /// number of messages handled: one for a frame that is not empty, whether
    /// or not its content was understood, and none for an empty or a failed
    /// receive, which changes nothing. The transport is not touched.
    pub fn deliver_received(
        &mut self,
        received: &Result<usize, WrapperError<SI::SensorError>>,
    ) -> (msg_count: u32)
        ensures
            final(self)@.send_buf == old(self)@.send_buf,
            final(self)@.recv_buf == old(self)@.recv_buf,
            final(self)@.exchanges == old(self)@.exchanges,
            match *received {
                Ok(received_len) if received_len > 0 => {
                    &&& msg_count == 1
                    &&& final(self)@.state == delivered(
                        old(self)@.state,
                        old(self)@.recv_buf,
                        received_len as int,
                    )
                },
                _ => msg_count == 0 && final(self)@ == old(self)@,
            },
    {
        let received_len: usize = length_or_zero(received);
        if received_len > 0 {
            let _ = self.handle_received_packet(received_len);
            1
        } else {
            0
        }
    }

    /// Makes one read on the transport and, unless it was empty or failed,
    /// delivers the frame that now lies in the receive buffer. Answers with
    /// the number of messages handled: a frame counts whether or not its
    /// content was understood.
    pub fn handle_one_message(&mut self) -> (msg_count: u32)
        ensures
            final(self)@.send_buf == old(self)@.send_buf,
            final(self)@.exchanges == old(self)@.exchanges.push(
                Exchange::Read(final(self)@.last_read()),
            ),
            match final(self)@.last_read() {
                Ok(received_len) if received_len > 0 => {
                    &&& msg_count == 1
                    &&& final(self)@.state == delivered(
                        old(self)@.state,
                        final(self)@.recv_buf,
                        received_len as int,
                    )
                },
                _ => msg_count == 0 && final(self)@.state == old(self)@.state,
            },
    {
        let res = self.receive_packet();
        self.deliver_received(&res)
    }

    /// Builds the frame for `body_data` on `channel` under the channel's next
    /// sequence number and hands it to the transport. Answers with the
    /// frame's length, or with the transport's failure as `CommError`. A
    /// body that does not fit in the send buffer is refused before anything
    /// changes.
    pub fn send_packet(&mut self, channel: u8, body_data: &[u8]) -> (res: Result<
        usize,
        WrapperError<SI::SensorError>,
    >)
        requires
            channel < NUM_CHANNELS,
        ensures
            frame_len(body_data@) > PACKET_SEND_BUF_LEN ==> {
                &&& res is Err
                &&& res->Err_0 == WrapperError::<SI::SensorError>::BodyTooLong(body_data@.len() as usize)
                &&& final(self)@ == old(self)@
            },
            frame_len(body_data@) <= PACKET_SEND_BUF_LEN ==> {
                &&& sent(old(self)@, final(self)@, channel, body_data@)
                &&& res == match final(self)@.last_answer() {
                    Ok(_) => Ok::<usize, WrapperError<SI::SensorError>>(
                        frame_len(body_data@) as usize,
                    ),
                    Err(e) => Err(WrapperError::CommError(e)),
                }
            },
    {
        if body_data.len() > PACKET_SEND_BUF_LEN - 4 {
            return Err(WrapperError::BodyTooLong(body_data.len()));
        }
        let sequence: u8 = self.state.next_sequence(channel);
        let built = build_frame(&mut self.packet_send_buf, channel, sequence, body_data);
        let packet_length: usize = match built {
            Some(n) => n,
            None => 0,
        };
        let frame = vstd::slice::slice_subrange(self.packet_send_buf.as_slice(), 0, packet_length);
        let ghost bytes = frame@;
        let answer = self.sensor_interface.send_packet(frame);
        self.exchanges = Ghost(self.exchanges@.push(Exchange::Sent(bytes, answer)));
        match answer {
            Ok(()) => Ok(packet_length),
            Err(e) => Err(WrapperError::CommError(e)),
        }
    }

    /// Send a packet and receive the response: the frame is handed to the
    /// transport and, unless that failed, one read follows, whose answer is
    /// handed on as it came.
    pub fn send_and_receive_packet(&mut self, channel: u8, body_data: &[u8]) -> (res: Result<
        usize,
        WrapperError<SI::SensorError>,
    >)
        requires
            channel < NUM_CHANNELS,
        ensures
            frame_len(body_data@) > PACKET_SEND_BUF_LEN ==> {
                &&& res is Err
                &&& res->Err_0 == WrapperError::<SI::SensorError>::BodyTooLong(body_data@.len() as usize)
                &&& final(self)@ == old(self)@
            },
            frame_len(body_data@) <= PACKET_SEND_BUF_LEN ==> {
                &&& final(self)@.state == old(self)@.state.after_send(channel)
                &&& asked(old(self)@.exchanges, final(self)@, channel, body_data@)
                &&& final(self)@.since(old(self)@.exchanges, 0)->Sent_1 is Err
                    ==> final(self)@.recv_buf == old(self)@.recv_buf
                &&& res == answer_to(old(self)@.exchanges, final(self)@)
            },
    {
        match self.send_packet(channel, body_data) {
            Ok(_) => self.receive_packet(),
            Err(e) => Err(e),
        }
    }

    /// Asks the hub to reset itself. No answer is awaited and no flag is
    /// cleared.
    pub fn soft_reset(&mut self) -> (res: Result<(), WrapperError<SI::SensorError>>)
        ensures
            sent(old(self)@, final(self)@, CHANNEL_EXECUTABLE, soft_reset_command()),
            res == wrapped(final(self)@.last_answer()),
    {
        let data: [u8; 1] = [EXECUTABLE_DEVICE_CMD_RESET];
        proof {
            assert(data@ =~= soft_reset_command());
        }
        match self.send_packet(CHANNEL_EXECUTABLE, data.as_slice()) {
            Ok(_) => Ok(()),
            Err(e) => Err(e),
        }
    }

    /// Tell the sensor to start reporting the fused rotation vector
    /// on a regular cadence. Note that the maximum valid update rate
    /// is 1 kHz, based on the max update rate of the sensor's gyros.
    pub fn enable_rotation_vector(&mut self, millis_between_reports: u16) -> (res: Result<
        (),
        WrapperError<SI::SensorError>,
    >)
        ensures
            sent(
                old(self)@,
                final(self)@,
                CHANNEL_HUB_CONTROL,
                set_feature_body(SENSOR_REPORTID_ROTATION_VECTOR, millis_between_reports),
            ),
            res == wrapped(final(self)@.last_answer()),
    {
        self.enable_report(SENSOR_REPORTID_ROTATION_VECTOR, millis_between_reports)
    }

    /// Enable a particular report: asks the hub to deliver report `report_id`
    /// every `millis_between_reports` milliseconds. No answer is awaited.
    pub fn enable_report(&mut self, report_id: u8, millis_between_reports: u16) -> (res: Result<
        (),
        WrapperError<SI::SensorError>,
    >)
        ensures
            sent(
                old(self)@,
                final(self)@,
                CHANNEL_HUB_CONTROL,
                set_feature_body(report_id, millis_between_reports),
            ),
            res == wrapped(final(self)@.last_answer()),
    {
        let cmd_body: [u8; 17] = set_feature_command(report_id, millis_between_reports);
        match self.send_packet(CHANNEL_HUB_CONTROL, cmd_body.as_slice()) {
            Ok(_) => Ok(()),
            Err(e) => Err(e),
        }
    }

    /// Asks the hub for its product id and reads one frame in answer. The
    /// product id counts as verified when that frame has a body that starts
    /// with the product id response code; any other frame is an invalid chip
    /// id, and a failure of the transport is handed on.
    pub fn verify_product_id(&mut self) -> (res: Result<(), WrapperError<SI::SensorError>>)
        ensures
            asked(old(self)@.exchanges, final(self)@, CHANNEL_HUB_CONTROL, product_id_request()),
            res == product_id_verdict(old(self)@.exchanges, final(self)@),
            final(self)@.state == if res is Ok {
                old(self)@.state.after_send(CHANNEL_HUB_CONTROL).verified()
            } else {
                old(self)@.state.after_send(CHANNEL_HUB_CONTROL)
            },
    {
        let cmd_body: [u8; 2] = [SENSORHUB_PROD_ID_REQ, 0];
        proof {
            assert(cmd_body@ =~= product_id_request());
        }
        let recv_len: usize = match self.send_and_receive_packet(
            CHANNEL_HUB_CONTROL,
            cmd_body.as_slice(),
        ) {
            Ok(n) => n,
            Err(e) => {
                return Err(e);
            },
        };
        self.confirm_product_id(recv_len)
    }

    /// Judges the answer of `recv_len` bytes that lies in the receive buffer:
    /// a product id response marks the product id as verified, anything else
    /// is an invalid chip id and changes nothing. The transport is not
    /// touched.
    pub fn confirm_product_id(&mut self, recv_len: usize) -> (res: Result<
        (),
        WrapperError<SI::SensorError>,
    >)
        ensures
            final(self)@.send_buf == old(self)@.send_buf,
            final(self)@.recv_buf == old(self)@.recv_buf,
            final(self)@.exchanges == old(self)@.exchanges,
            res == judged::<SI::SensorError>(old(self)@.recv_buf, recv_len),
            final(self)@.state == if res is Ok {
                old(self)@.state.verified()
            } else {
                old(self)@.state
            },
    {
        if is_product_id_response(self.packet_recv_buf.as_slice(), recv_len) {
            self.state.mark_product_id_verified();
            Ok(())
        } else {
            Err(WrapperError::InvalidChipId(0))
        }
    }

    /// Drains one frame: one read on the transport. Answers with the pause
    /// owed before the next one, and with `None` when the read was empty or
    /// failed.
    pub fn drain_step(&mut self) -> (pause: Option<u8>)
        ensures
            read_once(old(self)@, final(self)@),
            pause == pause_after(length_of(final(self)@.last_read())),
    {
        let received_len: usize = self.eat_one_message();
        drain_pause(received_len)
    }

    /// Takes the step of the start-up handshake that belongs to `stage` and
    /// says what follows.
    ///
    /// At `Start` the transport is set up and the reset command is sent; at
    /// `Settling` one frame is read and discarded; at `Draining` one more
    /// frame is drained, and after an empty read the product id is verified.
    /// Each pause is the caller's to keep. A transport failure during setup,
    /// sending or verification ends the handshake; one while discarding or
    /// draining counts as an empty read.
    pub fn init_step(&mut self, stage: InitStage) -> (res: Result<
        InitStep,
        WrapperError<SI::SensorError>,
    >)
        ensures
            stage == InitStage::Start ==> started(old(self)@, final(self)@, res),
            stage == InitStage::Settling ==> {
                &&& read_once(old(self)@, final(self)@)
                &&& res == Ok::<InitStep, WrapperError<SI::SensorError>>(
                    InitStep::Pause(RESET_SETTLE_MS, InitStage::Draining),
                )
            },
            stage == InitStage::Draining ==> drained(old(self)@, final(self)@, res),
    {
        match stage {
            InitStage::Start => {
                let answer = self.sensor_interface.setup();
                self.exchanges = Ghost(self.exchanges@.push(Exchange::SetUp(answer)));
                match answer {
                    Ok(()) => {},
                    Err(e) => {
                        return Err(WrapperError::CommError(e));
                    },
                }
                match self.soft_reset() {
                    Ok(()) => Ok(InitStep::Pause(RESET_SETTLE_MS, InitStage::Settling)),
                    Err(e) => Err(e),
                }
            },
            InitStage::Settling => {
                let _ = self.eat_one_message();
                Ok(InitStep::Pause(RESET_SETTLE_MS, InitStage::Draining))
            },
            InitStage::Draining => {
                match self.drain_step() {
                    Some(_) => Ok(InitStep::Pause(DRAIN_PAUSE_MS, InitStage::Draining)),
                    None => {
                        match self.verify_product_id() {
                            Ok(()) => Ok(InitStep::Done),
                            Err(e) => Err(e),
                        }
                    },
                }
            },
        }
    }
}

/// Command byte that asks the hub to reset itself.
pub const EXECUTABLE_DEVICE_CMD_RESET: u8 = 1;

/// Report id of the request for the product id.
pub const SENSORHUB_PROD_ID_REQ: u8 = 0xF9;

/// Report id of the command that sets how often a report is delivered.
pub const SHTP_REPORT_SET_FEATURE_COMMAND: u8 = 0xFD;

/// Whether `buf` starts with the frame for `body` on `channel` under
/// `sequence`.
pub open spec fn holds_frame(buf: Seq<u8>, channel: u8, sequence: u8, body: Seq<u8>) -> bool {
    buf.subrange(0, frame_len(body)) == frame_bytes(channel, sequence, body)
}

/// What sending `body` on `channel` does to a driver: the channel's counter
/// advances, the frame under the new number lies at the start of the send
/// buffer, that frame is what was handed to the transport in the latest
/// exchange, and the rest of the driver is as before.
pub open spec fn sent<E>(before: DriverView<E>, after: DriverView<E>, channel: u8, body: Seq<u8>)
    -> bool {
    &&& after.state == before.state.after_send(channel)
    &&& holds_frame(
        after.send_buf,
        channel,
        after.state.per_channel_sequence[channel as int],
        body,
    )
    &&& after.send_buf.subrange(frame_len(body), PACKET_SEND_BUF_LEN as int)
        == before.send_buf.subrange(frame_len(body), PACKET_SEND_BUF_LEN as int)
    &&& after.recv_buf == before.recv_buf
    &&& after.exchanges == before.exchanges.push(
        Exchange::Sent(
            frame_bytes(channel, after.state.per_channel_sequence[channel as int], body),
            after.last_answer(),
        ),
    )
}

/// What a request with an awaited answer does to the exchanges of a driver
/// that had made those of `before`: the frame for `body` on `channel` lies
/// in the send buffer and was handed to the transport, and one read
/// followed unless the transport refused the frame.
pub open spec fn asked<E>(
    before: Seq<Exchange<E>>,
    after: DriverView<E>,
    channel: u8,
    body: Seq<u8>,
) -> bool {
    let request = Exchange::Sent(
        frame_bytes(channel, after.state.per_channel_sequence[channel as int], body),
        after.since(before, 0)->Sent_1,
    );
    &&& holds_frame(
        after.send_buf,
        channel,
        after.state.per_channel_sequence[channel as int],
        body,
    )
    &&& after.exchanges == match after.since(before, 0)->Sent_1 {
        Ok(_) => before.push(request).push(Exchange::Read(after.last_read())),
        Err(_) => before.push(request),
    }
}

/// The driver's answer to a request made after the exchanges of `before`:
/// the failure of the send, or else what the read brought.
pub open spec fn answer_to<E>(before: Seq<Exchange<E>>, after: DriverView<E>) -> Result<
    usize,
    WrapperError<E>,
> {
    match after.since(before, 0)->Sent_1 {
        Ok(_) => wrapped(after.last_read()),
        Err(e) => Err(WrapperError::CommError(e)),
    }
}

/// The verdict on an answer of `recv_len` bytes in `recv_buf`: verified for
/// a product id response, and an invalid chip id otherwise.
pub open spec fn judged<E>(recv_buf: Seq<u8>, recv_len: usize) -> Result<(), WrapperError<E>> {
    if product_id_answered(recv_buf, recv_len as int) {
        Ok(())
    } else {
        Err(WrapperError::InvalidChipId(0))
    }
}

/// The result of a product id verification that was made after the
/// exchanges of `before`: a failure of the transport, or else the verdict
/// on the answer that was read.
pub open spec fn product_id_verdict<E>(before: Seq<Exchange<E>>, after: DriverView<E>) -> Result<
    (),
    WrapperError<E>,
> {
    match answer_to(before, after) {
        Ok(recv_len) => judged(after.recv_buf, recv_len),
        Err(e) => Err(e),
    }
}

/// The first step of the handshake: the transport is set up and, unless
/// that failed, the reset command is sent. A failure of either ends the
/// handshake; otherwise a pause follows, and then the settling step.
pub open spec fn started<E>(
    before: DriverView<E>,
    after: DriverView<E>,
    res: Result<InitStep, WrapperError<E>>,
) -> bool {
    let set_up = after.since(before.exchanges, 0);
    let ready = DriverView { exchanges: before.exchanges.push(set_up), ..before };
    &&& set_up is SetUp
    &&& match set_up->SetUp_0 {
        Err(e) => after == ready && res == Err::<InitStep, WrapperError<E>>(
            WrapperError::CommError(e),
        ),
        Ok(_) => {
            &&& sent(ready, after, CHANNEL_EXECUTABLE, soft_reset_command())
            &&& res == match after.last_answer() {
                Ok(_) => Ok(InitStep::Pause(RESET_SETTLE_MS, InitStage::Settling)),
                Err(e) => Err(WrapperError::CommError(e)),
            }
        },
    }
}

/// The draining step of the handshake: one read; after a frame that is not
/// empty a pause follows and then the same step again; after an empty or a
/// failed read the product id is verified, which ends the handshake.
pub open spec fn drained<E>(
    before: DriverView<E>,
    after: DriverView<E>,
    res: Result<InitStep, WrapperError<E>>,
) -> bool {
    let read = after.since(before.exchanges, 0);
    &&& read is Read
    &&& if length_of(read->Read_0) != 0 {
        &&& read_once(before, after)
        &&& res == Ok::<InitStep, WrapperError<E>>(
            InitStep::Pause(DRAIN_PAUSE_MS, InitStage::Draining),
        )
    } else {
        &&& asked(
            before.exchanges.push(read),
            after,
            CHANNEL_HUB_CONTROL,
            product_id_request(),
        )
        &&& res == match product_id_verdict(before.exchanges.push(read), after) {
            Ok(_) => Ok(InitStep::Done),
            Err(e) => Err(e),
        }
        &&& after.state == if res is Ok {
            before.state.after_send(CHANNEL_HUB_CONTROL).verified()
        } else {
            before.state.after_send(CHANNEL_HUB_CONTROL)
        }
    }
}

/// The body of the soft reset command.
pub open spec fn soft_reset_command() -> Seq<u8> {
    seq![EXECUTABLE_DEVICE_CMD_RESET]
}

/// The body of the product id request.
pub open spec fn product_id_request() -> Seq<u8> {
    seq![SENSORHUB_PROD_ID_REQ, 0u8]
}

/// The report interval in microseconds for one given in milliseconds.
pub open spec fn interval_micros(millis: u16) -> u32 {
    (millis * 1000) as u32
}

/// The body of the set feature command that asks for report `report_id`
/// every `millis` milliseconds: the command byte, the report id, a flags
/// byte and two bytes of change sensitivity, all zero; the interval in
/// microseconds in little-endian order; then four zero bytes of batch
/// interval and four of sensor-specific configuration.
pub open spec fn set_feature_body(report_id: u8, millis: u16) -> Seq<u8> {
    seq![SHTP_REPORT_SET_FEATURE_COMMAND, report_id, 0u8, 0u8, 0u8] + le_bytes(
        interval_micros(millis),
    ) + Seq::new(8, |i: int| 0u8)
}

/// Encodes the set feature command for report `report_id` at an interval
/// of `millis_between_reports` milliseconds.
pub fn set_feature_command(report_id: u8, millis_between_reports: u16) -> (body: [u8; 17])
    ensures
        body@ == set_feature_body(report_id, millis_between_reports),
{
    let micros_between_reports: u32 = (millis_between_reports as u32) * 1000;
    let body: [u8; 17] = [
        SHTP_REPORT_SET_FEATURE_COMMAND,
        report_id,
        0,  // feature flags
        0,  // change sensitivity
        0,
        (micros_between_reports % 256) as u8,  // report interval, microseconds
        ((micros_between_reports / 256) % 256) as u8,
        ((micros_between_reports / 65536) % 256) as u8,
        ((micros_between_reports / 16777216) % 256) as u8,
        0,  // batch interval
        0,
        0,
        0,
        0,  // sensor-specific config
        0,
        0,
        0,
    ];
    assert(body@ =~= set_feature_body(report_id, millis_between_reports));
    body
}

/// Whether a read of `received_len` bytes into `bytes` is a product id
/// response: longer than a header, with the response code right behind the
/// header.
pub open spec fn product_id_answered(bytes: Seq<u8>, received_len: int) -> bool {
    &&& received_len > PACKET_HEADER_LENGTH
    &&& bytes.len() > PACKET_HEADER_LENGTH
    &&& bytes[PACKET_HEADER_LENGTH as int] == SENSORHUB_PROD_ID_RESP
}

/// Decides whether the frame of `received_len` bytes in `buf` answers a
/// product id request.
pub fn is_product_id_response(buf: &[u8], received_len: usize) -> (answered: bool)
    ensures
        answered == product_id_answered(buf@, received_len as int),
{
    received_len > PACKET_HEADER_LENGTH && buf.len() > PACKET_HEADER_LENGTH
        && buf[PACKET_HEADER_LENGTH] == SENSORHUB_PROD_ID_RESP
}

/// Turns the transport's answer into the driver's: a failure becomes
/// `CommError`, anything else passes.
pub fn comm_result<T, E>(outcome: Result<T, E>) -> (res: Result<T, WrapperError<E>>)
    ensures
        res == wrapped(outcome),
{
    match outcome {
        Ok(value) => Ok(value),
        Err(e) => Err(WrapperError::CommError(e)),
    }
}

/// The length that a receive answered with, and zero for a failed one.
pub fn length_or_zero<E>(res: &Result<usize, E>) -> (received_len: usize)
    ensures
        received_len == length_of(*res),
{
    match res {
        Ok(n) => *n,
        Err(_) => 0,
    }
}

/// Delivering a frame a second time changes nothing.
pub proof fn lemma_delivery_idempotent(state: DeviceStateView, bytes: Seq<u8>, received_len: int)
    ensures
        delivered(delivered(state, bytes, received_len), bytes, received_len) == delivered(
            state,
            bytes,
            received_len,
        ),
{
}

/// A frame that announces a completed reset sets the reset flag, and the
/// flag is still set after the same frame has been delivered again.
pub proof fn lemma_reset_complete_stays(state: DeviceStateView, bytes: Seq<u8>, received_len: int)
    requires
        decode(bytes, received_len) == Some(Dispatch::ResetComplete),
    ensures
        delivered(state, bytes, received_len).reset_complete,
        delivered(delivered(state, bytes, received_len), bytes, received_len).reset_complete,
{
}

/// No delivered frame clears a flag or moves a sequence counter.
pub proof fn lemma_delivery_monotonic(state: DeviceStateView, bytes: Seq<u8>, received_len: int)
    ensures
        state.reset_complete ==> delivered(state, bytes, received_len).reset_complete,
        state.product_id_verified ==> delivered(state, bytes, received_len).product_id_verified,
        delivered(state, bytes, received_len).per_channel_sequence == state.per_channel_sequence,
{
}

} // verus!
