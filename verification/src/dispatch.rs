use vstd::prelude::*;

verus! {

/// Channel number of the command channel.
pub const SHTP_CHAN_COMMAND: u8 = 0;

/// Channel number of the executable channel.
pub const CHANNEL_EXECUTABLE: u8 = 1;

/// Channel number of the hub control channel.
pub const CHANNEL_HUB_CONTROL: u8 = 2;

/// Channel number of the input sensor report channel.
pub const CHANNEL_SENSOR_REPORTS: u8 = 3;

/// Report id of the advertisement that the hub sends after a reset.
pub const RESP_ADVERTISE: u8 = 0;

/// Report id with which the hub announces that a reset has completed.
pub const EXECUTABLE_DEVICE_RESP_RESET_COMPLETE: u8 = 1;

/// Report id of a command response on the hub control channel.
pub const SENSORHUB_COMMAND_RESP: u8 = 0xF1;

/// Report id of the product id response on the hub control channel.
pub const SENSORHUB_PROD_ID_RESP: u8 = 0xF8;

/// Report id of the fused rotation vector.
pub const SENSOR_REPORTID_ROTATION_VECTOR: u8 = 0x05;

/// Command code that marks a command response as the unsolicited one sent at
/// startup.
pub const SH2_STARTUP_INIT_UNSOLICITED: u8 = 0x84;

/// Length of the timestamp that opens the body of a sensor report.
pub const SENSOR_REPORT_TIMESTAMP_LENGTH: usize = 5;

/// Offset in a command response body of the code of the command answered.
pub const COMMAND_RESP_CODE_OFFSET: usize = 2;

/// The channels on which this driver listens.
#[derive(Clone, Copy, Debug, PartialEq, Eq, Structural)]
pub enum ChannelId {
    Command,
    Executable,
    HubControl,
    SensorReports,
}

impl ChannelId {
    /// The channel's number on the wire.
    pub open spec fn spec_number(self) -> u8 {
        match self {
            ChannelId::Command => SHTP_CHAN_COMMAND,
            ChannelId::Executable => CHANNEL_EXECUTABLE,
            ChannelId::HubControl => CHANNEL_HUB_CONTROL,
            ChannelId::SensorReports => CHANNEL_SENSOR_REPORTS,
        }
    }

    /// The channel with the given number, if the driver listens on it.
    pub open spec fn spec_from_number(number: u8) -> Option<ChannelId> {
        if number == SHTP_CHAN_COMMAND {
            Some(ChannelId::Command)
        } else if number == CHANNEL_EXECUTABLE {
            Some(ChannelId::Executable)
        } else if number == CHANNEL_HUB_CONTROL {
            Some(ChannelId::HubControl)
        } else if number == CHANNEL_SENSOR_REPORTS {
            Some(ChannelId::SensorReports)
        } else {
            None
        }
    }

    /// The channel's number on the wire.
    #[verifier::when_used_as_spec(spec_number)]
    pub fn number(self) -> (n: u8)
        ensures
            n == self.spec_number(),
    {
        match self {
            ChannelId::Command => SHTP_CHAN_COMMAND,
            ChannelId::Executable => CHANNEL_EXECUTABLE,
            ChannelId::HubControl => CHANNEL_HUB_CONTROL,
            ChannelId::SensorReports => CHANNEL_SENSOR_REPORTS,
        }
    }

    /// The channel with the given number, if the driver listens on it.
    #[verifier::when_used_as_spec(spec_from_number)]
    pub fn from_number(number: u8) -> (channel: Option<ChannelId>)
        ensures
            channel == Self::spec_from_number(number),
    {
        if number == SHTP_CHAN_COMMAND {
            Some(ChannelId::Command)
        } else if number == CHANNEL_EXECUTABLE {
            Some(ChannelId::Executable)
        } else if number == CHANNEL_HUB_CONTROL {
            Some(ChannelId::HubControl)
        } else if number == CHANNEL_SENSOR_REPORTS {
            Some(ChannelId::SensorReports)
        } else {
            None
        }
    }
}

/// What a received frame turned out to be.
#[derive(Clone, Copy, Debug, PartialEq, Eq, Structural)]
pub enum Dispatch {
    /// A rotation vector report on the sensor report channel.
    RotationVector,
    /// Any other report on the sensor report channel.
    SensorReport,
    /// The advertisement of the hub's channels and capabilities.
    Advertisement,
    /// The hub has completed a reset.
    ResetComplete,
    /// The command response that the hub sends unasked at startup.
    UnsolicitedStartup,
    /// Any other command response.
    CommandResponse,
    /// The answer to a product id request.
    ProductId,
    /// A frame on an unknown channel or with an unknown report id.
    Ignored,
}

/// The number of tag-length-value records that fill `bytes` from `cursor` to
/// its end, or `None` when a record runs past the end.
pub open spec fn records_from(bytes: Seq<u8>, cursor: int) -> Option<nat>
    decreases bytes.len() - cursor,
{
    if cursor >= bytes.len() {
        if cursor == bytes.len() {
            Some(0)
        } else {
            None
        }
    } else if cursor < 0 || cursor + 2 + bytes[cursor + 1] > bytes.len() {
        None
    } else {
        match records_from(bytes, cursor + 2 + bytes[cursor + 1]) {
            Some(n) => Some(n + 1),
            None => None,
        }
    }
}

/// How a frame on channel number `channel` with the given body is routed, or
/// `None` when the body is too short for its kind or its records overrun it.
pub open spec fn route(channel: u8, body: Seq<u8>) -> Option<Dispatch> {
    match ChannelId::spec_from_number(channel) {
        None => Some(Dispatch::Ignored),
        Some(ChannelId::SensorReports) => {
            if body.len() <= SENSOR_REPORT_TIMESTAMP_LENGTH {
                None
            } else if body[SENSOR_REPORT_TIMESTAMP_LENGTH as int]
                == SENSOR_REPORTID_ROTATION_VECTOR {
                Some(Dispatch::RotationVector)
            } else {
                Some(Dispatch::SensorReport)
            }
        },
        Some(ChannelId::Command) => {
            if body.len() == 0 {
                None
            } else if body[0] != RESP_ADVERTISE {
                Some(Dispatch::Ignored)
            } else if records_from(body, 1) is Some {
                Some(Dispatch::Advertisement)
            } else {
                None
            }
        },
        Some(ChannelId::Executable) => {
            if body.len() == 0 {
                None
            } else if body[0] == EXECUTABLE_DEVICE_RESP_RESET_COMPLETE {
                Some(Dispatch::ResetComplete)
            } else {
                Some(Dispatch::Ignored)
            }
        },
        Some(ChannelId::HubControl) => {
            if body.len() == 0 {
                None
            } else if body[0] == SENSORHUB_PROD_ID_RESP {
                Some(Dispatch::ProductId)
            } else if body[0] != SENSORHUB_COMMAND_RESP {
                Some(Dispatch::Ignored)
            } else if body.len() <= COMMAND_RESP_CODE_OFFSET {
                None
            } else if body[COMMAND_RESP_CODE_OFFSET as int] == SH2_STARTUP_INIT_UNSOLICITED {
                Some(Dispatch::UnsolicitedStartup)
            } else {
                Some(Dispatch::CommandResponse)
            }
        },
    }
}

/// Walks the tag-length-value records of an advertisement body, which start
/// behind its report id, and counts them. Answers `None` when a record runs
/// past the end of the body, or when the body lacks even the report id.
pub fn handle_advertise_response(body: &[u8]) -> (count: Option<usize>)
    ensures
        match records_from(body@, 1) {
            Some(n) => count == Some(n as usize) && n <= body@.len(),
            None => count is None,
        },
{
    let payload_len: usize = body.len();
    if payload_len == 0 {
        return None;
    }
    let mut cursor: usize = 1;
    let mut count: usize = 0;
    while cursor < payload_len
        invariant
            payload_len == body@.len(),
            1 <= cursor <= payload_len,
            count <= cursor,
            records_from(body@, 1) == match records_from(body@, cursor as int) {
                Some(n) => Some((n + count) as nat),
                None => None,
            },
        decreases payload_len - cursor,
    {
        if payload_len - cursor < 2 {
            return None;
        }
        let len: usize = body[cursor + 1] as usize;
        if payload_len - cursor - 2 < len {
            return None;
        }
        cursor = cursor + 2 + len;
        count = count + 1;
    }
    Some(count)
}

/// Routes a frame by its channel number and then by the report id in its
/// body. Answers `None` for a body that is too short for its kind, or whose
/// records overrun it.
pub fn classify(channel: u8, body: &[u8]) -> (res: Option<Dispatch>)
    ensures
        res == route(channel, body@),
{
    match ChannelId::from_number(channel) {
        None => Some(Dispatch::Ignored),
        Some(ChannelId::SensorReports) => handle_input_report(body),
        Some(ChannelId::Command) => {
            if body.len() == 0 {
                None
            } else if body[0] != RESP_ADVERTISE {
                Some(Dispatch::Ignored)
            } else {
                match handle_advertise_response(body) {
                    Some(_) => Some(Dispatch::Advertisement),
                    None => None,
                }
            }
        },
        Some(ChannelId::Executable) => {
            if body.len() == 0 {
                None
            } else if body[0] == EXECUTABLE_DEVICE_RESP_RESET_COMPLETE {
                Some(Dispatch::ResetComplete)
            } else {
                Some(Dispatch::Ignored)
            }
        },
        Some(ChannelId::HubControl) => {
            if body.len() == 0 {
                None
            } else if body[0] == SENSORHUB_PROD_ID_RESP {
                Some(Dispatch::ProductId)
            } else if body[0] != SENSORHUB_COMMAND_RESP {
                Some(Dispatch::Ignored)
            } else if body.len() <= COMMAND_RESP_CODE_OFFSET {
                None
            } else if body[COMMAND_RESP_CODE_OFFSET] == SH2_STARTUP_INIT_UNSOLICITED {
                Some(Dispatch::UnsolicitedStartup)
            } else {
                Some(Dispatch::CommandResponse)
            }
        },
    }
}

/// Tells a rotation vector report from the other sensor reports by the report
/// id behind the timestamp. Answers `None` when the body ends before it.
pub fn handle_input_report(body: &[u8]) -> (res: Option<Dispatch>)
    ensures
        res == route(CHANNEL_SENSOR_REPORTS, body@),
{
    if body.len() <= SENSOR_REPORT_TIMESTAMP_LENGTH {
        None
    } else if body[SENSOR_REPORT_TIMESTAMP_LENGTH] == SENSOR_REPORTID_ROTATION_VECTOR {
        Some(Dispatch::RotationVector)
    } else {
        Some(Dispatch::SensorReport)
    }
}

} // verus!
