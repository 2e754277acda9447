//! The GATT side of the remote: what to look for, how to subscribe and write, and
//! what a notification means.
//!
//! Statuses, properties and identifiers are the plain numbers of the Bluetooth API.
use crate::diagnostics::PacketKind;
use crate::error::{Failure, FailureModel, PlatformError};
use crate::protocol::{Channel, Characteristic, LinkStatus, Message, MessageModel, WorkerMessage};
use crate::text::{join2, join3, signed, signed_text};
use vstd::prelude::*;

verus! {

/// The voice service.
pub const SERVICE_UUID: u128 = 0xab5e00015a214f05bc7daf01f617b664;

/// The characteristic that takes commands.
pub const TRANSMIT_UUID: u128 = 0xab5e00025a214f05bc7daf01f617b664;

/// The characteristic that sends audio.
pub const AUDIO_UUID: u128 = 0xab5e00035a214f05bc7daf01f617b664;

/// The characteristic that sends control packets.
pub const CONTROL_UUID: u128 = 0xab5e00045a214f05bc7daf01f617b664;

/// The service that tells what a device is.
pub const DEVICE_INFORMATION_SERVICE_UUID: u128 = 0x0000180a00001000800000805f9b34fb;

/// The characteristic that tells the model of a device.
pub const MODEL_NUMBER_UUID: u128 = 0x00002a2400001000800000805f9b34fb;

/// The communication status of an operation that succeeded.
pub const STATUS_SUCCESS: i32 = 0;

/// The connection status of a device that is gone.
pub const STATUS_DISCONNECTED: i32 = 0;

/// The property of a characteristic that takes writes without an answer.
pub const PROPERTY_WRITE_WITHOUT_RESPONSE: u32 = 4;

/// The property of a characteristic that notifies.
pub const PROPERTY_NOTIFY: u32 = 16;

/// The property of a characteristic that indicates.
pub const PROPERTY_INDICATE: u32 = 32;

/// What is written to a characteristic to make it send.
#[derive(Debug, Clone, Copy, PartialEq, Eq, Structural)]
pub enum Descriptor {
    Notify,
    Indicate,
}

/// How a command is written.
#[derive(Debug, Clone, Copy, PartialEq, Eq, Structural)]
pub enum WriteMode {
    WithoutResponse,
    WithResponse,
}

/// A subscription that failed, over a representation of text.
#[derive(Debug, PartialEq, Eq)]
pub struct Abandoned<T> {
    /// The handler has to be taken out again.
    pub remove_handler: bool,
    pub error: Failure<T>,
}

impl View for Abandoned<String> {
    type V = Abandoned<Seq<char>>;

    open spec fn view(&self) -> Abandoned<Seq<char>> {
        Abandoned { remove_handler: self.remove_handler, error: self.error@ }
    }
}

/// What follows a notification.
#[derive(Debug, PartialEq, Eq)]
pub struct Notification {
    /// The packet is logged as this kind, if there is one.
    pub packet: Option<PacketKind>,
    /// The key that the voice button also sends is swallowed for a moment.
    pub arm_grace: bool,
    /// The worker hears of it.
    pub message: WorkerMessage,
}

/// One of the bits of `expected` is set in `properties`.
pub open spec fn shares_a_bit(properties: u32, expected: u32) -> bool {
    properties & expected != 0
}

/// Whether a characteristic has a property.
pub fn has_property(properties: u32, expected: u32) -> (present: bool)
    ensures
        present == shares_a_bit(properties, expected),
{
    properties & expected != 0
}

/// The failure of an operation that ended with a status.
pub open spec fn status_failure(operation: Seq<char>, status: i32) -> FailureModel {
    Failure::Gatt(operation + "返回状态 "@ + signed_text(status as int))
}

/// Takes every status but success for a failure of the operation.
pub fn require_success(status: i32, operation: &str) -> (result: Result<(), PlatformError>)
    ensures
        result is Ok <==> status == STATUS_SUCCESS,
        result matches Err(error) ==> error@ == status_failure(operation@, status),
{
    if status == STATUS_SUCCESS {
        Ok(())
    } else {
        let number = signed(status as i64);
        Err(Failure::Gatt(join3(operation, "返回状态 ", number.as_str())))
    }
}

/// Accepts the search for the voice service where it found exactly one.
pub fn check_service(status: i32, count: u32) -> (result: Result<(), PlatformError>)
    ensures
        result is Ok <==> status == STATUS_SUCCESS && count == 1,
        result matches Err(error) ==> error@ == if status != STATUS_SUCCESS {
            status_failure("发现 ATVV 服务"@, status)
        } else {
            Failure::VoiceServiceMissing
        },
{
    match require_success(status, "发现 ATVV 服务") {
        Ok(()) => {
            if count == 1 {
                Ok(())
            } else {
                Err(Failure::VoiceServiceMissing)
            }
        },
        Err(error) => Err(error),
    }
}

/// What a characteristic is called in an error.
pub open spec fn label_text(which: Characteristic) -> Seq<char> {
    match which {
        Characteristic::Transmit => "transmit"@,
        Characteristic::Audio => "audio"@,
        Characteristic::Control => "control"@,
    }
}

/// The identifier of a characteristic.
pub fn characteristic_uuid(which: Characteristic) -> (uuid: u128)
    ensures
        uuid == match which {
            Characteristic::Transmit => TRANSMIT_UUID,
            Characteristic::Audio => AUDIO_UUID,
            Characteristic::Control => CONTROL_UUID,
        },
{
    match which {
        Characteristic::Transmit => TRANSMIT_UUID,
        Characteristic::Audio => AUDIO_UUID,
        Characteristic::Control => CONTROL_UUID,
    }
}

/// Accepts the search for a characteristic where it found exactly one.
pub fn check_characteristic(which: Characteristic, status: i32, count: u32) -> (result: Result<
    (),
    PlatformError,
>)
    ensures
        result is Ok <==> status == STATUS_SUCCESS && count == 1,
        result matches Err(error) ==> error@ == if status != STATUS_SUCCESS {
            status_failure("发现 ATVV 特征"@, status)
        } else {
            Failure::VoiceCharacteristicMissing(label_text(which))
        },
{
    match require_success(status, "发现 ATVV 特征") {
        Ok(()) => {
            if count == 1 {
                Ok(())
            } else {
                let label = match which {
                    Characteristic::Transmit => "transmit",
                    Characteristic::Audio => "audio",
                    Characteristic::Control => "control",
                };
                Err(Failure::VoiceCharacteristicMissing(label.to_owned()))
            }
        },
        Err(error) => Err(error),
    }
}

/// Whether a search for something that may be missing found exactly one.
pub fn exactly_one(status: i32, count: u32) -> (found: bool)
    ensures
        found == (status == STATUS_SUCCESS && count == 1),
{
    status == STATUS_SUCCESS && count == 1
}

/// How commands are written to a characteristic: without an answer where it takes that.
pub fn write_mode(properties: u32) -> (mode: WriteMode)
    ensures
        mode is WithoutResponse <==> shares_a_bit(properties, PROPERTY_WRITE_WITHOUT_RESPONSE),
{
    if has_property(properties, PROPERTY_WRITE_WITHOUT_RESPONSE) {
        WriteMode::WithoutResponse
    } else {
        WriteMode::WithResponse
    }
}

/// How a subscription goes on once the properties of the characteristic are known:
/// notifications are preferred over indications. A characteristic that has neither is
/// given up, and its handler is taken out again.
pub open spec fn chosen_descriptor(properties: Result<u32, FailureModel>) -> Result<
    Descriptor,
    Abandoned<Seq<char>>,
> {
    match properties {
        Ok(properties) => if shares_a_bit(properties, PROPERTY_NOTIFY) {
            Ok(Descriptor::Notify)
        } else if shares_a_bit(properties, PROPERTY_INDICATE) {
            Ok(Descriptor::Indicate)
        } else {
            Err(
                Abandoned {
                    remove_handler: true,
                    error: Failure::Gatt("特征不支持 Notify 或 Indicate"@),
                },
            )
        },
        Err(error) => Err(Abandoned { remove_handler: false, error }),
    }
}

/// The contents of a result of the Bluetooth API.
pub open spec fn result_of<A>(result: Result<A, PlatformError>) -> Result<A, FailureModel> {
    match result {
        Ok(value) => Ok(value),
        Err(error) => Err(error@),
    }
}

/// The contents of the result of a subscription.
pub open spec fn abandoned_of<A>(result: Result<A, Abandoned<String>>) -> Result<
    A,
    Abandoned<Seq<char>>,
> {
    match result {
        Ok(value) => Ok(value),
        Err(abandoned) => Err(abandoned@),
    }
}

/// How a subscription goes on once the properties of the characteristic are known.
pub fn choose_descriptor(properties: Result<u32, PlatformError>) -> (choice: Result<
    Descriptor,
    Abandoned<String>,
>)
    ensures
        abandoned_of(choice) == chosen_descriptor(result_of(properties)),
{
    match properties {
        Ok(properties) => if has_property(properties, PROPERTY_NOTIFY) {
            Ok(Descriptor::Notify)
        } else if has_property(properties, PROPERTY_INDICATE) {
            Ok(Descriptor::Indicate)
        } else {
            Err(
                Abandoned {
                    remove_handler: true,
                    error: Failure::Gatt("特征不支持 Notify 或 Indicate".to_owned()),
                },
            )
        },
        Err(error) => Err(Abandoned { remove_handler: false, error }),
    }
}

/// How a subscription ends once the descriptor has been written: a write that was
/// refused takes the handler out again.
pub open spec fn concluded(status: Result<i32, FailureModel>) -> Result<
    (),
    Abandoned<Seq<char>>,
> {
    match status {
        Ok(status) => if status == STATUS_SUCCESS {
            Ok(())
        } else {
            Err(
                Abandoned {
                    remove_handler: true,
                    error: status_failure("订阅 GATT 通知"@, status),
                },
            )
        },
        Err(error) => Err(Abandoned { remove_handler: false, error }),
    }
}

/// How a subscription ends once the descriptor has been written.
pub fn conclude_subscription(status: Result<i32, PlatformError>) -> (end: Result<
    (),
    Abandoned<String>,
>)
    ensures
        abandoned_of(end) == concluded(result_of(status)),
{
    match status {
        Ok(status) => match require_success(status, "订阅 GATT 通知") {
            Ok(()) => Ok(()),
            Err(error) => Err(Abandoned { remove_handler: true, error }),
        },
        Err(error) => Err(Abandoned { remove_handler: false, error }),
    }
}

/// The message that a notification becomes.
pub open spec fn notified(
    channel: Channel,
    connection_generation: u64,
    packet: Result<Seq<u8>, Seq<char>>,
) -> MessageModel {
    match (packet, channel) {
        (Ok(bytes), Channel::Audio) => Message::Audio { connection_generation, bytes },
        (Ok(bytes), Channel::Control) => Message::Control { connection_generation, bytes },
        (Err(error), _) => Message::CallbackError {
            connection_generation,
            error: "读取 GATT 通知失败："@ + error,
        },
    }
}

/// Deals with a notification. A packet is handed to the worker with the generation of
/// its connection; a control packet also shows that a key of the remote is in use.
pub fn notify(
    channel: Channel,
    connection_generation: u64,
    packet: Result<Vec<u8>, String>,
) -> (notification: Notification)
    ensures
        notification.message@ == notified(
            channel,
            connection_generation,
            match packet {
                Ok(bytes) => Ok(bytes@),
                Err(error) => Err(error@),
            },
        ),
        notification.packet == match (packet, channel) {
            (Ok(_), Channel::Audio) => Some(PacketKind::Audio),
            (Ok(_), Channel::Control) => Some(PacketKind::Control),
            (Err(_), _) => None,
        },
        notification.arm_grace == (packet is Ok && channel is Control),
{
    match packet {
        Ok(bytes) => match channel {
            Channel::Audio => Notification {
                packet: Some(PacketKind::Audio),
                arm_grace: false,
                message: Message::Audio { connection_generation, bytes },
            },
            Channel::Control => Notification {
                packet: Some(PacketKind::Control),
                arm_grace: true,
                message: Message::Control { connection_generation, bytes },
            },
        },
        Err(error) => Notification {
            packet: None,
            arm_grace: false,
            message: Message::CallbackError {
                connection_generation,
                error: join2("读取 GATT 通知失败：", error.as_str()),
            },
        },
    }
}

/// What a connection status says of the link.
pub fn link_status(status: i32) -> (link: LinkStatus)
    ensures
        link is Disconnected <==> status == STATUS_DISCONNECTED,
{
    if status == STATUS_DISCONNECTED {
        LinkStatus::Disconnected
    } else {
        LinkStatus::Connected
    }
}

/// A characteristic that notifies is made to notify, whatever else it can; one that only
/// indicates is made to indicate. One that does neither loses its handler again; where its
/// properties could not be read, the handler stays and the error is that of the reading.
pub proof fn notifications_are_preferred(properties: u32, error: FailureModel)
    ensures
        properties & 16 != 0 ==> chosen_descriptor(Ok(properties)) == Ok::<
            Descriptor,
            Abandoned<Seq<char>>,
        >(Descriptor::Notify),
        properties & 16 == 0 && properties & 32 != 0 ==> chosen_descriptor(Ok(properties)) == Ok::<
            Descriptor,
            Abandoned<Seq<char>>,
        >(Descriptor::Indicate),
        properties & 16 == 0 && properties & 32 == 0 ==> {
            &&& chosen_descriptor(Ok(properties)) matches Err(abandoned)
            &&& abandoned.remove_handler
            &&& abandoned.error == FailureModel::Gatt("特征不支持 Notify 或 Indicate"@)
        },
        chosen_descriptor(Err(error)) matches Err(abandoned) && !abandoned.remove_handler
            && abandoned.error == error,
{
}

/// A subscription stands exactly where the write was answered with success. A refused write
/// takes the handler out and names its status; a write that was not answered leaves it.
pub proof fn refused_subscriptions_are_taken_out(status: i32, error: FailureModel)
    ensures
        concluded(Ok(status)) is Ok <==> status == 0,
        status != 0 ==> {
            &&& concluded(Ok(status)) matches Err(abandoned)
            &&& abandoned.remove_handler
            &&& abandoned.error == FailureModel::Gatt(
                "订阅 GATT 通知"@ + "返回状态 "@ + signed_text(status as int),
            )
        },
        concluded(Err(error)) matches Err(abandoned) && !abandoned.remove_handler
            && abandoned.error == error,
{
}

/// A packet becomes a message of its channel with the same bytes, and a failed reading
/// becomes an error; both carry the number of their connection.
pub proof fn notifications_keep_their_packet(
    channel: Channel,
    connection_generation: u64,
    bytes: Seq<u8>,
    error: Seq<char>,
)
    ensures
        channel is Audio ==> notified(channel, connection_generation, Ok(bytes)) == (
        MessageModel::Audio { connection_generation, bytes }),
        channel is Control ==> notified(channel, connection_generation, Ok(bytes)) == (
        MessageModel::Control { connection_generation, bytes }),
        notified(channel, connection_generation, Err(error)) == (MessageModel::CallbackError {
            connection_generation,
            error: "读取 GATT 通知失败："@ + error,
        }),
{
}

/// The service and its three characteristics share one identifier but for a number from
/// one to four; the device information is the standard one of the Bluetooth base.
pub proof fn identifiers_are_numbered()
    ensures
        SERVICE_UUID == 0xab5e00015a214f05bc7daf01f617b664,
        TRANSMIT_UUID == SERVICE_UUID + 0x1_0000_0000_0000_0000_0000_0000,
        AUDIO_UUID == TRANSMIT_UUID + 0x1_0000_0000_0000_0000_0000_0000,
        CONTROL_UUID == AUDIO_UUID + 0x1_0000_0000_0000_0000_0000_0000,
        DEVICE_INFORMATION_SERVICE_UUID == 0x180a_0000_1000_8000_0080_5f9b_34fb,
        MODEL_NUMBER_UUID == 0x2a24_0000_1000_8000_0080_5f9b_34fb,
{
}

} // verus!
