//! The structured message that travels between device sessions and the
//! upstream link, and the codec between it and device frames.

use crate::wire::{
    be_i32, be_u32, i32_at, i32_be_bytes, lemma_append_keeps_reads, lemma_appended_i32,
    lemma_appended_u32, u32_at, u32_be_bytes, write_i32_be, write_u32_be,
};
use vstd::prelude::*;
use vstd::slice::*;
use vstd::string::*;
use vstd::utf8::*;

verus! {

/// Type code of a device frame that answers a ping.
pub const RESPONSE_TYPE_PONG: u8 = 1;

/// Type code of a device frame that carries a measurement snapshot.
pub const RESPONSE_TYPE_COLLECT_DATA: u8 = 2;

/// Type code of a device frame that acknowledges a PWM setting.
pub const RESPONSE_TYPE_SET_PWM_PERCENT: u8 = 3;

/// Type code of a device frame that acknowledges a contactor setting.
pub const RESPONSE_TYPE_SET_CONTACTOR_STATE: u8 = 4;

/// Type code of an unsolicited device notification.
pub const NOTIFY: u8 = 100;

/// Command code of a ping.
pub const REQUEST_TYPE_PING: u8 = 1;

/// Command code of a firmware push.
pub const REQUEST_TYPE_FIRMWARE: u8 = 2;

/// Command code of a request for a measurement snapshot.
pub const REQUEST_TYPE_COLLECT_DATA: u8 = 3;

/// Command code that sets the PWM level.
pub const REQUEST_TYPE_SET_PWM_PERCENT: u8 = 4;

/// Command code that opens or closes the contactor.
pub const REQUEST_TYPE_SET_CONTACTOR_STATE: u8 = 5;

/// The largest payload length a frame header may declare.
pub const MAX_PAYLOAD_LENGTH: u32 = 1024;

/// Length of the fixed part of a measurement snapshot payload.
pub const SNAPSHOT_FIXED_LENGTH: usize = 44;

/// What a message is, which also fixes the fields it carries.
#[derive(Debug, Clone, Copy, PartialEq, Eq, Structural)]
#[allow(non_camel_case_types)]
pub enum MqttMessageType {
    new_connection,
    notify,
    response_ping,
    response_collect_data,
    response_set_pwm_percent,
    response_set_contactor_state,
    request_ping,
    request_data_collection,
    request_firmware,
    request_set_pwm_percent,
    request_set_contactor_state,
}

/// Control pilot voltage level reported by a device.
#[derive(Debug, Clone, Copy, PartialEq, Eq, Structural)]
#[allow(non_camel_case_types)]
pub enum PilotVoltage {
    volt_12,
    volt_9,
    volt_6,
    volt_3,
    fault,
}

/// Cable rating reported on the proximity pilot.
#[derive(Debug, Clone, Copy, PartialEq, Eq, Structural)]
#[allow(non_camel_case_types)]
pub enum ProximityPilotAmps {
    amp_13,
    amp_20,
    amp_32,
    no_cable,
}

/// What a device announces when it connects.
#[derive(Debug, Clone, Copy, PartialEq, Eq, Structural)]
pub struct MqttMessageHandshake {
    pub firmware_version: u8,
}

/// A firmware image in base64 with its checksum.
#[derive(Debug, Clone, PartialEq, Eq)]
pub struct MqttMessageFirmware {
    pub firmware_data_base64: String,
    pub firmware_crc32: u32,
}

/// One snapshot of everything a device measures.
#[derive(Debug, Clone, PartialEq, Eq)]
pub struct MqttMessageMeasurements {
    pub pilot_voltage: PilotVoltage,
    pub proximity_pilot_amps: ProximityPilotAmps,
    pub phase1_millivolts: u32,
    pub phase2_millivolts: u32,
    pub phase3_millivolts: u32,
    pub phase1_milliamps: u32,
    pub phase2_milliamps: u32,
    pub phase3_milliamps: u32,
    pub wifi_rssi: i32,
    pub uptime_milliseconds: i32,
    pub current_control_pilot_adc: u32,
    pub current_proximity_pilot_adc: u32,
    pub logging_buffer: String,
}

/// The message exchanged on the internal bus and, as JSON, with the broker.
#[derive(Debug, Clone, PartialEq, Eq)]
pub struct MqttMessage {
    pub message_type: MqttMessageType,
    pub client_id: String,
    pub handshake: Option<MqttMessageHandshake>,
    pub firmware: Option<MqttMessageFirmware>,
    pub pwm_percent: Option<u8>,
    pub contactor_state: Option<bool>,
    pub measurements: Option<MqttMessageMeasurements>,
}

/// Mathematical value of a [`MqttMessageFirmware`].
pub struct FirmwareView {
    pub firmware_data_base64: Seq<char>,
    pub firmware_crc32: u32,
}

/// Mathematical value of a [`MqttMessageMeasurements`].
pub struct MeasurementsView {
    pub pilot_voltage: PilotVoltage,
    pub proximity_pilot_amps: ProximityPilotAmps,
    pub phase1_millivolts: u32,
    pub phase2_millivolts: u32,
    pub phase3_millivolts: u32,
    pub phase1_milliamps: u32,
    pub phase2_milliamps: u32,
    pub phase3_milliamps: u32,
    pub wifi_rssi: i32,
    pub uptime_milliseconds: i32,
    pub current_control_pilot_adc: u32,
    pub current_proximity_pilot_adc: u32,
    pub logging_buffer: Seq<char>,
}

/// Mathematical value of a [`MqttMessage`].
pub struct MessageView {
    pub message_type: MqttMessageType,
    pub client_id: Seq<char>,
    pub handshake: Option<MqttMessageHandshake>,
    pub firmware: Option<FirmwareView>,
    pub pwm_percent: Option<u8>,
    pub contactor_state: Option<bool>,
    pub measurements: Option<MeasurementsView>,
}

impl View for MqttMessageFirmware {
    type V = FirmwareView;

    open spec fn view(&self) -> FirmwareView {
        FirmwareView {
            firmware_data_base64: self.firmware_data_base64@,
            firmware_crc32: self.firmware_crc32,
        }
    }
}

impl View for MqttMessageMeasurements {
    type V = MeasurementsView;

    open spec fn view(&self) -> MeasurementsView {
        MeasurementsView {
            pilot_voltage: self.pilot_voltage,
            proximity_pilot_amps: self.proximity_pilot_amps,
            phase1_millivolts: self.phase1_millivolts,
            phase2_millivolts: self.phase2_millivolts,
            phase3_millivolts: self.phase3_millivolts,
            phase1_milliamps: self.phase1_milliamps,
            phase2_milliamps: self.phase2_milliamps,
            phase3_milliamps: self.phase3_milliamps,
            wifi_rssi: self.wifi_rssi,
            uptime_milliseconds: self.uptime_milliseconds,
            current_control_pilot_adc: self.current_control_pilot_adc,
            current_proximity_pilot_adc: self.current_proximity_pilot_adc,
            logging_buffer: self.logging_buffer@,
        }
    }
}

impl View for MqttMessage {
    type V = MessageView;

    open spec fn view(&self) -> MessageView {
        MessageView {
            message_type: self.message_type,
            client_id: self.client_id@,
            handshake: self.handshake,
            firmware: match self.firmware {
                Some(firmware) => Some(firmware@),
                None => None,
            },
            pwm_percent: self.pwm_percent,
            contactor_state: self.contactor_state,
            measurements: match self.measurements {
                Some(measurements) => Some(measurements@),
                None => None,
            },
        }
    }
}

/// Why a device frame could not be turned into a message.
#[derive(Debug, Clone, Copy, PartialEq, Eq, Structural)]
pub enum FrameDecodeError {
    /// The header declares a payload longer than [`MAX_PAYLOAD_LENGTH`].
    PayloadTooLarge(u32),
    /// The type code is none that a device may send.
    UnsupportedMessageType(u8),
    /// A measurement snapshot with fewer bytes than its fixed part.
    PayloadTooShort,
    /// The pilot voltage code is none of the known ones.
    UnsupportedPilotVoltage(u8),
    /// The proximity pilot code is none of the known ones.
    UnsupportedProximityPilotAmps(u8),
}

/// Why a message could not be turned into a device command.
#[derive(Debug, Clone, Copy, PartialEq, Eq, Structural)]
pub enum CommandEncodeError {
    /// The message type is none that is sent to a device.
    UnsupportedMessageType(MqttMessageType),
    /// The field that the message type requires is absent.
    MissingField,
    /// The firmware image is not valid base64.
    InvalidBase64,
    /// The firmware image with its checksum does not fit the length field.
    FirmwareTooLarge,
}

/// The text that `String::from_utf8_lossy` makes of arbitrary bytes, with
/// U+FFFD in the place of each invalid sequence.
pub uninterp spec fn lossy_text(bytes: Seq<u8>) -> Seq<char>;

/// Calls `String::from_utf8_lossy`, which decodes valid UTF-8 unchanged and
/// replaces each invalid sequence by U+FFFD.
#[verifier::external_body]
fn text_from_utf8_lossy(bytes: &[u8]) -> (text: String)
    ensures
        text@ == lossy_text(bytes@),
        valid_utf8(bytes@) ==> text@ == decode_utf8(bytes@),
{
    String::from_utf8_lossy(bytes).into_owned()
}

/// The diagnostic text carried by the bytes of a log buffer: their UTF-8
/// decoding where they are valid, the lossy decoding otherwise.
pub open spec fn log_text(bytes: Seq<u8>) -> Seq<char> {
    if valid_utf8(bytes) {
        decode_utf8(bytes)
    } else {
        lossy_text(bytes)
    }
}

/// The pilot voltage that a wire code stands for.
pub open spec fn pilot_voltage_of(code: u8) -> Option<PilotVoltage> {
    if code == 0 {
        Some(PilotVoltage::volt_12)
    } else if code == 1 {
        Some(PilotVoltage::volt_9)
    } else if code == 2 {
        Some(PilotVoltage::volt_6)
    } else if code == 3 {
        Some(PilotVoltage::volt_3)
    } else if code == 4 {
        Some(PilotVoltage::fault)
    } else {
        None
    }
}

/// The cable rating that a wire code stands for.
pub open spec fn proximity_pilot_amps_of(code: u8) -> Option<ProximityPilotAmps> {
    if code == 0 {
        Some(ProximityPilotAmps::amp_13)
    } else if code == 1 {
        Some(ProximityPilotAmps::amp_20)
    } else if code == 2 {
        Some(ProximityPilotAmps::amp_32)
    } else if code == 3 {
        Some(ProximityPilotAmps::no_cable)
    } else {
        None
    }
}

/// The measurements held by a snapshot payload whose log buffer reads as
/// `logging_buffer`, or the reason the payload is refused.
pub open spec fn measurements_with_log(payload: Seq<u8>, logging_buffer: Seq<char>) -> Result<
    MeasurementsView,
    FrameDecodeError,
> {
    if payload.len() < 44 {
        Err(FrameDecodeError::PayloadTooShort)
    } else if pilot_voltage_of(payload[2]).is_none() {
        Err(FrameDecodeError::UnsupportedPilotVoltage(payload[2]))
    } else if proximity_pilot_amps_of(payload[3]).is_none() {
        Err(FrameDecodeError::UnsupportedProximityPilotAmps(payload[3]))
    } else {
        Ok(
            MeasurementsView {
                pilot_voltage: pilot_voltage_of(payload[2]).unwrap(),
                proximity_pilot_amps: proximity_pilot_amps_of(payload[3]).unwrap(),
                phase1_millivolts: be_u32(payload, 4),
                phase2_millivolts: be_u32(payload, 8),
                phase3_millivolts: be_u32(payload, 12),
                phase1_milliamps: be_u32(payload, 16),
                phase2_milliamps: be_u32(payload, 20),
                phase3_milliamps: be_u32(payload, 24),
                wifi_rssi: be_i32(payload, 28),
                uptime_milliseconds: be_i32(payload, 32),
                current_control_pilot_adc: be_u32(payload, 36),
                current_proximity_pilot_adc: be_u32(payload, 40),
                logging_buffer,
            },
        )
    }
}

/// A message of the given type that carries no payload field.
pub open spec fn bare_message(message_type: MqttMessageType, client_id: Seq<char>) -> MessageView {
    MessageView {
        message_type,
        client_id,
        handshake: None,
        firmware: None,
        pwm_percent: None,
        contactor_state: None,
        measurements: None,
    }
}

/// The message by which a device reports a measurement snapshot.
pub open spec fn snapshot_message(
    client_id: Seq<char>,
    contactor_state: bool,
    pwm_percent: u8,
    measurements: MeasurementsView,
) -> MessageView {
    MessageView {
        message_type: MqttMessageType::request_data_collection,
        client_id,
        handshake: None,
        firmware: None,
        pwm_percent: Some(pwm_percent),
        contactor_state: Some(contactor_state),
        measurements: Some(measurements),
    }
}

/// The message that a device frame stands for, or the reason it is refused.
///
/// The declared length is checked first, then the type code, then the
/// payload of a measurement snapshot.
pub open spec fn decoded_frame(
    client_id: Seq<char>,
    message_type: u8,
    payload_length: u32,
    payload: Seq<u8>,
) -> Result<MessageView, FrameDecodeError> {
    if payload_length > 1024 {
        Err(FrameDecodeError::PayloadTooLarge(payload_length))
    } else if message_type == 1 {
        Ok(bare_message(MqttMessageType::response_ping, client_id))
    } else if message_type == 100 {
        Ok(bare_message(MqttMessageType::notify, client_id))
    } else if message_type == 3 {
        Ok(bare_message(MqttMessageType::response_set_pwm_percent, client_id))
    } else if message_type == 4 {
        Ok(bare_message(MqttMessageType::response_set_contactor_state, client_id))
    } else if message_type == 2 {
        match measurements_with_log(payload, log_text(payload.skip(44))) {
            Ok(measurements) => Ok(
                snapshot_message(client_id, payload[0] == 1, payload[1], measurements),
            ),
            Err(error) => Err(error),
        }
    } else {
        Err(FrameDecodeError::UnsupportedMessageType(message_type))
    }
}

fn pilot_voltage_from_code(code: u8) -> (voltage: Option<PilotVoltage>)
    ensures
        voltage == pilot_voltage_of(code),
{
    if code == 0 {
        Some(PilotVoltage::volt_12)
    } else if code == 1 {
        Some(PilotVoltage::volt_9)
    } else if code == 2 {
        Some(PilotVoltage::volt_6)
    } else if code == 3 {
        Some(PilotVoltage::volt_3)
    } else if code == 4 {
        Some(PilotVoltage::fault)
    } else {
        None
    }
}

fn proximity_pilot_amps_from_code(code: u8) -> (amps: Option<ProximityPilotAmps>)
    ensures
        amps == proximity_pilot_amps_of(code),
{
    if code == 0 {
        Some(ProximityPilotAmps::amp_13)
    } else if code == 1 {
        Some(ProximityPilotAmps::amp_20)
    } else if code == 2 {
        Some(ProximityPilotAmps::amp_32)
    } else if code == 3 {
        Some(ProximityPilotAmps::no_cable)
    } else {
        None
    }
}

/// Reads the fixed part of a snapshot payload and joins it with the already
/// decoded log buffer.
pub fn measurements_from_payload(payload: &[u8], logging_buffer: String) -> (result: Result<
    MqttMessageMeasurements,
    FrameDecodeError,
>)
    ensures
        match result {
            Ok(measurements) => measurements_with_log(payload@, logging_buffer@) == Ok::<
                MeasurementsView,
                FrameDecodeError,
            >(measurements@),
            Err(error) => measurements_with_log(payload@, logging_buffer@) == Err::<
                MeasurementsView,
                FrameDecodeError,
            >(error),
        },
{
    if payload.len() < SNAPSHOT_FIXED_LENGTH {
        return Err(FrameDecodeError::PayloadTooShort);
    }
    let pilot_voltage = match pilot_voltage_from_code(payload[2]) {
        Some(voltage) => voltage,
        None => {
            return Err(FrameDecodeError::UnsupportedPilotVoltage(payload[2]));
        },
    };
    let proximity_pilot_amps = match proximity_pilot_amps_from_code(payload[3]) {
        Some(amps) => amps,
        None => {
            return Err(FrameDecodeError::UnsupportedProximityPilotAmps(payload[3]));
        },
    };
    Ok(
        MqttMessageMeasurements {
            pilot_voltage,
            proximity_pilot_amps,
            phase1_millivolts: u32_at(payload, 4),
            phase2_millivolts: u32_at(payload, 8),
            phase3_millivolts: u32_at(payload, 12),
            phase1_milliamps: u32_at(payload, 16),
            phase2_milliamps: u32_at(payload, 20),
            phase3_milliamps: u32_at(payload, 24),
            wifi_rssi: i32_at(payload, 28),
            uptime_milliseconds: i32_at(payload, 32),
            current_control_pilot_adc: u32_at(payload, 36),
            current_proximity_pilot_adc: u32_at(payload, 40),
            logging_buffer,
        },
    )
}

fn bare(message_type: MqttMessageType, client_id: String) -> (msg: MqttMessage)
    ensures
        msg@ == bare_message(message_type, client_id@),
{
    MqttMessage {
        message_type,
        client_id,
        handshake: None,
        firmware: None,
        pwm_percent: None,
        contactor_state: None,
        measurements: None,
    }
}

/// Turns one device frame into the message that is published upstream.
///
/// A frame is refused when its header declares more than 1024 payload bytes,
/// when its type code is unknown, and, for a measurement snapshot, when the
/// payload is shorter than 44 bytes or holds an unknown enum code.
pub fn evse_to_mqtt(client_id: String, message_type: u8, payload_length: u32, payload: &[u8]) -> (result:
    Result<MqttMessage, FrameDecodeError>)
    ensures
        match result {
            Ok(msg) => decoded_frame(client_id@, message_type, payload_length, payload@) == Ok::<
                MessageView,
                FrameDecodeError,
            >(msg@),
            Err(error) => decoded_frame(client_id@, message_type, payload_length, payload@) == Err::<
                MessageView,
                FrameDecodeError,
            >(error),
        },
        payload_length > 1024 ==> result == Err::<MqttMessage, FrameDecodeError>(
            FrameDecodeError::PayloadTooLarge(payload_length),
        ),
        message_type == 2 && payload@.len() < 44 ==> result.is_err(),
{
    if payload_length > MAX_PAYLOAD_LENGTH {
        Err(FrameDecodeError::PayloadTooLarge(payload_length))
    } else if message_type == RESPONSE_TYPE_PONG {
        Ok(bare(MqttMessageType::response_ping, client_id))
    } else if message_type == NOTIFY {
        Ok(bare(MqttMessageType::notify, client_id))
    } else if message_type == RESPONSE_TYPE_SET_PWM_PERCENT {
        Ok(bare(MqttMessageType::response_set_pwm_percent, client_id))
    } else if message_type == RESPONSE_TYPE_SET_CONTACTOR_STATE {
        Ok(bare(MqttMessageType::response_set_contactor_state, client_id))
    } else if message_type == RESPONSE_TYPE_COLLECT_DATA {
        if payload.len() < SNAPSHOT_FIXED_LENGTH {
            return Err(FrameDecodeError::PayloadTooShort);
        }
        let log_bytes = slice_subrange(payload, SNAPSHOT_FIXED_LENGTH, payload.len());
        assert(log_bytes@ =~= payload@.skip(44));
        let logging_buffer = text_from_utf8_lossy(log_bytes);
        match measurements_from_payload(payload, logging_buffer) {
            Ok(measurements) => Ok(
                MqttMessage {
                    message_type: MqttMessageType::request_data_collection,
                    client_id,
                    handshake: None,
                    firmware: None,
                    pwm_percent: Some(payload[1]),
                    contactor_state: Some(payload[0] == 1),
                    measurements: Some(measurements),
                },
            ),
            Err(error) => Err(error),
        }
    } else {
        Err(FrameDecodeError::UnsupportedMessageType(message_type))
    }
}

/// The device command frame with the given code and payload: the code, the
/// payload length as a big-endian `u32`, then the payload.
pub open spec fn command_frame(code: u8, payload: Seq<u8>) -> Seq<u8> {
    seq![code] + u32_be_bytes(payload.len() as u32) + payload
}

/// The firmware push for an image and its checksum, or the refusal of an
/// image that the length field cannot describe.
pub open spec fn firmware_command(crc32: u32, image: Seq<u8>) -> Result<Seq<u8>, CommandEncodeError> {
    if image.len() + 4 > u32::MAX {
        Err(CommandEncodeError::FirmwareTooLarge)
    } else {
        Ok(command_frame(2, u32_be_bytes(crc32) + image))
    }
}

/// The bytes that text in the standard base64 alphabet decodes to; `None`
/// where the text is not valid base64.
pub uninterp spec fn base64_decoded(text: Seq<char>) -> Option<Seq<u8>>;

/// The error of `base64::decode`, carried through unread.
#[verifier::external_type_specification]
#[verifier::external_body]
pub struct ExBase64DecodeError(base64::DecodeError);

/// Calls `base64::decode`, which decodes text in the standard alphabet and
/// fails on any other text. What it returns depends on the text alone; the
/// contract only gives that result its name.
#[verifier::external_body]
fn decode_base64(text: &str) -> (result: Result<Vec<u8>, base64::DecodeError>)
    ensures
        match result {
            Ok(bytes) => base64_decoded(text@) == Some(bytes@),
            Err(_) => base64_decoded(text@).is_none(),
        },
{
    base64::decode(text)
}

/// The device command that a message stands for, or the reason it has none.
pub open spec fn encoded_command(msg: MessageView) -> Result<Seq<u8>, CommandEncodeError> {
    match msg.message_type {
        MqttMessageType::request_ping => Ok(command_frame(1, Seq::empty())),
        MqttMessageType::request_firmware => match msg.firmware {
            None => Err(CommandEncodeError::MissingField),
            Some(firmware) => match base64_decoded(firmware.firmware_data_base64) {
                None => Err(CommandEncodeError::InvalidBase64),
                Some(image) => firmware_command(firmware.firmware_crc32, image),
            },
        },
        MqttMessageType::request_data_collection => Ok(command_frame(3, Seq::empty())),
        MqttMessageType::request_set_pwm_percent => match msg.pwm_percent {
            None => Err(CommandEncodeError::MissingField),
            Some(percent) => Ok(command_frame(4, seq![percent])),
        },
        MqttMessageType::request_set_contactor_state => match msg.contactor_state {
            None => Err(CommandEncodeError::MissingField),
            Some(closed) => Ok(command_frame(5, seq![if closed { 1u8 } else { 0u8 }])),
        },
        other => Err(CommandEncodeError::UnsupportedMessageType(other)),
    }
}

/// Whether the message carries the field that its command needs.
pub open spec fn required_field_present(msg: MessageView) -> bool {
    match msg.message_type {
        MqttMessageType::request_firmware => msg.firmware.is_some(),
        MqttMessageType::request_set_pwm_percent => msg.pwm_percent.is_some(),
        MqttMessageType::request_set_contactor_state => msg.contactor_state.is_some(),
        _ => true,
    }
}

fn frame_with(code: u8, payload: &[u8]) -> (frame: Vec<u8>)
    requires
        payload@.len() <= u32::MAX,
    ensures
        frame@ == command_frame(code, payload@),
{
    let mut frame: Vec<u8> = Vec::new();
    frame.push(code);
    write_u32_be(&mut frame, payload.len() as u32);
    let ghost head = frame@;
    frame.extend_from_slice(payload);
    assert(frame@ =~= head + payload@);
    assert(head =~= seq![code] + u32_be_bytes(payload@.len() as u32));
    frame
}

/// Builds the firmware push from the checksum and the decoded image.
pub fn firmware_frame(crc32: u32, image: &[u8]) -> (result: Result<Vec<u8>, CommandEncodeError>)
    ensures
        match result {
            Ok(frame) => firmware_command(crc32, image@) == Ok::<Seq<u8>, CommandEncodeError>(frame@),
            Err(error) => firmware_command(crc32, image@) == Err::<Seq<u8>, CommandEncodeError>(error),
        },
{
    if image.len() > (u32::MAX - 4) as usize {
        return Err(CommandEncodeError::FirmwareTooLarge);
    }
    let mut payload: Vec<u8> = Vec::new();
    write_u32_be(&mut payload, crc32);
    let ghost head = payload@;
    payload.extend_from_slice(image);
    assert(payload@ =~= head + image@);
    assert(head =~= u32_be_bytes(crc32));
    Ok(frame_with(REQUEST_TYPE_FIRMWARE, payload.as_slice()))
}

/// Turns a message from upstream into the frame that is written to the
/// device.
///
/// Only the five request types have a frame. A request whose field is
/// absent is refused, and so is a firmware image that is not base64.
pub fn mqtt_to_evse(msg: MqttMessage) -> (result: Result<Vec<u8>, CommandEncodeError>)
    ensures
        match result {
            Ok(frame) => encoded_command(msg@) == Ok::<Seq<u8>, CommandEncodeError>(frame@),
            Err(error) => encoded_command(msg@) == Err::<Seq<u8>, CommandEncodeError>(error),
        },
        !required_field_present(msg@) ==> result == Err::<Vec<u8>, CommandEncodeError>(
            CommandEncodeError::MissingField,
        ),
{
    let empty: Vec<u8> = Vec::new();
    match msg.message_type {
        MqttMessageType::request_ping => {
            assert(empty@ =~= Seq::<u8>::empty());
            Ok(frame_with(REQUEST_TYPE_PING, empty.as_slice()))
        },
        MqttMessageType::request_firmware => match msg.firmware {
            None => Err(CommandEncodeError::MissingField),
            Some(firmware) => match decode_base64(firmware.firmware_data_base64.as_str()) {
                Err(_) => Err(CommandEncodeError::InvalidBase64),
                Ok(image) => firmware_frame(firmware.firmware_crc32, image.as_slice()),
            },
        },
        MqttMessageType::request_data_collection => {
            assert(empty@ =~= Seq::<u8>::empty());
            Ok(frame_with(REQUEST_TYPE_COLLECT_DATA, empty.as_slice()))
        },
        MqttMessageType::request_set_pwm_percent => match msg.pwm_percent {
            None => Err(CommandEncodeError::MissingField),
            Some(percent) => {
                let mut payload: Vec<u8> = Vec::new();
                payload.push(percent);
                assert(payload@ =~= seq![percent]);
                Ok(frame_with(REQUEST_TYPE_SET_PWM_PERCENT, payload.as_slice()))
            },
        },
        MqttMessageType::request_set_contactor_state => match msg.contactor_state {
            None => Err(CommandEncodeError::MissingField),
            Some(closed) => {
                let mut payload: Vec<u8> = Vec::new();
                let flag: u8 = if closed {
                    1
                } else {
                    0
                };
                payload.push(flag);
                assert(payload@ =~= seq![flag]);
                Ok(frame_with(REQUEST_TYPE_SET_CONTACTOR_STATE, payload.as_slice()))
            },
        },
        other => Err(CommandEncodeError::UnsupportedMessageType(other)),
    }
}

/// The wire code of a pilot voltage.
pub open spec fn pilot_voltage_code(voltage: PilotVoltage) -> u8 {
    match voltage {
        PilotVoltage::volt_12 => 0,
        PilotVoltage::volt_9 => 1,
        PilotVoltage::volt_6 => 2,
        PilotVoltage::volt_3 => 3,
        PilotVoltage::fault => 4,
    }
}

/// The wire code of a cable rating.
pub open spec fn proximity_pilot_amps_code(amps: ProximityPilotAmps) -> u8 {
    match amps {
        ProximityPilotAmps::amp_13 => 0,
        ProximityPilotAmps::amp_20 => 1,
        ProximityPilotAmps::amp_32 => 2,
        ProximityPilotAmps::no_cable => 3,
    }
}

/// The 44 bytes that open a snapshot payload.
pub open spec fn snapshot_fixed_part(
    contactor_state: bool,
    pwm_percent: u8,
    measurements: MeasurementsView,
) -> Seq<u8> {
    seq![
        if contactor_state {
            1u8
        } else {
            0u8
        },
        pwm_percent,
        pilot_voltage_code(measurements.pilot_voltage),
        proximity_pilot_amps_code(measurements.proximity_pilot_amps),
    ] + u32_be_bytes(measurements.phase1_millivolts) + u32_be_bytes(measurements.phase2_millivolts)
        + u32_be_bytes(measurements.phase3_millivolts) + u32_be_bytes(measurements.phase1_milliamps)
        + u32_be_bytes(measurements.phase2_milliamps) + u32_be_bytes(measurements.phase3_milliamps)
        + i32_be_bytes(measurements.wifi_rssi) + i32_be_bytes(measurements.uptime_milliseconds)
        + u32_be_bytes(measurements.current_control_pilot_adc) + u32_be_bytes(
        measurements.current_proximity_pilot_adc,
    )
}

/// The payload by which a device reports a snapshot: the fixed part, then
/// the log buffer in UTF-8.
pub open spec fn snapshot_payload(
    contactor_state: bool,
    pwm_percent: u8,
    measurements: MeasurementsView,
) -> Seq<u8> {
    snapshot_fixed_part(contactor_state, pwm_percent, measurements) + encode_utf8(
        measurements.logging_buffer,
    )
}

fn code_of_pilot_voltage(voltage: PilotVoltage) -> (code: u8)
    ensures
        code == pilot_voltage_code(voltage),
{
    match voltage {
        PilotVoltage::volt_12 => 0,
        PilotVoltage::volt_9 => 1,
        PilotVoltage::volt_6 => 2,
        PilotVoltage::volt_3 => 3,
        PilotVoltage::fault => 4,
    }
}

fn code_of_proximity_pilot_amps(amps: ProximityPilotAmps) -> (code: u8)
    ensures
        code == proximity_pilot_amps_code(amps),
{
    match amps {
        ProximityPilotAmps::amp_13 => 0,
        ProximityPilotAmps::amp_20 => 1,
        ProximityPilotAmps::amp_32 => 2,
        ProximityPilotAmps::no_cable => 3,
    }
}

/// Lays a snapshot out as the payload of a device frame.
pub fn snapshot_to_payload(
    contactor_state: bool,
    pwm_percent: u8,
    measurements: &MqttMessageMeasurements,
) -> (payload: Vec<u8>)
    ensures
        payload@ == snapshot_payload(contactor_state, pwm_percent, measurements@),
{
    let mut payload: Vec<u8> = Vec::new();
    let flag: u8 = if contactor_state {
        1
    } else {
        0
    };
    payload.push(flag);
    payload.push(pwm_percent);
    payload.push(code_of_pilot_voltage(measurements.pilot_voltage));
    payload.push(code_of_proximity_pilot_amps(measurements.proximity_pilot_amps));
    assert(payload@ =~= seq![
        flag,
        pwm_percent,
        pilot_voltage_code(measurements.pilot_voltage),
        proximity_pilot_amps_code(measurements.proximity_pilot_amps),
    ]);
    write_u32_be(&mut payload, measurements.phase1_millivolts);
    write_u32_be(&mut payload, measurements.phase2_millivolts);
    write_u32_be(&mut payload, measurements.phase3_millivolts);
    write_u32_be(&mut payload, measurements.phase1_milliamps);
    write_u32_be(&mut payload, measurements.phase2_milliamps);
    write_u32_be(&mut payload, measurements.phase3_milliamps);
    write_i32_be(&mut payload, measurements.wifi_rssi);
    write_i32_be(&mut payload, measurements.uptime_milliseconds);
    write_u32_be(&mut payload, measurements.current_control_pilot_adc);
    write_u32_be(&mut payload, measurements.current_proximity_pilot_adc);
    let ghost head = payload@;
    let log_bytes = measurements.logging_buffer.as_str().as_bytes();
    payload.extend_from_slice(log_bytes);
    assert(payload@ =~= head + log_bytes@);
    payload
}

/// Whether the fields that a message carries are those of its type.
///
/// A `request_data_collection` is either the bare command or the snapshot
/// that answers it; `response_collect_data` names the snapshot alone.
pub open spec fn well_formed(msg: MessageView) -> bool {
    let carries_snapshot = msg.handshake.is_none() && msg.firmware.is_none()
        && msg.pwm_percent.is_some() && msg.contactor_state.is_some()
        && msg.measurements.is_some();
    let carries_nothing = msg.handshake.is_none() && msg.firmware.is_none()
        && msg.pwm_percent.is_none() && msg.contactor_state.is_none()
        && msg.measurements.is_none();
    match msg.message_type {
        MqttMessageType::new_connection => msg.handshake.is_some() && msg.firmware.is_none()
            && msg.pwm_percent.is_none() && msg.contactor_state.is_none()
            && msg.measurements.is_none(),
        MqttMessageType::request_firmware => msg.handshake.is_none() && msg.firmware.is_some()
            && msg.pwm_percent.is_none() && msg.contactor_state.is_none()
            && msg.measurements.is_none(),
        MqttMessageType::request_set_pwm_percent => msg.handshake.is_none()
            && msg.firmware.is_none() && msg.pwm_percent.is_some()
            && msg.contactor_state.is_none() && msg.measurements.is_none(),
        MqttMessageType::request_set_contactor_state => msg.handshake.is_none()
            && msg.firmware.is_none() && msg.pwm_percent.is_none()
            && msg.contactor_state.is_some() && msg.measurements.is_none(),
        MqttMessageType::request_data_collection => carries_nothing || carries_snapshot,
        MqttMessageType::response_collect_data => carries_snapshot,
        _ => carries_nothing,
    }
}

/// Every message that a device frame decodes to carries exactly the fields
/// of its type.
pub proof fn lemma_decoded_frame_well_formed(
    client_id: Seq<char>,
    message_type: u8,
    payload_length: u32,
    payload: Seq<u8>,
)
    requires
        decoded_frame(client_id, message_type, payload_length, payload).is_ok(),
    ensures
        well_formed(decoded_frame(client_id, message_type, payload_length, payload).unwrap()),
{
}

/// A snapshot payload shorter than its fixed part never decodes.
pub proof fn lemma_short_snapshot_refused(
    client_id: Seq<char>,
    payload_length: u32,
    payload: Seq<u8>,
)
    requires
        payload.len() < 44,
    ensures
        decoded_frame(client_id, 2, payload_length, payload).is_err(),
{
}

/// A message without the field that its command needs is never encoded.
pub proof fn lemma_missing_field_refused(msg: MessageView)
    requires
        !required_field_present(msg),
    ensures
        encoded_command(msg) == Err::<Seq<u8>, CommandEncodeError>(CommandEncodeError::MissingField),
{
}

/// That the four bytes at `at` read as the unsigned value `n`.
#[verifier::opaque]
spec fn holds_u32(bytes: Seq<u8>, at: int, n: u32) -> bool {
    0 <= at && at + 4 <= bytes.len() && be_u32(bytes, at) == n
}

/// That the four bytes at `at` read as the signed value `n`.
#[verifier::opaque]
spec fn holds_i32(bytes: Seq<u8>, at: int, n: i32) -> bool {
    0 <= at && at + 4 <= bytes.len() && be_i32(bytes, at) == n
}

proof fn lemma_holds_after_append(bytes: Seq<u8>, more: Seq<u8>)
    ensures
        forall|at: int, n: u32| #[trigger]
            holds_u32(bytes, at, n) ==> holds_u32(bytes + more, at, n),
        forall|at: int, n: i32| #[trigger]
            holds_i32(bytes, at, n) ==> holds_i32(bytes + more, at, n),
{
    reveal(holds_u32);
    reveal(holds_i32);
    lemma_append_keeps_reads(bytes, more);
}

proof fn lemma_append_u32(bytes: Seq<u8>, n: u32)
    ensures
        holds_u32(bytes + u32_be_bytes(n), bytes.len() as int, n),
        (bytes + u32_be_bytes(n)).len() == bytes.len() + 4,
        forall|at: int, k: u32| #[trigger]
            holds_u32(bytes, at, k) ==> holds_u32(bytes + u32_be_bytes(n), at, k),
        forall|at: int, k: i32| #[trigger]
            holds_i32(bytes, at, k) ==> holds_i32(bytes + u32_be_bytes(n), at, k),
{
    reveal(holds_u32);
    lemma_appended_u32(bytes, n);
    lemma_holds_after_append(bytes, u32_be_bytes(n));
}

proof fn lemma_append_i32(bytes: Seq<u8>, n: i32)
    ensures
        holds_i32(bytes + i32_be_bytes(n), bytes.len() as int, n),
        (bytes + i32_be_bytes(n)).len() == bytes.len() + 4,
        forall|at: int, k: u32| #[trigger]
            holds_u32(bytes, at, k) ==> holds_u32(bytes + i32_be_bytes(n), at, k),
        forall|at: int, k: i32| #[trigger]
            holds_i32(bytes, at, k) ==> holds_i32(bytes + i32_be_bytes(n), at, k),
{
    reveal(holds_i32);
    lemma_appended_i32(bytes, n);
    lemma_holds_after_append(bytes, i32_be_bytes(n));
}

proof fn lemma_fixed_part_fields(contactor_state: bool, pwm_percent: u8, m: MeasurementsView)
    ensures
        ({
            let fixed = snapshot_fixed_part(contactor_state, pwm_percent, m);
            &&& fixed.len() == 44
            &&& holds_u32(fixed, 4, m.phase1_millivolts)
            &&& holds_u32(fixed, 8, m.phase2_millivolts)
            &&& holds_u32(fixed, 12, m.phase3_millivolts)
            &&& holds_u32(fixed, 16, m.phase1_milliamps)
            &&& holds_u32(fixed, 20, m.phase2_milliamps)
            &&& holds_u32(fixed, 24, m.phase3_milliamps)
            &&& holds_i32(fixed, 28, m.wifi_rssi)
            &&& holds_i32(fixed, 32, m.uptime_milliseconds)
            &&& holds_u32(fixed, 36, m.current_control_pilot_adc)
            &&& holds_u32(fixed, 40, m.current_proximity_pilot_adc)
        }),
{
    let p0 = seq![
        if contactor_state {
            1u8
        } else {
            0u8
        },
        pwm_percent,
        pilot_voltage_code(m.pilot_voltage),
        proximity_pilot_amps_code(m.proximity_pilot_amps),
    ];
    let p1 = p0 + u32_be_bytes(m.phase1_millivolts);
    let p2 = p1 + u32_be_bytes(m.phase2_millivolts);
    let p3 = p2 + u32_be_bytes(m.phase3_millivolts);
    let p4 = p3 + u32_be_bytes(m.phase1_milliamps);
    let p5 = p4 + u32_be_bytes(m.phase2_milliamps);
    let p6 = p5 + u32_be_bytes(m.phase3_milliamps);
    let p7 = p6 + i32_be_bytes(m.wifi_rssi);
    let p8 = p7 + i32_be_bytes(m.uptime_milliseconds);
    let p9 = p8 + u32_be_bytes(m.current_control_pilot_adc);
    let p10 = p9 + u32_be_bytes(m.current_proximity_pilot_adc);
    assert(p0.len() == 4);
    lemma_append_u32(p0, m.phase1_millivolts);
    lemma_append_u32(p1, m.phase2_millivolts);
    lemma_append_u32(p2, m.phase3_millivolts);
    lemma_append_u32(p3, m.phase1_milliamps);
    lemma_append_u32(p4, m.phase2_milliamps);
    lemma_append_u32(p5, m.phase3_milliamps);
    lemma_append_i32(p6, m.wifi_rssi);
    lemma_append_i32(p7, m.uptime_milliseconds);
    lemma_append_u32(p8, m.current_control_pilot_adc);
    lemma_append_u32(p9, m.current_proximity_pilot_adc);
}

proof fn lemma_fixed_part_head(contactor_state: bool, pwm_percent: u8, m: MeasurementsView)
    ensures
        ({
            let fixed = snapshot_fixed_part(contactor_state, pwm_percent, m);
            &&& fixed[0] == if contactor_state {
                1u8
            } else {
                0u8
            }
            &&& fixed[1] == pwm_percent
            &&& fixed[2] == pilot_voltage_code(m.pilot_voltage)
            &&& fixed[3] == proximity_pilot_amps_code(m.proximity_pilot_amps)
        }),
{
    let p0 = seq![
        if contactor_state {
            1u8
        } else {
            0u8
        },
        pwm_percent,
        pilot_voltage_code(m.pilot_voltage),
        proximity_pilot_amps_code(m.proximity_pilot_amps),
    ];
    assert(p0.len() == 4);
}

/// The fixed part of a snapshot payload has 44 bytes and reads back as the
/// values it was laid out from.
proof fn lemma_fixed_part_reads(contactor_state: bool, pwm_percent: u8, m: MeasurementsView)
    ensures
        ({
            let fixed = snapshot_fixed_part(contactor_state, pwm_percent, m);
            &&& fixed.len() == 44
            &&& fixed[0] == if contactor_state {
                1u8
            } else {
                0u8
            }
            &&& fixed[1] == pwm_percent
            &&& fixed[2] == pilot_voltage_code(m.pilot_voltage)
            &&& fixed[3] == proximity_pilot_amps_code(m.proximity_pilot_amps)
            &&& be_u32(fixed, 4) == m.phase1_millivolts
            &&& be_u32(fixed, 8) == m.phase2_millivolts
            &&& be_u32(fixed, 12) == m.phase3_millivolts
            &&& be_u32(fixed, 16) == m.phase1_milliamps
            &&& be_u32(fixed, 20) == m.phase2_milliamps
            &&& be_u32(fixed, 24) == m.phase3_milliamps
            &&& be_i32(fixed, 28) == m.wifi_rssi
            &&& be_i32(fixed, 32) == m.uptime_milliseconds
            &&& be_u32(fixed, 36) == m.current_control_pilot_adc
            &&& be_u32(fixed, 40) == m.current_proximity_pilot_adc
        }),
{
    lemma_fixed_part_fields(contactor_state, pwm_percent, m);
    lemma_fixed_part_head(contactor_state, pwm_percent, m);
    reveal(holds_u32);
    reveal(holds_i32);
}

/// Decoding the payload that a snapshot is laid out as gives the snapshot
/// back, whatever its field values, as long as the payload fits a frame.
pub proof fn lemma_snapshot_round_trip(
    client_id: Seq<char>,
    contactor_state: bool,
    pwm_percent: u8,
    measurements: MeasurementsView,
)
    requires
        snapshot_payload(contactor_state, pwm_percent, measurements).len() <= 1024,
    ensures
        decoded_frame(
            client_id,
            2,
            snapshot_payload(contactor_state, pwm_percent, measurements).len() as u32,
            snapshot_payload(contactor_state, pwm_percent, measurements),
        ) == Ok::<MessageView, FrameDecodeError>(
            snapshot_message(client_id, contactor_state, pwm_percent, measurements),
        ),
{
    let m = measurements;
    let fixed = snapshot_fixed_part(contactor_state, pwm_percent, m);
    let log_bytes = encode_utf8(m.logging_buffer);
    let payload = fixed + log_bytes;
    lemma_fixed_part_reads(contactor_state, pwm_percent, m);
    lemma_append_keeps_reads(fixed, log_bytes);
    assert(payload.skip(44) =~= log_bytes);
    encode_utf8_valid_utf8(m.logging_buffer);
    encode_utf8_decode_utf8(m.logging_buffer);
    assert(log_text(payload.skip(44)) == m.logging_buffer);
    assert(payload[0] == fixed[0]);
    assert(payload[1] == fixed[1]);
    assert(payload[2] == fixed[2]);
    assert(payload[3] == fixed[3]);
    assert(measurements_with_log(payload, m.logging_buffer) == Ok::<
        MeasurementsView,
        FrameDecodeError,
    >(m));
}

} // verus!
