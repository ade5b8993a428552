use dehneevse_mqtt_bridge::protocol::{
    evse_to_mqtt, firmware_frame, measurements_from_payload, mqtt_to_evse, snapshot_to_payload,
    CommandEncodeError, FrameDecodeError, MqttMessage, MqttMessageFirmware, MqttMessageHandshake,
    MqttMessageMeasurements, MqttMessageType, PilotVoltage, ProximityPilotAmps,
};
use dehneevse_mqtt_bridge::wire::{i32_at, u32_at};

fn bare(message_type: MqttMessageType, client_id: &str) -> MqttMessage {
    MqttMessage {
        message_type,
        client_id: client_id.to_string(),
        handshake: None,
        firmware: None,
        pwm_percent: None,
        contactor_state: None,
        measurements: None,
    }
}

fn sample_measurements() -> MqttMessageMeasurements {
    MqttMessageMeasurements {
        pilot_voltage: PilotVoltage::volt_9,
        proximity_pilot_amps: ProximityPilotAmps::amp_32,
        phase1_millivolts: 230_001,
        phase2_millivolts: 230_002,
        phase3_millivolts: 230_003,
        phase1_milliamps: 16_001,
        phase2_milliamps: 16_002,
        phase3_milliamps: 16_003,
        wifi_rssi: -67,
        uptime_milliseconds: 123_456,
        current_control_pilot_adc: 2048,
        current_proximity_pilot_adc: 1024,
        logging_buffer: "boot ok".to_string(),
    }
}

fn snapshot_message(
    client_id: &str,
    contactor_state: bool,
    pwm_percent: u8,
    measurements: MqttMessageMeasurements,
) -> MqttMessage {
    MqttMessage {
        message_type: MqttMessageType::request_data_collection,
        client_id: client_id.to_string(),
        handshake: None,
        firmware: None,
        pwm_percent: Some(pwm_percent),
        contactor_state: Some(contactor_state),
        measurements: Some(measurements),
    }
}

#[test]
fn reads_big_endian_unsigned() {
    let bytes = [0xFF, 0x12, 0x34, 0x56, 0x78, 0x00];
    assert_eq!(u32_at(&bytes, 1), 0x1234_5678);
    assert_eq!(u32_at(&bytes, 0), 0xFF12_3456);
    assert_eq!(u32_at(&[0, 0, 0, 0], 0), 0);
    assert_eq!(u32_at(&[0xFF, 0xFF, 0xFF, 0xFF], 0), u32::MAX);
}

#[test]
fn reads_big_endian_signed() {
    assert_eq!(i32_at(&[0xFF, 0xFF, 0xFF, 0xFF], 0), -1);
    assert_eq!(i32_at(&[0x80, 0x00, 0x00, 0x00], 0), i32::MIN);
    assert_eq!(i32_at(&[0x7F, 0xFF, 0xFF, 0xFF], 0), i32::MAX);
    assert_eq!(i32_at(&[9, 0xFF, 0xFF, 0xFF, 0xBD], 1), -67);
}

#[test]
fn decodes_frames_without_payload() {
    assert_eq!(
        evse_to_mqtt("dev".to_string(), 1, 0, &[]),
        Ok(bare(MqttMessageType::response_ping, "dev"))
    );
    assert_eq!(
        evse_to_mqtt("dev".to_string(), 3, 0, &[]),
        Ok(bare(MqttMessageType::response_set_pwm_percent, "dev"))
    );
    assert_eq!(
        evse_to_mqtt("dev".to_string(), 4, 0, &[]),
        Ok(bare(MqttMessageType::response_set_contactor_state, "dev"))
    );
    assert_eq!(
        evse_to_mqtt("dev".to_string(), 100, 0, &[]),
        Ok(bare(MqttMessageType::notify, "dev"))
    );
}

#[test]
fn refuses_unknown_type_codes() {
    for code in [0u8, 5, 6, 99, 101, 255] {
        assert_eq!(
            evse_to_mqtt("dev".to_string(), code, 0, &[]),
            Err(FrameDecodeError::UnsupportedMessageType(code))
        );
    }
}

#[test]
fn refuses_declared_length_over_the_limit() {
    assert_eq!(
        evse_to_mqtt("dev".to_string(), 1, 1025, &[]),
        Err(FrameDecodeError::PayloadTooLarge(1025))
    );
    assert_eq!(
        evse_to_mqtt("dev".to_string(), 2, u32::MAX, &[0; 44]),
        Err(FrameDecodeError::PayloadTooLarge(u32::MAX))
    );
    // The limit itself is accepted, and the length is checked before the type.
    assert!(evse_to_mqtt("dev".to_string(), 1, 1024, &[]).is_ok());
    assert_eq!(
        evse_to_mqtt("dev".to_string(), 77, 5000, &[]),
        Err(FrameDecodeError::PayloadTooLarge(5000))
    );
}

#[test]
fn refuses_every_short_snapshot() {
    for len in 0..44usize {
        let payload = vec![0u8; len];
        assert_eq!(
            evse_to_mqtt("dev".to_string(), 2, len as u32, &payload),
            Err(FrameDecodeError::PayloadTooShort)
        );
    }
    assert!(evse_to_mqtt("dev".to_string(), 2, 44, &[0u8; 44]).is_ok());
}

#[test]
fn refuses_unknown_enum_codes() {
    let mut payload = [0u8; 44];
    payload[2] = 5;
    assert_eq!(
        evse_to_mqtt("dev".to_string(), 2, 44, &payload),
        Err(FrameDecodeError::UnsupportedPilotVoltage(5))
    );
    payload[2] = 4;
    payload[3] = 4;
    assert_eq!(
        evse_to_mqtt("dev".to_string(), 2, 44, &payload),
        Err(FrameDecodeError::UnsupportedProximityPilotAmps(4))
    );
    // The pilot voltage is looked at first.
    payload[2] = 200;
    payload[3] = 200;
    assert_eq!(
        evse_to_mqtt("dev".to_string(), 2, 44, &payload),
        Err(FrameDecodeError::UnsupportedPilotVoltage(200))
    );
}

#[test]
fn decodes_snapshot_at_fixed_offsets() {
    let mut payload = vec![1u8, 50, 0, 1];
    for value in [1u32, 2, 3, 4, 5, 6] {
        payload.extend_from_slice(&value.to_be_bytes());
    }
    payload.extend_from_slice(&(-70i32).to_be_bytes());
    payload.extend_from_slice(&(86_400_000i32).to_be_bytes());
    payload.extend_from_slice(&9u32.to_be_bytes());
    payload.extend_from_slice(&10u32.to_be_bytes());
    assert_eq!(payload.len(), 44);
    let msg = evse_to_mqtt("EVSE-1".to_string(), 2, 44, &payload).unwrap();
    assert_eq!(
        msg,
        snapshot_message(
            "EVSE-1",
            true,
            50,
            MqttMessageMeasurements {
                pilot_voltage: PilotVoltage::volt_12,
                proximity_pilot_amps: ProximityPilotAmps::amp_20,
                phase1_millivolts: 1,
                phase2_millivolts: 2,
                phase3_millivolts: 3,
                phase1_milliamps: 4,
                phase2_milliamps: 5,
                phase3_milliamps: 6,
                wifi_rssi: -70,
                uptime_milliseconds: 86_400_000,
                current_control_pilot_adc: 9,
                current_proximity_pilot_adc: 10,
                logging_buffer: String::new(),
            }
        )
    );
}

#[test]
fn contactor_is_closed_only_for_one() {
    let mut payload = [0u8; 44];
    for (code, closed) in [(0u8, false), (1, true), (2, false), (255, false)] {
        payload[0] = code;
        let msg = evse_to_mqtt("dev".to_string(), 2, 44, &payload).unwrap();
        assert_eq!(msg.contactor_state, Some(closed));
    }
}

#[test]
fn decodes_every_enum_code() {
    let voltages = [
        PilotVoltage::volt_12,
        PilotVoltage::volt_9,
        PilotVoltage::volt_6,
        PilotVoltage::volt_3,
        PilotVoltage::fault,
    ];
    let amps = [
        ProximityPilotAmps::amp_13,
        ProximityPilotAmps::amp_20,
        ProximityPilotAmps::amp_32,
        ProximityPilotAmps::no_cable,
    ];
    let mut payload = [0u8; 44];
    for (v, voltage) in voltages.iter().enumerate() {
        for (a, rating) in amps.iter().enumerate() {
            payload[2] = v as u8;
            payload[3] = a as u8;
            let m = evse_to_mqtt("dev".to_string(), 2, 44, &payload).unwrap().measurements.unwrap();
            assert_eq!(m.pilot_voltage, *voltage);
            assert_eq!(m.proximity_pilot_amps, *rating);
        }
    }
}

#[test]
fn log_buffer_is_decoded_lossily() {
    let mut payload = vec![0u8; 44];
    payload.extend_from_slice(b"charging \xE2\x9A\xA1");
    let m = evse_to_mqtt("dev".to_string(), 2, payload.len() as u32, &payload)
        .unwrap()
        .measurements
        .unwrap();
    assert_eq!(m.logging_buffer, "charging \u{26A1}");

    let mut payload = vec![0u8; 44];
    payload.extend_from_slice(&[b'o', b'k', 0xFF, b'!']);
    let m = evse_to_mqtt("dev".to_string(), 2, payload.len() as u32, &payload)
        .unwrap()
        .measurements
        .unwrap();
    assert_eq!(m.logging_buffer, "ok\u{FFFD}!");
}

#[test]
fn measurements_take_the_given_log_text() {
    let mut payload = vec![0u8; 44];
    payload[2] = 3;
    payload[3] = 2;
    payload[4..8].copy_from_slice(&0xAABB_CCDDu32.to_be_bytes());
    let m = measurements_from_payload(&payload, "given".to_string()).unwrap();
    assert_eq!(m.pilot_voltage, PilotVoltage::volt_3);
    assert_eq!(m.proximity_pilot_amps, ProximityPilotAmps::amp_32);
    assert_eq!(m.phase1_millivolts, 0xAABB_CCDD);
    assert_eq!(m.logging_buffer, "given");
    assert_eq!(
        measurements_from_payload(&payload[..43], String::new()),
        Err(FrameDecodeError::PayloadTooShort)
    );
}

#[test]
fn snapshot_payload_has_the_documented_layout() {
    let payload = snapshot_to_payload(true, 80, &sample_measurements());
    let mut expected = vec![1u8, 80, 1, 2];
    for value in [230_001u32, 230_002, 230_003, 16_001, 16_002, 16_003] {
        expected.extend_from_slice(&value.to_be_bytes());
    }
    expected.extend_from_slice(&(-67i32).to_be_bytes());
    expected.extend_from_slice(&123_456i32.to_be_bytes());
    expected.extend_from_slice(&2048u32.to_be_bytes());
    expected.extend_from_slice(&1024u32.to_be_bytes());
    expected.extend_from_slice(b"boot ok");
    assert_eq!(payload, expected);
}

#[test]
fn snapshot_round_trips() {
    let measurements = sample_measurements();
    let payload = snapshot_to_payload(false, 33, &measurements);
    assert_eq!(
        evse_to_mqtt("dev".to_string(), 2, payload.len() as u32, &payload),
        Ok(snapshot_message("dev", false, 33, measurements))
    );
}

#[test]
fn snapshot_round_trips_at_the_boundaries() {
    let voltages = [
        PilotVoltage::volt_12,
        PilotVoltage::volt_9,
        PilotVoltage::volt_6,
        PilotVoltage::volt_3,
        PilotVoltage::fault,
    ];
    let amps = [
        ProximityPilotAmps::amp_13,
        ProximityPilotAmps::amp_20,
        ProximityPilotAmps::amp_32,
        ProximityPilotAmps::no_cable,
    ];
    for voltage in voltages {
        for rating in amps {
            for (rssi, uptime, word, pwm, closed) in [
                (i32::MIN, 0i32, 0u32, 0u8, false),
                (i32::MAX, i32::MAX, u32::MAX, 255, true),
                (-1, i32::MIN, 0x8000_0000, 100, true),
                (0, 1, 0x0102_0304, 1, false),
            ] {
                let measurements = MqttMessageMeasurements {
                    pilot_voltage: voltage,
                    proximity_pilot_amps: rating,
                    phase1_millivolts: word,
                    phase2_millivolts: word.wrapping_add(1),
                    phase3_millivolts: word.wrapping_sub(1),
                    phase1_milliamps: word ^ 0xFFFF,
                    phase2_milliamps: word >> 1,
                    phase3_milliamps: word,
                    wifi_rssi: rssi,
                    uptime_milliseconds: uptime,
                    current_control_pilot_adc: word,
                    current_proximity_pilot_adc: !word,
                    logging_buffer: "gr\u{FC}n \u{1F50C}".to_string(),
                };
                let payload = snapshot_to_payload(closed, pwm, &measurements);
                assert_eq!(
                    evse_to_mqtt("id".to_string(), 2, payload.len() as u32, &payload),
                    Ok(snapshot_message("id", closed, pwm, measurements))
                );
            }
        }
    }
}

#[test]
fn encodes_commands_without_payload() {
    assert_eq!(mqtt_to_evse(bare(MqttMessageType::request_ping, "dev")), Ok(vec![1, 0, 0, 0, 0]));
    assert_eq!(
        mqtt_to_evse(bare(MqttMessageType::request_data_collection, "dev")),
        Ok(vec![3, 0, 0, 0, 0])
    );
}

#[test]
fn encodes_pwm_and_contactor() {
    let mut msg = bare(MqttMessageType::request_set_pwm_percent, "dev");
    msg.pwm_percent = Some(75);
    assert_eq!(mqtt_to_evse(msg), Ok(vec![4, 0, 0, 0, 1, 75]));

    let mut msg = bare(MqttMessageType::request_set_contactor_state, "dev");
    msg.contactor_state = Some(true);
    assert_eq!(mqtt_to_evse(msg), Ok(vec![5, 0, 0, 0, 1, 1]));

    let mut msg = bare(MqttMessageType::request_set_contactor_state, "dev");
    msg.contactor_state = Some(false);
    assert_eq!(mqtt_to_evse(msg), Ok(vec![5, 0, 0, 0, 1, 0]));
}

#[test]
fn encodes_firmware_after_decoding_base64() {
    let mut msg = bare(MqttMessageType::request_firmware, "dev");
    msg.firmware = Some(MqttMessageFirmware {
        firmware_data_base64: "aGVsbG8=".to_string(),
        firmware_crc32: 0xDEAD_BEEF,
    });
    assert_eq!(
        mqtt_to_evse(msg),
        Ok(vec![2, 0, 0, 0, 9, 0xDE, 0xAD, 0xBE, 0xEF, b'h', b'e', b'l', b'l', b'o'])
    );

    let mut msg = bare(MqttMessageType::request_firmware, "dev");
    msg.firmware =
        Some(MqttMessageFirmware { firmware_data_base64: String::new(), firmware_crc32: 1 });
    assert_eq!(mqtt_to_evse(msg), Ok(vec![2, 0, 0, 0, 4, 0, 0, 0, 1]));
}

#[test]
fn firmware_frame_prefixes_the_checksum() {
    assert_eq!(
        firmware_frame(0x0102_0304, &[9, 8, 7]),
        Ok(vec![2, 0, 0, 0, 7, 1, 2, 3, 4, 9, 8, 7])
    );
    let image = vec![0xAB; 300];
    let frame = firmware_frame(0, &image).unwrap();
    assert_eq!(frame.len(), 5 + 4 + 300);
    assert_eq!(&frame[..5], &[2, 0, 0, 1, 0x30]);
    assert_eq!(&frame[9..], &image[..]);
}

#[test]
fn refuses_firmware_that_is_not_base64() {
    let mut msg = bare(MqttMessageType::request_firmware, "dev");
    msg.firmware = Some(MqttMessageFirmware {
        firmware_data_base64: "not base64!".to_string(),
        firmware_crc32: 0,
    });
    assert_eq!(mqtt_to_evse(msg), Err(CommandEncodeError::InvalidBase64));
}

#[test]
fn refuses_commands_without_their_field() {
    for message_type in [
        MqttMessageType::request_firmware,
        MqttMessageType::request_set_pwm_percent,
        MqttMessageType::request_set_contactor_state,
    ] {
        assert_eq!(mqtt_to_evse(bare(message_type, "dev")), Err(CommandEncodeError::MissingField));
    }
    // A field of another command does not stand in for the missing one.
    let mut msg = bare(MqttMessageType::request_set_pwm_percent, "dev");
    msg.contactor_state = Some(true);
    assert_eq!(mqtt_to_evse(msg), Err(CommandEncodeError::MissingField));
}

#[test]
fn refuses_messages_that_are_not_commands() {
    for message_type in [
        MqttMessageType::new_connection,
        MqttMessageType::notify,
        MqttMessageType::response_ping,
        MqttMessageType::response_collect_data,
        MqttMessageType::response_set_pwm_percent,
        MqttMessageType::response_set_contactor_state,
    ] {
        let mut msg = bare(message_type, "dev");
        msg.handshake = Some(MqttMessageHandshake { firmware_version: 1 });
        assert_eq!(
            mqtt_to_evse(msg),
            Err(CommandEncodeError::UnsupportedMessageType(message_type))
        );
    }
}
