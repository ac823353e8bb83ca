use rm_referee::codec::decode_message;
use rm_referee::codec::encode_message;
use rm_referee::errors::DecodeError;
use rm_referee::frame::deframe;
use rm_referee::graphic::decode_graphic;
use rm_referee::proto::EventData;
use rm_referee::proto::GameProgress;
use rm_referee::proto::GameRobotStatus;
use rm_referee::proto::GameStatus;
use rm_referee::proto::Message;
use rm_referee::proto::RefereeWarning;
use rm_referee::proto::StudentInteractiveData;
use rm_referee::proto::StudentInteractiveDataType;
use rm_referee::proto::GameType;
use rm_referee::crc::crc16;
use rm_referee::crc::crc8;
use rm_referee::session::SequencedWriter;
use rm_referee::session::TopicSlots;

fn sample_robot_status(hp: u16) -> GameRobotStatus {
    GameRobotStatus {
        robot_id: 3,
        robot_level: 2,
        remain_hp: hp,
        max_hp: 500,
        shooter_id1_17mm_cooling_rate: 10,
        shooter_id1_17mm_cooling_limit: 240,
        shooter_id1_17mm_speed_limit: 30,
        shooter_id2_17mm_cooling_rate: 11,
        shooter_id2_17mm_cooling_limit: 241,
        shooter_id2_17mm_speed_limit: 31,
        shooter_id1_42mm_cooling_rate: 12,
        shooter_id1_42mm_cooling_limit: 242,
        shooter_id1_42mm_speed_limit: 16,
        chassis_power_limit: 120,
        mains_power_gimbal_output: true,
        mains_power_chassis_output: false,
        mains_power_shooter_output: true,
    }
}

fn frame_of(m: &Message, dl: u16, seq: u8) -> Vec<u8> {
    let mut w = SequencedWriter::new();
    let mut bytes = Vec::new();
    for _ in 0..seq {
        // advance the writer so the frame carries the wanted number
        bytes = w
            .send_message_with_known_data_length(m, dl)
            .expect("encode failed");
    }
    let _ = bytes;
    w.send_message_with_known_data_length(m, dl).expect("encode failed")
}

#[test]
fn graphic_data_size() {
    let mut data = vec![0u8; 15];
    for i in 0u8..=0b111 {
        data[3] = i * 0b0000_0100;
        let g = decode_graphic(&data, 0).expect("graphic should decode");
        assert_eq!(g.graphic_type, i);
    }
}

#[test]
fn referee_warning_size() {
    let mut data = vec![0u8; 2];
    for i in 1u8..=0b11 {
        data[0] = i;
        let mut payload = vec![0x04u8, 0x01];
        payload.extend_from_slice(&data);
        let m = decode_message(&payload).expect("warning should decode");
        match (i, m) {
            (1, Message::RefereeWarning(RefereeWarning::YellowCard { foul_robot_id })) => {
                assert_eq!(foul_robot_id, 0)
            }
            (2, Message::RefereeWarning(RefereeWarning::RedCard { .. })) => {}
            (3, Message::RefereeWarning(RefereeWarning::Forfeiture)) => {}
            other => panic!("unexpected decode: {:?}", other),
        }
    }
}

#[test]
fn student_interactive_data_size() {
    for custom_size in 1usize..=113 {
        let mut data = vec![0u8; 2 + 6 + custom_size];
        let content_id: u16 = 0x0200;
        [data[0], data[1]] = 0x0301u16.to_le_bytes();
        [data[2], data[3]] = content_id.to_le_bytes();
        [data[4], data[5]] = 0x1234u16.to_le_bytes();
        [data[6], data[7]] = 0x5678u16.to_le_bytes();
        let m = decode_message(&data).expect("interactive data should decode");
        match m {
            Message::StudentInteractiveData(StudentInteractiveData {
                content_id: outer,
                send_id,
                receive_id,
                content:
                    StudentInteractiveDataType::PeerToPeerCommunication {
                        content_id: inner,
                        content,
                    },
            }) => {
                assert_eq!(outer, content_id);
                assert_eq!(inner, content_id);
                assert_eq!(send_id, 0x1234);
                assert_eq!(receive_id, 0x5678);
                assert_eq!(content.len(), custom_size);
            }
            other => panic!("unexpected decode: {:?}", other),
        }
    }
}

#[test]
fn custom_controller_interactive_size() {
    for custom_size in 1usize..=30 {
        let mut data = vec![0u8; 2 + custom_size];
        [data[0], data[1]] = 0x0302u16.to_le_bytes();
        let m = decode_message(&data).expect("custom controller should decode");
        match m {
            Message::CustomControllerInteractiveData(c) => assert_eq!(c.len(), custom_size),
            other => panic!("unexpected decode: {:?}", other),
        }
    }
}

#[test]
fn crc_check_values() {
    let sample: Vec<u8> = b"123456789".to_vec();
    assert_eq!(crc8(&sample, 0, 9), 0x0B);
    assert_eq!(crc16(&sample, 0, 9), 0x6F91);
    assert_eq!(crc8(&Vec::new(), 0, 0), 0xFF);
    assert_eq!(crc16(&Vec::new(), 0, 0), 0xFFFF);
}

#[test]
fn minimap_receipt_wire_bytes() {
    let mut w = SequencedWriter::new();
    let bytes = w
        .send_minimap_receipt(7, 3.5f32.to_bits(), 2.0f32.to_bits())
        .expect("minimap receipt should encode");
    let expected: Vec<u8> = vec![
        0xA5, 0x0A, 0x00, 0x00, 0xA9, 0x05, 0x03, 0x07, 0x00, 0x00, 0x00, 0x60, 0x40, 0x00, 0x00,
        0x00, 0x40, 0xDA, 0x90,
    ];
    assert_eq!(bytes, expected);
    assert_eq!(bytes.len(), 10 + 9);
}

#[test]
fn resync_after_garbage() {
    let mut buf: Vec<u8> = vec![0xDE, 0xAD, 0xA5, 0xFF, 0xFF];
    // the 0xA5 is a false start byte: its header CRC fails, so the
    // cursor advances and nothing is yielded
    let r = deframe(&mut buf);
    assert!(matches!(r, Ok(None)));
    let mut w = SequencedWriter::new();
    let frame = w
        .send_minimap_receipt(7, 3.5f32.to_bits(), 2.0f32.to_bits())
        .unwrap();
    buf.extend_from_slice(&frame);
    let mut got = None;
    for _ in 0..8 {
        match deframe(&mut buf) {
            Ok(Some(f)) => {
                got = Some(f);
                break;
            }
            Ok(None) => {}
            Err(e) => panic!("unexpected decode error: {:?}", e),
        }
    }
    let f = got.expect("the appended valid frame should be yielded");
    assert!(matches!(
        f.message,
        Message::MinimapReceipt {
            target_robot_id: 7,
            ..
        }
    ));
}

#[test]
fn short_read_defers() {
    // a valid 5-byte header declaring 10 data bytes, but one byte
    // short of the full data_length + 9
    let mut head = vec![0xA5u8, 0x0A, 0x00, 0x00];
    let c8 = crc8(&head, 0, 4);
    head.push(c8);
    let mut buf = head.clone();
    buf.extend_from_slice(&[0u8; 13]);
    assert_eq!(buf.len(), 18);
    let before = buf.clone();
    let r = deframe(&mut buf);
    assert!(matches!(r, Ok(None)));
    assert_eq!(buf, before);
}

#[test]
fn unknown_command_rejected() {
    // a well-CRC'd frame with command id 0x09FF
    let mut buf = vec![0xA5u8, 0x01, 0x00, 0x00];
    let c8 = crc8(&buf, 0, 4);
    buf.push(c8);
    buf.extend_from_slice(&[0xFF, 0x09, 0x00]);
    let c16 = crc16(&buf, 0, buf.len());
    buf.extend_from_slice(&c16.to_le_bytes());
    let r = deframe(&mut buf);
    assert!(matches!(r, Err(DecodeError::UnknownCommand(0x09FF))));
    // the stream is not poisoned: the next valid frame decodes
    let mut w = SequencedWriter::new();
    let frame = w.send_minimap_receipt(1, 0, 0).unwrap();
    buf.extend_from_slice(&frame);
    let f = deframe(&mut buf).expect("no error").expect("frame expected");
    assert_eq!(f.data_length, 10);
}

#[test]
fn sequence_wraps_after_256_frames() {
    let mut w = SequencedWriter::new();
    let mut seqs = Vec::new();
    for _ in 0..260 {
        let bytes = w
            .send_minimap_receipt(7, 3.5f32.to_bits(), 2.0f32.to_bits())
            .unwrap();
        seqs.push(bytes[3]);
    }
    for (i, s) in seqs.iter().enumerate() {
        assert_eq!(*s, (i % 256) as u8);
    }
    assert_eq!(seqs[256], 0);
    assert_eq!(seqs[259], 3);
}

#[test]
fn watch_slot_populates_and_replaces() {
    let mut slots = TopicSlots::new();
    assert!(slots.game_robot_status.is_none());
    let m1 = Message::GameRobotStatus(sample_robot_status(400));
    let wire = frame_of(&m1, 27, 0);
    let mut buf = wire.clone();
    let f = deframe(&mut buf).unwrap().unwrap();
    slots.update(&f.message);
    let got = slots.game_robot_status.clone().expect("slot populated");
    assert_eq!(got.remain_hp, 400);
    // a later frame replaces the slot; the latest value wins
    let m2 = Message::GameRobotStatus(sample_robot_status(123));
    slots.update(&m2);
    let got = slots.game_robot_status.clone().expect("slot populated");
    assert_eq!(got.remain_hp, 123);
    // unrelated topics are untouched
    assert!(slots.game_status.is_none());
}

#[test]
fn game_status_round_trips() {
    let m = Message::GameStatus(GameStatus {
        game_type: GameType::RMUC,
        game_progress: GameProgress::InCombat,
        stage_remain_time: 424,
        sync_timestamp: 0x1122334455667788,
    });
    let payload = encode_message(&m);
    assert_eq!(payload.len(), 13);
    let back = decode_message(&payload).unwrap();
    assert_eq!(back, m);
}

#[test]
fn event_data_round_trips() {
    let m = Message::EventData(EventData {
        restoration_zone_1_occupied: true,
        restoration_zone_2_occupied: false,
        restoration_zone_3_occupied: true,
        attack_point_occupied: false,
        small_power_rune_activated: true,
        big_power_rune_activated: false,
        r2b2_occupied: true,
        r3b3_occupied: false,
        r4b4_occupied: true,
        base_has_virtual_shield: false,
        outpost_survives: true,
    });
    let payload = encode_message(&m);
    assert_eq!(payload.len(), 6);
    let back = decode_message(&payload).unwrap();
    assert_eq!(back, m);
}

#[test]
fn remote_control_round_trips() {
    let m = Message::RemoteControl {
        mouse_x: 100,
        mouse_y: 2000,
        mouse_z: 3,
        left_button_down: true,
        right_button_down: false,
        w_key_down: true,
        s_key_down: false,
        a_key_down: true,
        d_key_down: false,
        shift_key_down: true,
        ctrl_key_down: false,
        q_key_down: true,
        e_key_down: false,
        r_key_down: true,
        f_key_down: false,
        g_key_down: true,
        z_key_down: false,
        x_key_down: true,
        c_key_down: false,
        v_key_down: true,
        b_key_down: true,
    };
    let payload = encode_message(&m);
    assert_eq!(payload.len(), 12);
    let back = decode_message(&payload).unwrap();
    assert_eq!(back, m);
}

#[test]
fn robot_status_round_trips() {
    let m = Message::GameRobotStatus(sample_robot_status(321));
    let payload = encode_message(&m);
    assert_eq!(payload.len(), 29);
    let back = decode_message(&payload).unwrap();
    assert_eq!(back, m);
}

#[test]
fn unknown_enum_value_rejected() {
    // game result with winner byte 9
    let payload = vec![0x02u8, 0x00, 9];
    match decode_message(&payload) {
        Err(DecodeError::UnknownEnumValue(_, 9)) => {}
        other => panic!("unexpected: {:?}", other),
    }
}

#[test]
fn short_and_trailing_payloads_rejected() {
    // minimap receipt payload must be exactly 10 bytes of body
    let payload = vec![0x05u8, 0x03, 1, 2, 3];
    assert!(matches!(
        decode_message(&payload),
        Err(DecodeError::ShortPayload)
    ));
    let mut long = vec![0x05u8, 0x03];
    long.extend_from_slice(&[0u8; 12]);
    assert!(matches!(
        decode_message(&long),
        Err(DecodeError::TrailingBytes(2))
    ));
}

#[test]
fn invalid_button_byte_rejected() {
    let mut payload = vec![0x04u8, 0x03];
    payload.extend_from_slice(&[0u8; 10]);
    payload[8] = 7; // left button byte must be 0 or 1
    assert!(matches!(
        decode_message(&payload),
        Err(DecodeError::InvalidBitfield)
    ));
}
