//! Bit-level message codec: the wire image of every message variant,
//! the parser over payload bytes, the executable encoder and decoder,
//! and the round-trip law tying them together.
//!
//! A payload is the 2-byte command id followed by the body; its total
//! length equals the frame's declared data length plus 2.

use vstd::prelude::*;

use crate::errors::DecodeError;
use crate::errors::EnumContext;
use crate::graphic::GraphicData;
use crate::graphic::GraphicDataV;
use crate::graphic::GraphicDeleteOperation;
use crate::graphic::GraphicEnum;
use crate::graphic::delete_op_val;
use crate::graphic::delete_op_from;
use crate::graphic::graphic_bytes;
use crate::graphic::parse_graphic;
use crate::graphic::encode_graphic;
use crate::graphic::decode_graphic;
use crate::graphic::lemma_graphic_round_trip;
use crate::proto::EventData;
use crate::proto::GameProgress;
use crate::proto::GameRobotStatus;
use crate::proto::GameStatus;
use crate::proto::GameType;
use crate::proto::Message;
use crate::proto::MessageV;
use crate::proto::ProjectileOutletStatus;
use crate::proto::ProjectileReloadingRobot;
use crate::proto::ProjectileSupplier;
use crate::proto::RadarMarkData;
use crate::proto::RefereeWarning;
use crate::proto::StudentInteractiveData;
use crate::proto::StudentInteractiveDataType;
use crate::proto::StudentInteractiveDataTypeV;
use crate::proto::StudentInteractiveDataV;
use crate::proto::SuppliedProjectileNumber;
use crate::proto::TeamHP;
use crate::proto::Winner;
use crate::proto::graphics_wf;
use crate::proto::sid_derived_id;
use crate::wire::le16;
use crate::wire::le32;
use crate::wire::le64;
use crate::wire::u16_hi;
use crate::wire::u16_lo;
use crate::wire::u16_of;
use crate::wire::u32_of;
use crate::wire::u64_of;
use crate::wire::lemma_u16_round;
use crate::wire::lemma_u32_round;
use crate::wire::lemma_u64_round;
use crate::wire::push_u16_le;
use crate::wire::push_u32_le;
use crate::wire::push_u64_le;
use crate::wire::read_u16_le;
use crate::wire::read_u32_le;
use crate::wire::read_u64_le;
use crate::wire::copy_range as copy_range_pub;
use crate::wire::push_bytes;

verus! {

// ------------------------------------------------------------------
// Wire values of the enumerations.
// ------------------------------------------------------------------

pub open spec fn game_type_val(e: GameType) -> u8 {
    match e {
        GameType::RMUC => 1,
        GameType::RMUT => 2,
        GameType::RMUA => 3,
        GameType::RMUL3v3 => 4,
        GameType::RMUL1v1 => 5,
    }
}

pub open spec fn game_type_from(v: u8) -> Option<GameType> {
    match v {
        1 => Some(GameType::RMUC),
        2 => Some(GameType::RMUT),
        3 => Some(GameType::RMUA),
        4 => Some(GameType::RMUL3v3),
        5 => Some(GameType::RMUL1v1),
        _ => None,
    }
}

pub open spec fn progress_val(e: GameProgress) -> u8 {
    match e {
        GameProgress::PreCompetitionStage => 0,
        GameProgress::SetupPeriod => 1,
        GameProgress::InitializationStage => 2,
        GameProgress::FiveSecondCountdown => 3,
        GameProgress::InCombat => 4,
        GameProgress::CalculatingCompetitionResults => 5,
    }
}

pub open spec fn progress_from(v: u8) -> Option<GameProgress> {
    match v {
        0 => Some(GameProgress::PreCompetitionStage),
        1 => Some(GameProgress::SetupPeriod),
        2 => Some(GameProgress::InitializationStage),
        3 => Some(GameProgress::FiveSecondCountdown),
        4 => Some(GameProgress::InCombat),
        5 => Some(GameProgress::CalculatingCompetitionResults),
        _ => None,
    }
}

pub open spec fn winner_val(e: Winner) -> u8 {
    match e {
        Winner::Draw => 0,
        Winner::Red => 1,
        Winner::Blue => 2,
    }
}

pub open spec fn winner_from(v: u8) -> Option<Winner> {
    match v {
        0 => Some(Winner::Draw),
        1 => Some(Winner::Red),
        2 => Some(Winner::Blue),
        _ => None,
    }
}

pub open spec fn supplier_val(e: ProjectileSupplier) -> u8 {
    match e {
        ProjectileSupplier::_1 => 1,
        ProjectileSupplier::_2 => 2,
    }
}

pub open spec fn supplier_from(v: u8) -> Option<ProjectileSupplier> {
    match v {
        1 => Some(ProjectileSupplier::_1),
        2 => Some(ProjectileSupplier::_2),
        _ => None,
    }
}

pub open spec fn reloading_val(e: ProjectileReloadingRobot) -> u8 {
    match e {
        ProjectileReloadingRobot::NoRobot => 0,
        ProjectileReloadingRobot::Red1Hero => 1,
        ProjectileReloadingRobot::Red2Engineer => 2,
        ProjectileReloadingRobot::Red3 => 3,
        ProjectileReloadingRobot::Red4 => 4,
        ProjectileReloadingRobot::Red5 => 5,
        ProjectileReloadingRobot::Blue1Hero => 101,
        ProjectileReloadingRobot::Blue2Engineer => 102,
        ProjectileReloadingRobot::Blue3 => 103,
        ProjectileReloadingRobot::Blue4 => 104,
        ProjectileReloadingRobot::Blue5 => 105,
    }
}

pub open spec fn reloading_from(v: u8) -> Option<ProjectileReloadingRobot> {
    match v {
        0 => Some(ProjectileReloadingRobot::NoRobot),
        1 => Some(ProjectileReloadingRobot::Red1Hero),
        2 => Some(ProjectileReloadingRobot::Red2Engineer),
        3 => Some(ProjectileReloadingRobot::Red3),
        4 => Some(ProjectileReloadingRobot::Red4),
        5 => Some(ProjectileReloadingRobot::Red5),
        101 => Some(ProjectileReloadingRobot::Blue1Hero),
        102 => Some(ProjectileReloadingRobot::Blue2Engineer),
        103 => Some(ProjectileReloadingRobot::Blue3),
        104 => Some(ProjectileReloadingRobot::Blue4),
        105 => Some(ProjectileReloadingRobot::Blue5),
        _ => None,
    }
}

pub open spec fn outlet_val(e: ProjectileOutletStatus) -> u8 {
    match e {
        ProjectileOutletStatus::Closed => 0,
        ProjectileOutletStatus::Preparing => 1,
        ProjectileOutletStatus::Dropping => 2,
    }
}

pub open spec fn outlet_from(v: u8) -> Option<ProjectileOutletStatus> {
    match v {
        0 => Some(ProjectileOutletStatus::Closed),
        1 => Some(ProjectileOutletStatus::Preparing),
        2 => Some(ProjectileOutletStatus::Dropping),
        _ => None,
    }
}

pub open spec fn supplied_val(e: SuppliedProjectileNumber) -> u8 {
    match e {
        SuppliedProjectileNumber::_50 => 50,
        SuppliedProjectileNumber::_100 => 100,
        SuppliedProjectileNumber::_150 => 150,
        SuppliedProjectileNumber::_200 => 200,
    }
}

pub open spec fn supplied_from(v: u8) -> Option<SuppliedProjectileNumber> {
    match v {
        50 => Some(SuppliedProjectileNumber::_50),
        100 => Some(SuppliedProjectileNumber::_100),
        150 => Some(SuppliedProjectileNumber::_150),
        200 => Some(SuppliedProjectileNumber::_200),
        _ => None,
    }
}

// ------------------------------------------------------------------
// Packed words: flags fill least-significant-bit first.
// ------------------------------------------------------------------

pub open spec fn bb8(b: bool) -> u8 {
    if b {
        1
    } else {
        0
    }
}

pub open spec fn bb16(b: bool) -> u16 {
    if b {
        1
    } else {
        0
    }
}

pub open spec fn bb32(b: bool) -> u32 {
    if b {
        1
    } else {
        0
    }
}

pub open spec fn bit8(w: u8, k: u8) -> bool {
    (w >> k) & 1 == 1
}

pub open spec fn bit16(w: u16, k: u16) -> bool {
    (w >> k) & 1 == 1
}

pub open spec fn bit32(w: u32, k: u32) -> bool {
    (w >> k) & 1 == 1
}

/// Game type in the low nibble, progress in the high nibble.
pub open spec fn stage_byte(g: GameStatus) -> u8 {
    game_type_val(g.game_type) | (progress_val(g.game_progress) << 4)
}

pub open spec fn status_flags_byte(s: GameRobotStatus) -> u8 {
    bb8(s.mains_power_gimbal_output) | (bb8(s.mains_power_chassis_output) << 1) | (bb8(
        s.mains_power_shooter_output,
    ) << 2)
}

pub open spec fn rune_byte(b0: bool, b1: bool, b2: bool, b3: bool) -> u8 {
    bb8(b0) | (bb8(b1) << 1) | (bb8(b2) << 2) | (bb8(b3) << 3)
}

pub open spec fn event_word(e: EventData) -> u32 {
    bb32(e.restoration_zone_1_occupied) | (bb32(e.restoration_zone_2_occupied) << 1) | (bb32(
        e.restoration_zone_3_occupied,
    ) << 2) | (bb32(e.attack_point_occupied) << 3) | (bb32(e.small_power_rune_activated) << 4) | (
    bb32(e.big_power_rune_activated) << 5) | (bb32(e.r2b2_occupied) << 6) | (bb32(e.r3b3_occupied)
        << 7) | (bb32(e.r4b4_occupied) << 8) | (bb32(e.base_has_virtual_shield) << 9) | (bb32(
        e.outpost_survives,
    ) << 10)
}

/// Seven flags with one padding bit between the fifth and sixth.
pub open spec fn rfid_word(
    b0: bool,
    b1: bool,
    b2: bool,
    b3: bool,
    b4: bool,
    b6: bool,
    b7: bool,
) -> u32 {
    bb32(b0) | (bb32(b1) << 1) | (bb32(b2) << 2) | (bb32(b3) << 3) | (bb32(b4) << 4) | (bb32(b6)
        << 6) | (bb32(b7) << 7)
}

#[verifier::opaque]
pub open spec fn keys_lo(w: bool, s: bool, a: bool, d: bool, shift: bool, ctrl: bool, q: bool, e: bool) -> u8 {
    bb8(w) | (bb8(s) << 1) | (bb8(a) << 2) | (bb8(d) << 3) | (bb8(shift) << 4) | (bb8(ctrl) << 5)
        | (bb8(q) << 6) | (bb8(e) << 7)
}

#[verifier::opaque]
pub open spec fn keys_hi(r: bool, f: bool, g: bool, z: bool, x: bool, c: bool, v: bool, b: bool) -> u8 {
    bb8(r) | (bb8(f) << 1) | (bb8(g) << 2) | (bb8(z) << 3) | (bb8(x) << 4) | (bb8(c) << 5) | (
    bb8(v) << 6) | (bb8(b) << 7)
}

// ------------------------------------------------------------------
// Byte images of the message bodies.
// ------------------------------------------------------------------

pub open spec fn team_bytes(t: TeamHP) -> Seq<u8> {
    seq![
        u16_lo(t._1),
        u16_hi(t._1),
        u16_lo(t._2),
        u16_hi(t._2),
        u16_lo(t._3),
        u16_hi(t._3),
        u16_lo(t._4),
        u16_hi(t._4),
        u16_lo(t._5),
        u16_hi(t._5),
        u16_lo(t._7),
        u16_hi(t._7),
        u16_lo(t.outpost),
        u16_hi(t.outpost),
        u16_lo(t.base),
        u16_hi(t.base),
    ]
}

pub open spec fn grs_bytes(s: GameRobotStatus) -> Seq<u8> {
    seq![
        s.robot_id,
        s.robot_level,
        u16_lo(s.remain_hp),
        u16_hi(s.remain_hp),
        u16_lo(s.max_hp),
        u16_hi(s.max_hp),
        u16_lo(s.shooter_id1_17mm_cooling_rate),
        u16_hi(s.shooter_id1_17mm_cooling_rate),
        u16_lo(s.shooter_id1_17mm_cooling_limit),
        u16_hi(s.shooter_id1_17mm_cooling_limit),
        u16_lo(s.shooter_id1_17mm_speed_limit),
        u16_hi(s.shooter_id1_17mm_speed_limit),
        u16_lo(s.shooter_id2_17mm_cooling_rate),
        u16_hi(s.shooter_id2_17mm_cooling_rate),
        u16_lo(s.shooter_id2_17mm_cooling_limit),
        u16_hi(s.shooter_id2_17mm_cooling_limit),
        u16_lo(s.shooter_id2_17mm_speed_limit),
        u16_hi(s.shooter_id2_17mm_speed_limit),
        u16_lo(s.shooter_id1_42mm_cooling_rate),
        u16_hi(s.shooter_id1_42mm_cooling_rate),
        u16_lo(s.shooter_id1_42mm_cooling_limit),
        u16_hi(s.shooter_id1_42mm_cooling_limit),
        u16_lo(s.shooter_id1_42mm_speed_limit),
        u16_hi(s.shooter_id1_42mm_speed_limit),
        u16_lo(s.chassis_power_limit),
        u16_hi(s.chassis_power_limit),
        status_flags_byte(s),
    ]
}

/// Concatenated 15-byte records, in order.
pub open spec fn graphics_bytes(gs: Seq<GraphicDataV>) -> Seq<u8>
    decreases gs.len(),
{
    if gs.len() == 0 {
        Seq::empty()
    } else {
        graphics_bytes(gs.drop_last()) + graphic_bytes(gs.last())
    }
}

pub open spec fn sid_body_bytes(c: StudentInteractiveDataTypeV) -> Seq<u8> {
    match c {
        StudentInteractiveDataTypeV::PeerToPeerCommunication { content, .. } => content,
        StudentInteractiveDataTypeV::GraphicDelete { operate_type, layer } => seq![
            delete_op_val(operate_type),
            layer,
        ],
        StudentInteractiveDataTypeV::GraphicDraw1(gs) => graphics_bytes(gs),
        StudentInteractiveDataTypeV::GraphicDraw2(gs) => graphics_bytes(gs),
        StudentInteractiveDataTypeV::GraphicDraw5(gs) => graphics_bytes(gs),
        StudentInteractiveDataTypeV::GraphicDraw7(gs) => graphics_bytes(gs),
        StudentInteractiveDataTypeV::GraphicDrawCharacter(g, chars) => graphic_bytes(g) + chars,
    }
}

/// Outer shell bytes: the derived content id, both robot ids, then
/// the inner body.
pub open spec fn sid_bytes(s: StudentInteractiveDataV) -> Seq<u8> {
    le16(sid_derived_id(s.content)) + le16(s.send_id) + le16(s.receive_id) + sid_body_bytes(
        s.content,
    )
}

/// The command id of each variant.
pub open spec fn msg_id(v: MessageV) -> u16 {
    match v {
        MessageV::GameStatus(_) => 0x0001,
        MessageV::GameResult(_) => 0x0002,
        MessageV::GameRobotHP { .. } => 0x0003,
        MessageV::EventData(_) => 0x0101,
        MessageV::SupplyProjectileAction { .. } => 0x0102,
        MessageV::RefereeWarning(_) => 0x0104,
        MessageV::DartRemainingTime(_) => 0x0105,
        MessageV::GameRobotStatus(_) => 0x0201,
        MessageV::PowerHeatData { .. } => 0x0202,
        MessageV::GameRobotPos { .. } => 0x0203,
        MessageV::PowerRuneBuff { .. } => 0x0204,
        MessageV::AerialRobotEnergy(_) => 0x0205,
        MessageV::RobotHurt(_) => 0x0206,
        MessageV::ShootData(_) => 0x0207,
        MessageV::BulletRemaining(_) => 0x0208,
        MessageV::RFIDStatus { .. } => 0x0209,
        MessageV::DartClientCmd { .. } => 0x020A,
        MessageV::GroundRobotPosition { .. } => 0x020B,
        MessageV::RadarMarkData(_) => 0x020C,
        MessageV::StudentInteractiveData(_) => 0x0301,
        MessageV::CustomControllerInteractiveData(_) => 0x0302,
        MessageV::MapCommand { .. } => 0x0303,
        MessageV::RemoteControl { .. } => 0x0304,
        MessageV::MinimapReceipt { .. } => 0x0305,
    }
}

pub open spec fn body_bytes(v: MessageV) -> Seq<u8> {
    match v {
        MessageV::GameStatus(g) => seq![stage_byte(g)] + le16(g.stage_remain_time) + le64(
            g.sync_timestamp,
        ),
        MessageV::GameResult(w) => seq![winner_val(w)],
        MessageV::GameRobotHP { red, blue } => team_bytes(red) + team_bytes(blue),
        MessageV::EventData(e) => le32(event_word(e)),
        MessageV::SupplyProjectileAction { supplier, robot, outlet_status, supplied_number } => seq![
            supplier_val(supplier),
            reloading_val(robot),
            outlet_val(outlet_status),
            supplied_val(supplied_number),
        ],
        MessageV::RefereeWarning(w) => match w {
            RefereeWarning::YellowCard { foul_robot_id } => seq![1u8, foul_robot_id],
            RefereeWarning::RedCard { foul_robot_id } => seq![2u8, foul_robot_id],
            RefereeWarning::Forfeiture => seq![3u8, 0u8],
        },
        MessageV::DartRemainingTime(t) => seq![t],
        MessageV::GameRobotStatus(s) => grs_bytes(s),
        MessageV::PowerHeatData {
            chassis_volt,
            chassis_current,
            chassis_power,
            chassis_power_buffer,
            shooter_id1_17mm_cooling_heat,
            shooter_id2_17mm_cooling_heat,
            shooter_id1_42mm_cooling_heat,
        } => le16(chassis_volt) + le16(chassis_current) + le32(chassis_power) + le16(
            chassis_power_buffer,
        ) + le16(shooter_id1_17mm_cooling_heat) + le16(shooter_id2_17mm_cooling_heat) + le16(
            shooter_id1_42mm_cooling_heat,
        ),
        MessageV::GameRobotPos { x, y, z, yaw } => le32(x) + le32(y) + le32(z) + le32(yaw),
        MessageV::PowerRuneBuff {
            robot_hp_restoration_status,
            barrel_heat_cooling_acceleration,
            robot_defense_buff,
            robot_attack_buff,
        } => seq![
            rune_byte(
                robot_hp_restoration_status,
                barrel_heat_cooling_acceleration,
                robot_defense_buff,
                robot_attack_buff,
            ),
        ],
        MessageV::AerialRobotEnergy(t) => seq![t],
        MessageV::RobotHurt(t) => seq![t],
        MessageV::ShootData(b) => b,
        MessageV::BulletRemaining(b) => b,
        MessageV::RFIDStatus {
            base_gain_zone,
            elevated_ground_gain_zone,
            power_rune_activation_point,
            launch_ramp_gain_zone,
            outpost_gain_zone,
            restoration_zone_buff,
            engineer_robot_recovery_card,
        } => le32(
            rfid_word(
                base_gain_zone,
                elevated_ground_gain_zone,
                power_rune_activation_point,
                launch_ramp_gain_zone,
                outpost_gain_zone,
                restoration_zone_buff,
                engineer_robot_recovery_card,
            ),
        ),
        MessageV::DartClientCmd {
            dart_launch_opening_status,
            dart_attack_target,
            target_change_time,
            latest_launch_cmd_time,
        } => seq![dart_launch_opening_status, dart_attack_target] + le16(target_change_time)
            + le16(latest_launch_cmd_time),
        MessageV::GroundRobotPosition {
            hero_x,
            hero_y,
            engineer_x,
            engineer_y,
            standard_3_x,
            standard_3_y,
            standard_4_x,
            standard_4_y,
            standard_5_x,
            standard_5_y,
        } => le32(hero_x) + le32(hero_y) + le32(engineer_x) + le32(engineer_y) + le32(standard_3_x)
            + le32(standard_3_y) + le32(standard_4_x) + le32(standard_4_y) + le32(standard_5_x)
            + le32(standard_5_y),
        MessageV::RadarMarkData(r) => seq![
            r.mark_hero_progress,
            r.mark_engineer_progress,
            r.mark_standard_3_progress,
            r.mark_standard_4_progress,
            r.mark_standard_5_progress,
            r.mark_sentry_progress,
        ],
        MessageV::StudentInteractiveData(s) => sid_bytes(s),
        MessageV::CustomControllerInteractiveData(b) => b,
        MessageV::MapCommand {
            target_position_x,
            target_position_y,
            target_position_z,
            command_keyboard,
            target_robot_id,
        } => le32(target_position_x) + le32(target_position_y) + le32(target_position_z) + seq![
            command_keyboard,
        ] + le16(target_robot_id),
        MessageV::RemoteControl {
            mouse_x,
            mouse_y,
            mouse_z,
            left_button_down,
            right_button_down,
            w_key_down,
            s_key_down,
            a_key_down,
            d_key_down,
            shift_key_down,
            ctrl_key_down,
            q_key_down,
            e_key_down,
            r_key_down,
            f_key_down,
            g_key_down,
            z_key_down,
            x_key_down,
            c_key_down,
            v_key_down,
            b_key_down,
        } => {
            seq![
                u16_lo(mouse_x),
                u16_hi(mouse_x),
                u16_lo(mouse_y),
                u16_hi(mouse_y),
                u16_lo(mouse_z),
                u16_hi(mouse_z),
                bb8(left_button_down),
                bb8(right_button_down),
                keys_lo(
                    w_key_down,
                    s_key_down,
                    a_key_down,
                    d_key_down,
                    shift_key_down,
                    ctrl_key_down,
                    q_key_down,
                    e_key_down,
                ),
                keys_hi(
                    r_key_down,
                    f_key_down,
                    g_key_down,
                    z_key_down,
                    x_key_down,
                    c_key_down,
                    v_key_down,
                    b_key_down,
                ),
            ]
        },
        MessageV::MinimapReceipt { target_robot_id, target_position_x, target_position_y } => le16(
            target_robot_id,
        ) + le32(target_position_x) + le32(target_position_y),
    }
}

/// The full payload image: command id, then body.
pub open spec fn msg_bytes(v: MessageV) -> Seq<u8> {
    le16(msg_id(v)) + body_bytes(v)
}

// ------------------------------------------------------------------
// The parser over payload bytes.
// ------------------------------------------------------------------

pub open spec fn u16at(s: Seq<u8>, k: int) -> u16 {
    u16_of(s[k], s[k + 1])
}

pub open spec fn u32at(s: Seq<u8>, k: int) -> u32 {
    u32_of(s[k], s[k + 1], s[k + 2], s[k + 3])
}

/// Gate a fixed-size body: too short or too long is an error.
pub open spec fn sized_result(
    body: Seq<u8>,
    n: int,
    r: Result<MessageV, DecodeError>,
) -> Result<MessageV, DecodeError> {
    if body.len() < n {
        Err(DecodeError::ShortPayload)
    } else if body.len() > n {
        Err(DecodeError::TrailingBytes((body.len() - n) as u16))
    } else {
        r
    }
}

pub open spec fn parse_game_status(body: Seq<u8>) -> Result<MessageV, DecodeError> {
    let b0 = body[0];
    match game_type_from(b0 & 0xF) {
        None => Err(DecodeError::UnknownEnumValue(EnumContext::GameType, (b0 & 0xF) as u16)),
        Some(gt) => match progress_from(b0 >> 4) {
            None => Err(
                DecodeError::UnknownEnumValue(EnumContext::GameProgress, (b0 >> 4) as u16),
            ),
            Some(gp) => Ok(
                MessageV::GameStatus(
                    GameStatus {
                        game_type: gt,
                        game_progress: gp,
                        stage_remain_time: u16at(body, 1),
                        sync_timestamp: u64_of(
                            body[3],
                            body[4],
                            body[5],
                            body[6],
                            body[7],
                            body[8],
                            body[9],
                            body[10],
                        ),
                    },
                ),
            ),
        },
    }
}

pub open spec fn parse_game_result(body: Seq<u8>) -> Result<MessageV, DecodeError> {
    match winner_from(body[0]) {
        None => Err(DecodeError::UnknownEnumValue(EnumContext::Winner, body[0] as u16)),
        Some(w) => Ok(MessageV::GameResult(w)),
    }
}

pub open spec fn team_of(s: Seq<u8>, off: int) -> TeamHP {
    TeamHP {
        _1: u16at(s, off),
        _2: u16at(s, off + 2),
        _3: u16at(s, off + 4),
        _4: u16at(s, off + 6),
        _5: u16at(s, off + 8),
        _7: u16at(s, off + 10),
        outpost: u16at(s, off + 12),
        base: u16at(s, off + 14),
    }
}

pub open spec fn event_of(w: u32) -> EventData {
    EventData {
        restoration_zone_1_occupied: bit32(w, 0),
        restoration_zone_2_occupied: bit32(w, 1),
        restoration_zone_3_occupied: bit32(w, 2),
        attack_point_occupied: bit32(w, 3),
        small_power_rune_activated: bit32(w, 4),
        big_power_rune_activated: bit32(w, 5),
        r2b2_occupied: bit32(w, 6),
        r3b3_occupied: bit32(w, 7),
        r4b4_occupied: bit32(w, 8),
        base_has_virtual_shield: bit32(w, 9),
        outpost_survives: bit32(w, 10),
    }
}

pub open spec fn parse_supply(body: Seq<u8>) -> Result<MessageV, DecodeError> {
    match supplier_from(body[0]) {
        None => Err(
            DecodeError::UnknownEnumValue(EnumContext::ProjectileSupplier, body[0] as u16),
        ),
        Some(supplier) => match reloading_from(body[1]) {
            None => Err(
                DecodeError::UnknownEnumValue(
                    EnumContext::ProjectileReloadingRobot,
                    body[1] as u16,
                ),
            ),
            Some(robot) => match outlet_from(body[2]) {
                None => Err(
                    DecodeError::UnknownEnumValue(
                        EnumContext::ProjectileOutletStatus,
                        body[2] as u16,
                    ),
                ),
                Some(outlet_status) => match supplied_from(body[3]) {
                    None => Err(
                        DecodeError::UnknownEnumValue(
                            EnumContext::SuppliedProjectileNumber,
                            body[3] as u16,
                        ),
                    ),
                    Some(supplied_number) => Ok(
                        MessageV::SupplyProjectileAction {
                            supplier,
                            robot,
                            outlet_status,
                            supplied_number,
                        },
                    ),
                },
            },
        },
    }
}

pub open spec fn parse_warning(body: Seq<u8>) -> Result<MessageV, DecodeError> {
    if body[0] == 1 {
        Ok(MessageV::RefereeWarning(RefereeWarning::YellowCard { foul_robot_id: body[1] }))
    } else if body[0] == 2 {
        Ok(MessageV::RefereeWarning(RefereeWarning::RedCard { foul_robot_id: body[1] }))
    } else if body[0] == 3 {
        Ok(MessageV::RefereeWarning(RefereeWarning::Forfeiture))
    } else {
        Err(DecodeError::UnknownEnumValue(EnumContext::RefereeWarningLevel, body[0] as u16))
    }
}

pub open spec fn grs_of(body: Seq<u8>) -> GameRobotStatus {
    GameRobotStatus {
        robot_id: body[0],
        robot_level: body[1],
        remain_hp: u16at(body, 2),
        max_hp: u16at(body, 4),
        shooter_id1_17mm_cooling_rate: u16at(body, 6),
        shooter_id1_17mm_cooling_limit: u16at(body, 8),
        shooter_id1_17mm_speed_limit: u16at(body, 10),
        shooter_id2_17mm_cooling_rate: u16at(body, 12),
        shooter_id2_17mm_cooling_limit: u16at(body, 14),
        shooter_id2_17mm_speed_limit: u16at(body, 16),
        shooter_id1_42mm_cooling_rate: u16at(body, 18),
        shooter_id1_42mm_cooling_limit: u16at(body, 20),
        shooter_id1_42mm_speed_limit: u16at(body, 22),
        chassis_power_limit: u16at(body, 24),
        mains_power_gimbal_output: bit8(body[26], 0),
        mains_power_chassis_output: bit8(body[26], 1),
        mains_power_shooter_output: bit8(body[26], 2),
    }
}

pub open spec fn power_heat_of(body: Seq<u8>) -> MessageV {
    MessageV::PowerHeatData {
        chassis_volt: u16at(body, 0),
        chassis_current: u16at(body, 2),
        chassis_power: u32at(body, 4),
        chassis_power_buffer: u16at(body, 8),
        shooter_id1_17mm_cooling_heat: u16at(body, 10),
        shooter_id2_17mm_cooling_heat: u16at(body, 12),
        shooter_id1_42mm_cooling_heat: u16at(body, 14),
    }
}

pub open spec fn rune_of(b: u8) -> MessageV {
    MessageV::PowerRuneBuff {
        robot_hp_restoration_status: bit8(b, 0),
        barrel_heat_cooling_acceleration: bit8(b, 1),
        robot_defense_buff: bit8(b, 2),
        robot_attack_buff: bit8(b, 3),
    }
}

pub open spec fn rfid_of(w: u32) -> MessageV {
    MessageV::RFIDStatus {
        base_gain_zone: bit32(w, 0),
        elevated_ground_gain_zone: bit32(w, 1),
        power_rune_activation_point: bit32(w, 2),
        launch_ramp_gain_zone: bit32(w, 3),
        outpost_gain_zone: bit32(w, 4),
        restoration_zone_buff: bit32(w, 6),
        engineer_robot_recovery_card: bit32(w, 7),
    }
}

pub open spec fn ground_of(body: Seq<u8>) -> MessageV {
    MessageV::GroundRobotPosition {
        hero_x: u32at(body, 0),
        hero_y: u32at(body, 4),
        engineer_x: u32at(body, 8),
        engineer_y: u32at(body, 12),
        standard_3_x: u32at(body, 16),
        standard_3_y: u32at(body, 20),
        standard_4_x: u32at(body, 24),
        standard_4_y: u32at(body, 28),
        standard_5_x: u32at(body, 32),
        standard_5_y: u32at(body, 36),
    }
}

pub open spec fn parse_rc(body: Seq<u8>) -> Result<MessageV, DecodeError> {
    if body[6] > 1 || body[7] > 1 {
        Err(DecodeError::InvalidBitfield)
    } else {
        let klo = body[8];
        let khi = body[9];
        Ok(
            MessageV::RemoteControl {
                mouse_x: u16at(body, 0),
                mouse_y: u16at(body, 2),
                mouse_z: u16at(body, 4),
                left_button_down: body[6] == 1,
                right_button_down: body[7] == 1,
                w_key_down: bit8(klo, 0),
                s_key_down: bit8(klo, 1),
                a_key_down: bit8(klo, 2),
                d_key_down: bit8(klo, 3),
                shift_key_down: bit8(klo, 4),
                ctrl_key_down: bit8(klo, 5),
                q_key_down: bit8(klo, 6),
                e_key_down: bit8(klo, 7),
                r_key_down: bit8(khi, 0),
                f_key_down: bit8(khi, 1),
                g_key_down: bit8(khi, 2),
                z_key_down: bit8(khi, 3),
                x_key_down: bit8(khi, 4),
                c_key_down: bit8(khi, 5),
                v_key_down: bit8(khi, 6),
                b_key_down: bit8(khi, 7),
            },
        )
    }
}

/// Parse `n` drawing records laid end to end at the front of `s`.
pub open spec fn parse_graphics(s: Seq<u8>, n: nat) -> Result<Seq<GraphicDataV>, DecodeError>
    decreases n,
{
    if n == 0 {
        Ok(Seq::empty())
    } else {
        match parse_graphics(s, (n - 1) as nat) {
            Err(e) => Err(e),
            Ok(gs) => match parse_graphic(s.subrange(15 * ((n - 1) as int), 15 * (n as int))) {
                Err(e) => Err(e),
                Ok(g) => Ok(gs.push(g)),
            },
        }
    }
}

pub open spec fn parse_draw(
    inner: Seq<u8>,
    n: nat,
) -> Result<Seq<GraphicDataV>, DecodeError> {
    if inner.len() < 15 * n {
        Err(DecodeError::ShortPayload)
    } else if inner.len() > 15 * n {
        Err(DecodeError::TrailingBytes((inner.len() - 15 * n) as u16))
    } else {
        parse_graphics(inner, n)
    }
}

/// The inner student-interactive body, selected by the outer content
/// id; the peer-to-peer range takes whatever bytes the frame left.
pub open spec fn parse_sid_type(content_id: u16, inner: Seq<u8>) -> Result<
    StudentInteractiveDataTypeV,
    DecodeError,
> {
    if 0x0200 <= content_id <= 0x02FF {
        Ok(StudentInteractiveDataTypeV::PeerToPeerCommunication { content_id, content: inner })
    } else if content_id == 0x0100 {
        if inner.len() < 2 {
            Err(DecodeError::ShortPayload)
        } else if inner.len() > 2 {
            Err(DecodeError::TrailingBytes((inner.len() - 2) as u16))
        } else {
            match delete_op_from(inner[0]) {
                None => Err(
                    DecodeError::UnknownEnumValue(
                        EnumContext::GraphicDeleteOperation,
                        inner[0] as u16,
                    ),
                ),
                Some(op) => Ok(
                    StudentInteractiveDataTypeV::GraphicDelete {
                        operate_type: op,
                        layer: inner[1],
                    },
                ),
            }
        }
    } else if content_id == 0x0101 {
        match parse_draw(inner, 1) {
            Err(e) => Err(e),
            Ok(gs) => Ok(StudentInteractiveDataTypeV::GraphicDraw1(gs)),
        }
    } else if content_id == 0x0102 {
        match parse_draw(inner, 2) {
            Err(e) => Err(e),
            Ok(gs) => Ok(StudentInteractiveDataTypeV::GraphicDraw2(gs)),
        }
    } else if content_id == 0x0103 {
        match parse_draw(inner, 5) {
            Err(e) => Err(e),
            Ok(gs) => Ok(StudentInteractiveDataTypeV::GraphicDraw5(gs)),
        }
    } else if content_id == 0x0104 {
        match parse_draw(inner, 7) {
            Err(e) => Err(e),
            Ok(gs) => Ok(StudentInteractiveDataTypeV::GraphicDraw7(gs)),
        }
    } else if content_id == 0x0110 {
        if inner.len() < 45 {
            Err(DecodeError::ShortPayload)
        } else if inner.len() > 45 {
            Err(DecodeError::TrailingBytes((inner.len() - 45) as u16))
        } else {
            match parse_graphic(inner.subrange(0, 15)) {
                Err(e) => Err(e),
                Ok(g) => Ok(
                    StudentInteractiveDataTypeV::GraphicDrawCharacter(g, inner.skip(15)),
                ),
            }
        }
    } else {
        Err(DecodeError::UnknownEnumValue(EnumContext::InteractiveContentId, content_id))
    }
}

pub open spec fn parse_sid(body: Seq<u8>) -> Result<MessageV, DecodeError> {
    if body.len() < 6 {
        Err(DecodeError::ShortPayload)
    } else {
        let content_id = u16at(body, 0);
        match parse_sid_type(content_id, body.skip(6)) {
            Err(e) => Err(e),
            Ok(content) => Ok(
                MessageV::StudentInteractiveData(
                    StudentInteractiveDataV {
                        content_id,
                        send_id: u16at(body, 2),
                        receive_id: u16at(body, 4),
                        content,
                    },
                ),
            ),
        }
    }
}

/// Parse one whole payload (command id then body).  Unknown command
/// ids are rejected, never silently consumed.
#[verifier::opaque]
pub open spec fn parse_msg(s: Seq<u8>) -> Result<MessageV, DecodeError> {
    if s.len() < 2 {
        Err(DecodeError::ShortPayload)
    } else {
        let id = u16_of(s[0], s[1]);
        let body = s.skip(2);
        if id == 0x0001 {
            sized_result(body, 11, parse_game_status(body))
        } else if id == 0x0002 {
            sized_result(body, 1, parse_game_result(body))
        } else if id == 0x0003 {
            sized_result(
                body,
                32,
                Ok(MessageV::GameRobotHP { red: team_of(body, 0), blue: team_of(body, 16) }),
            )
        } else if id == 0x0101 {
            sized_result(body, 4, Ok(MessageV::EventData(event_of(u32at(body, 0)))))
        } else if id == 0x0102 {
            sized_result(body, 4, parse_supply(body))
        } else if id == 0x0104 {
            sized_result(body, 2, parse_warning(body))
        } else if id == 0x0105 {
            sized_result(body, 1, Ok(MessageV::DartRemainingTime(body[0])))
        } else if id == 0x0201 {
            sized_result(body, 27, Ok(MessageV::GameRobotStatus(grs_of(body))))
        } else if id == 0x0202 {
            sized_result(body, 16, Ok(power_heat_of(body)))
        } else if id == 0x0203 {
            sized_result(
                body,
                16,
                Ok(
                    MessageV::GameRobotPos {
                        x: u32at(body, 0),
                        y: u32at(body, 4),
                        z: u32at(body, 8),
                        yaw: u32at(body, 12),
                    },
                ),
            )
        } else if id == 0x0204 {
            sized_result(body, 1, Ok(rune_of(body[0])))
        } else if id == 0x0205 {
            sized_result(body, 1, Ok(MessageV::AerialRobotEnergy(body[0])))
        } else if id == 0x0206 {
            sized_result(body, 1, Ok(MessageV::RobotHurt(body[0])))
        } else if id == 0x0207 {
            sized_result(body, 7, Ok(MessageV::ShootData(body)))
        } else if id == 0x0208 {
            sized_result(body, 6, Ok(MessageV::BulletRemaining(body)))
        } else if id == 0x0209 {
            sized_result(body, 4, Ok(rfid_of(u32at(body, 0))))
        } else if id == 0x020A {
            sized_result(
                body,
                6,
                Ok(
                    MessageV::DartClientCmd {
                        dart_launch_opening_status: body[0],
                        dart_attack_target: body[1],
                        target_change_time: u16at(body, 2),
                        latest_launch_cmd_time: u16at(body, 4),
                    },
                ),
            )
        } else if id == 0x020B {
            sized_result(body, 40, Ok(ground_of(body)))
        } else if id == 0x020C {
            sized_result(
                body,
                6,
                Ok(
                    MessageV::RadarMarkData(
                        RadarMarkData {
                            mark_hero_progress: body[0],
                            mark_engineer_progress: body[1],
                            mark_standard_3_progress: body[2],
                            mark_standard_4_progress: body[3],
                            mark_standard_5_progress: body[4],
                            mark_sentry_progress: body[5],
                        },
                    ),
                ),
            )
        } else if id == 0x0301 {
            parse_sid(body)
        } else if id == 0x0302 {
            Ok(MessageV::CustomControllerInteractiveData(body))
        } else if id == 0x0303 {
            sized_result(
                body,
                15,
                Ok(
                    MessageV::MapCommand {
                        target_position_x: u32at(body, 0),
                        target_position_y: u32at(body, 4),
                        target_position_z: u32at(body, 8),
                        command_keyboard: body[12],
                        target_robot_id: u16at(body, 13),
                    },
                ),
            )
        } else if id == 0x0304 {
            sized_result(body, 10, parse_rc(body))
        } else if id == 0x0305 {
            sized_result(
                body,
                10,
                Ok(
                    MessageV::MinimapReceipt {
                        target_robot_id: u16at(body, 0),
                        target_position_x: u32at(body, 2),
                        target_position_y: u32at(body, 6),
                    },
                ),
            )
        } else {
            Err(DecodeError::UnknownCommand(id))
        }
    }
}


// ------------------------------------------------------------------
// Executable enumeration maps.
// ------------------------------------------------------------------

fn game_type_value(e: &GameType) -> (r: u8)
    ensures
        r == game_type_val(*e),
{
    match e {
        GameType::RMUC => 1,
        GameType::RMUT => 2,
        GameType::RMUA => 3,
        GameType::RMUL3v3 => 4,
        GameType::RMUL1v1 => 5,
    }
}

fn game_type_of(v: u8) -> (r: Option<GameType>)
    ensures
        r == game_type_from(v),
{
    match v {
        1 => Some(GameType::RMUC),
        2 => Some(GameType::RMUT),
        3 => Some(GameType::RMUA),
        4 => Some(GameType::RMUL3v3),
        5 => Some(GameType::RMUL1v1),
        _ => None,
    }
}

fn progress_value(e: &GameProgress) -> (r: u8)
    ensures
        r == progress_val(*e),
{
    match e {
        GameProgress::PreCompetitionStage => 0,
        GameProgress::SetupPeriod => 1,
        GameProgress::InitializationStage => 2,
        GameProgress::FiveSecondCountdown => 3,
        GameProgress::InCombat => 4,
        GameProgress::CalculatingCompetitionResults => 5,
    }
}

fn progress_of(v: u8) -> (r: Option<GameProgress>)
    ensures
        r == progress_from(v),
{
    match v {
        0 => Some(GameProgress::PreCompetitionStage),
        1 => Some(GameProgress::SetupPeriod),
        2 => Some(GameProgress::InitializationStage),
        3 => Some(GameProgress::FiveSecondCountdown),
        4 => Some(GameProgress::InCombat),
        5 => Some(GameProgress::CalculatingCompetitionResults),
        _ => None,
    }
}

fn winner_value(e: &Winner) -> (r: u8)
    ensures
        r == winner_val(*e),
{
    match e {
        Winner::Draw => 0,
        Winner::Red => 1,
        Winner::Blue => 2,
    }
}

fn winner_of(v: u8) -> (r: Option<Winner>)
    ensures
        r == winner_from(v),
{
    match v {
        0 => Some(Winner::Draw),
        1 => Some(Winner::Red),
        2 => Some(Winner::Blue),
        _ => None,
    }
}

fn supplier_value(e: &ProjectileSupplier) -> (r: u8)
    ensures
        r == supplier_val(*e),
{
    match e {
        ProjectileSupplier::_1 => 1,
        ProjectileSupplier::_2 => 2,
    }
}

fn supplier_of(v: u8) -> (r: Option<ProjectileSupplier>)
    ensures
        r == supplier_from(v),
{
    match v {
        1 => Some(ProjectileSupplier::_1),
        2 => Some(ProjectileSupplier::_2),
        _ => None,
    }
}

fn reloading_value(e: &ProjectileReloadingRobot) -> (r: u8)
    ensures
        r == reloading_val(*e),
{
    match e {
        ProjectileReloadingRobot::NoRobot => 0,
        ProjectileReloadingRobot::Red1Hero => 1,
        ProjectileReloadingRobot::Red2Engineer => 2,
        ProjectileReloadingRobot::Red3 => 3,
        ProjectileReloadingRobot::Red4 => 4,
        ProjectileReloadingRobot::Red5 => 5,
        ProjectileReloadingRobot::Blue1Hero => 101,
        ProjectileReloadingRobot::Blue2Engineer => 102,
        ProjectileReloadingRobot::Blue3 => 103,
        ProjectileReloadingRobot::Blue4 => 104,
        ProjectileReloadingRobot::Blue5 => 105,
    }
}

fn reloading_of(v: u8) -> (r: Option<ProjectileReloadingRobot>)
    ensures
        r == reloading_from(v),
{
    match v {
        0 => Some(ProjectileReloadingRobot::NoRobot),
        1 => Some(ProjectileReloadingRobot::Red1Hero),
        2 => Some(ProjectileReloadingRobot::Red2Engineer),
        3 => Some(ProjectileReloadingRobot::Red3),
        4 => Some(ProjectileReloadingRobot::Red4),
        5 => Some(ProjectileReloadingRobot::Red5),
        101 => Some(ProjectileReloadingRobot::Blue1Hero),
        102 => Some(ProjectileReloadingRobot::Blue2Engineer),
        103 => Some(ProjectileReloadingRobot::Blue3),
        104 => Some(ProjectileReloadingRobot::Blue4),
        105 => Some(ProjectileReloadingRobot::Blue5),
        _ => None,
    }
}

fn outlet_value(e: &ProjectileOutletStatus) -> (r: u8)
    ensures
        r == outlet_val(*e),
{
    match e {
        ProjectileOutletStatus::Closed => 0,
        ProjectileOutletStatus::Preparing => 1,
        ProjectileOutletStatus::Dropping => 2,
    }
}

fn outlet_of(v: u8) -> (r: Option<ProjectileOutletStatus>)
    ensures
        r == outlet_from(v),
{
    match v {
        0 => Some(ProjectileOutletStatus::Closed),
        1 => Some(ProjectileOutletStatus::Preparing),
        2 => Some(ProjectileOutletStatus::Dropping),
        _ => None,
    }
}

fn supplied_value(e: &SuppliedProjectileNumber) -> (r: u8)
    ensures
        r == supplied_val(*e),
{
    match e {
        SuppliedProjectileNumber::_50 => 50,
        SuppliedProjectileNumber::_100 => 100,
        SuppliedProjectileNumber::_150 => 150,
        SuppliedProjectileNumber::_200 => 200,
    }
}

fn supplied_of(v: u8) -> (r: Option<SuppliedProjectileNumber>)
    ensures
        r == supplied_from(v),
{
    match v {
        50 => Some(SuppliedProjectileNumber::_50),
        100 => Some(SuppliedProjectileNumber::_100),
        150 => Some(SuppliedProjectileNumber::_150),
        200 => Some(SuppliedProjectileNumber::_200),
        _ => None,
    }
}

// ------------------------------------------------------------------
// The encoder.
// ------------------------------------------------------------------

/// Append the records of `gs` end to end.
fn encode_graphics(gs: &Vec<GraphicData>, out: &mut Vec<u8>)
    requires
        graphics_wf(gs@.map_values(|g: GraphicData| g@)),
    ensures
        final(out)@ == old(out)@ + graphics_bytes(gs@.map_values(|g: GraphicData| g@)),
{
    let ghost views = gs@.map_values(|g: GraphicData| g@);
    let mut i: usize = 0;
    proof {
        assert(graphics_bytes(views.subrange(0, 0)) =~= Seq::<u8>::empty());
        assert(out@ =~= out@ + graphics_bytes(views.subrange(0, 0)));
    }
    while i < gs.len()
        invariant
            i <= gs@.len(),
            views == gs@.map_values(|g: GraphicData| g@),
            graphics_wf(views),
            out@ == old(out)@ + graphics_bytes(views.subrange(0, i as int)),
        decreases gs@.len() - i,
    {
        proof {
            assert(views[i as int].wf());
            assert(views[i as int] == gs@[i as int]@);
        }
        encode_graphic(&gs[i], out);
        proof {
            let pre = views.subrange(0, i as int);
            let cur = views.subrange(0, i + 1 as int);
            assert(cur.drop_last() =~= pre);
            assert(cur.last() == views[i as int]);
            assert(out@ =~= old(out)@ + graphics_bytes(cur));
        }
        i = i + 1;
    }
    proof {
        assert(views.subrange(0, views.len() as int) =~= views);
    }
}

/// Serialize one message into its payload bytes (command id included).
pub fn encode_message(m: &Message) -> (r: Vec<u8>)
    requires
        m@.wf(),
    ensures
        r@ == msg_bytes(m@),
{
    let mut out: Vec<u8> = Vec::new();
    match m {
        Message::GameStatus(_) => encode_message_1(m, &mut out),
        Message::GameResult(_) => encode_message_1(m, &mut out),
        Message::GameRobotHP { .. } => encode_message_1(m, &mut out),
        Message::EventData(_) => encode_message_1(m, &mut out),
        Message::SupplyProjectileAction { .. } => encode_message_1(m, &mut out),
        Message::RefereeWarning(_) => encode_message_1(m, &mut out),
        Message::DartRemainingTime(_) => encode_message_2(m, &mut out),
        Message::GameRobotStatus(_) => encode_message_2(m, &mut out),
        Message::PowerHeatData { .. } => encode_message_2(m, &mut out),
        Message::GameRobotPos { .. } => encode_message_2(m, &mut out),
        Message::PowerRuneBuff { .. } => encode_message_2(m, &mut out),
        Message::AerialRobotEnergy(_) => encode_message_2(m, &mut out),
        Message::RobotHurt(_) => encode_message_3(m, &mut out),
        Message::ShootData(_) => encode_message_3(m, &mut out),
        Message::BulletRemaining(_) => encode_message_3(m, &mut out),
        Message::RFIDStatus { .. } => encode_message_3(m, &mut out),
        Message::DartClientCmd { .. } => encode_message_3(m, &mut out),
        Message::GroundRobotPosition { .. } => encode_message_3(m, &mut out),
        Message::RadarMarkData(_) => encode_message_4(m, &mut out),
        Message::StudentInteractiveData(_) => encode_message_sid(m, &mut out),
        Message::CustomControllerInteractiveData(_) => encode_message_4(m, &mut out),
        Message::MapCommand { .. } => encode_message_4(m, &mut out),
        Message::RemoteControl { .. } => encode_message_rc(m, &mut out),
        Message::MinimapReceipt { .. } => encode_message_4(m, &mut out),
    }
    out
}

fn encode_message_1(m: &Message, out: &mut Vec<u8>)
    requires
        m@.wf(),
        (m@ is GameStatus) || (m@ is GameResult) || (m@ is GameRobotHP) || (m@ is EventData) || (m@ is SupplyProjectileAction) || (m@ is RefereeWarning),
    ensures
        final(out)@ == old(out)@ + msg_bytes(m@),
{
    match m {
        Message::GameStatus(g) => {
            push_u16_le(out, 0x0001);
            out.push(game_type_value(&g.game_type) | (progress_value(&g.game_progress) << 4));
            push_u16_le(out, g.stage_remain_time);
            push_u64_le(out, g.sync_timestamp);
            proof {
                assert(out@ =~= old(out)@ + msg_bytes(m@));
            }
        },
        Message::GameResult(w) => {
            push_u16_le(out, 0x0002);
            out.push(winner_value(w));
            proof {
                assert(out@ =~= old(out)@ + msg_bytes(m@));
            }
        },
        Message::GameRobotHP { red, blue } => {
            push_u16_le(out, 0x0003);
            push_team(out, red);
            push_team(out, blue);
            proof {
                assert(out@ =~= old(out)@ + msg_bytes(m@));
            }
        },
        Message::EventData(e) => {
            push_u16_le(out, 0x0101);
            let w: u32 = (if e.restoration_zone_1_occupied { 1u32 } else { 0u32 }) | ((
            if e.restoration_zone_2_occupied { 1u32 } else { 0u32 }) << 1) | ((
            if e.restoration_zone_3_occupied { 1u32 } else { 0u32 }) << 2) | ((
            if e.attack_point_occupied { 1u32 } else { 0u32 }) << 3) | ((
            if e.small_power_rune_activated { 1u32 } else { 0u32 }) << 4) | ((
            if e.big_power_rune_activated { 1u32 } else { 0u32 }) << 5) | ((
            if e.r2b2_occupied { 1u32 } else { 0u32 }) << 6) | ((
            if e.r3b3_occupied { 1u32 } else { 0u32 }) << 7) | ((
            if e.r4b4_occupied { 1u32 } else { 0u32 }) << 8) | ((
            if e.base_has_virtual_shield { 1u32 } else { 0u32 }) << 9) | ((
            if e.outpost_survives { 1u32 } else { 0u32 }) << 10);
            push_u32_le(out, w);
            proof {
                assert(out@ =~= old(out)@ + msg_bytes(m@));
            }
        },
        Message::SupplyProjectileAction { supplier, robot, outlet_status, supplied_number } => {
            push_u16_le(out, 0x0102);
            out.push(supplier_value(supplier));
            out.push(reloading_value(robot));
            out.push(outlet_value(outlet_status));
            out.push(supplied_value(supplied_number));
            proof {
                assert(out@ =~= old(out)@ + msg_bytes(m@));
            }
        },
        Message::RefereeWarning(w) => {
            push_u16_le(out, 0x0104);
            match w {
                RefereeWarning::YellowCard { foul_robot_id } => {
                    out.push(1);
                    out.push(*foul_robot_id);
                },
                RefereeWarning::RedCard { foul_robot_id } => {
                    out.push(2);
                    out.push(*foul_robot_id);
                },
                RefereeWarning::Forfeiture => {
                    out.push(3);
                    out.push(0);
                },
            }
            proof {
                assert(out@ =~= old(out)@ + msg_bytes(m@));
            }
        },
        _ => {
            proof {
                assert(false);
            }
        },
    }
}

fn encode_message_2(m: &Message, out: &mut Vec<u8>)
    requires
        m@.wf(),
        (m@ is DartRemainingTime) || (m@ is GameRobotStatus) || (m@ is PowerHeatData) || (m@ is GameRobotPos) || (m@ is PowerRuneBuff) || (m@ is AerialRobotEnergy),
    ensures
        final(out)@ == old(out)@ + msg_bytes(m@),
{
    match m {
        Message::DartRemainingTime(t) => {
            push_u16_le(out, 0x0105);
            out.push(*t);
            proof {
                assert(out@ =~= old(out)@ + msg_bytes(m@));
            }
        },
        Message::GameRobotStatus(s) => {
            push_u16_le(out, 0x0201);
            out.push(s.robot_id);
            out.push(s.robot_level);
            push_u16_le(out, s.remain_hp);
            push_u16_le(out, s.max_hp);
            push_u16_le(out, s.shooter_id1_17mm_cooling_rate);
            push_u16_le(out, s.shooter_id1_17mm_cooling_limit);
            push_u16_le(out, s.shooter_id1_17mm_speed_limit);
            push_u16_le(out, s.shooter_id2_17mm_cooling_rate);
            push_u16_le(out, s.shooter_id2_17mm_cooling_limit);
            push_u16_le(out, s.shooter_id2_17mm_speed_limit);
            push_u16_le(out, s.shooter_id1_42mm_cooling_rate);
            push_u16_le(out, s.shooter_id1_42mm_cooling_limit);
            push_u16_le(out, s.shooter_id1_42mm_speed_limit);
            push_u16_le(out, s.chassis_power_limit);
            out.push(
                (if s.mains_power_gimbal_output { 1u8 } else { 0u8 }) | ((
                if s.mains_power_chassis_output { 1u8 } else { 0u8 }) << 1) | ((
                if s.mains_power_shooter_output { 1u8 } else { 0u8 }) << 2),
            );
            proof {
                assert(out@ =~= old(out)@ + msg_bytes(m@));
            }
        },
        Message::PowerHeatData {
            chassis_volt,
            chassis_current,
            chassis_power,
            chassis_power_buffer,
            shooter_id1_17mm_cooling_heat,
            shooter_id2_17mm_cooling_heat,
            shooter_id1_42mm_cooling_heat,
        } => {
            push_u16_le(out, 0x0202);
            push_u16_le(out, *chassis_volt);
            push_u16_le(out, *chassis_current);
            push_u32_le(out, *chassis_power);
            push_u16_le(out, *chassis_power_buffer);
            push_u16_le(out, *shooter_id1_17mm_cooling_heat);
            push_u16_le(out, *shooter_id2_17mm_cooling_heat);
            push_u16_le(out, *shooter_id1_42mm_cooling_heat);
            proof {
                assert(out@ =~= old(out)@ + msg_bytes(m@));
            }
        },
        Message::GameRobotPos { x, y, z, yaw } => {
            push_u16_le(out, 0x0203);
            push_u32_le(out, *x);
            push_u32_le(out, *y);
            push_u32_le(out, *z);
            push_u32_le(out, *yaw);
            proof {
                assert(out@ =~= old(out)@ + msg_bytes(m@));
            }
        },
        Message::PowerRuneBuff {
            robot_hp_restoration_status,
            barrel_heat_cooling_acceleration,
            robot_defense_buff,
            robot_attack_buff,
        } => {
            push_u16_le(out, 0x0204);
            out.push(
                (if *robot_hp_restoration_status { 1u8 } else { 0u8 }) | ((
                if *barrel_heat_cooling_acceleration { 1u8 } else { 0u8 }) << 1) | ((
                if *robot_defense_buff { 1u8 } else { 0u8 }) << 2) | ((
                if *robot_attack_buff { 1u8 } else { 0u8 }) << 3),
            );
            proof {
                assert(out@ =~= old(out)@ + msg_bytes(m@));
            }
        },
        Message::AerialRobotEnergy(t) => {
            push_u16_le(out, 0x0205);
            out.push(*t);
            proof {
                assert(out@ =~= old(out)@ + msg_bytes(m@));
            }
        },
        _ => {
            proof {
                assert(false);
            }
        },
    }
}

fn encode_message_3(m: &Message, out: &mut Vec<u8>)
    requires
        m@.wf(),
        (m@ is RobotHurt) || (m@ is ShootData) || (m@ is BulletRemaining) || (m@ is RFIDStatus) || (m@ is DartClientCmd) || (m@ is GroundRobotPosition),
    ensures
        final(out)@ == old(out)@ + msg_bytes(m@),
{
    match m {
        Message::RobotHurt(t) => {
            push_u16_le(out, 0x0206);
            out.push(*t);
            proof {
                assert(out@ =~= old(out)@ + msg_bytes(m@));
            }
        },
        Message::ShootData(b) => {
            push_u16_le(out, 0x0207);
            out.push(b[0]);
            out.push(b[1]);
            out.push(b[2]);
            out.push(b[3]);
            out.push(b[4]);
            out.push(b[5]);
            out.push(b[6]);
            proof {
                assert(out@ =~= old(out)@ + msg_bytes(m@));
            }
        },
        Message::BulletRemaining(b) => {
            push_u16_le(out, 0x0208);
            out.push(b[0]);
            out.push(b[1]);
            out.push(b[2]);
            out.push(b[3]);
            out.push(b[4]);
            out.push(b[5]);
            proof {
                assert(out@ =~= old(out)@ + msg_bytes(m@));
            }
        },
        Message::RFIDStatus {
            base_gain_zone,
            elevated_ground_gain_zone,
            power_rune_activation_point,
            launch_ramp_gain_zone,
            outpost_gain_zone,
            restoration_zone_buff,
            engineer_robot_recovery_card,
        } => {
            push_u16_le(out, 0x0209);
            let w: u32 = (if *base_gain_zone { 1u32 } else { 0u32 }) | ((
            if *elevated_ground_gain_zone { 1u32 } else { 0u32 }) << 1) | ((
            if *power_rune_activation_point { 1u32 } else { 0u32 }) << 2) | ((
            if *launch_ramp_gain_zone { 1u32 } else { 0u32 }) << 3) | ((
            if *outpost_gain_zone { 1u32 } else { 0u32 }) << 4) | ((
            if *restoration_zone_buff { 1u32 } else { 0u32 }) << 6) | ((
            if *engineer_robot_recovery_card { 1u32 } else { 0u32 }) << 7);
            push_u32_le(out, w);
            proof {
                assert(out@ =~= old(out)@ + msg_bytes(m@));
            }
        },
        Message::DartClientCmd {
            dart_launch_opening_status,
            dart_attack_target,
            target_change_time,
            latest_launch_cmd_time,
        } => {
            push_u16_le(out, 0x020A);
            out.push(*dart_launch_opening_status);
            out.push(*dart_attack_target);
            push_u16_le(out, *target_change_time);
            push_u16_le(out, *latest_launch_cmd_time);
            proof {
                assert(out@ =~= old(out)@ + msg_bytes(m@));
            }
        },
        Message::GroundRobotPosition {
            hero_x,
            hero_y,
            engineer_x,
            engineer_y,
            standard_3_x,
            standard_3_y,
            standard_4_x,
            standard_4_y,
            standard_5_x,
            standard_5_y,
        } => {
            push_u16_le(out, 0x020B);
            push_u32_le(out, *hero_x);
            push_u32_le(out, *hero_y);
            push_u32_le(out, *engineer_x);
            push_u32_le(out, *engineer_y);
            push_u32_le(out, *standard_3_x);
            push_u32_le(out, *standard_3_y);
            push_u32_le(out, *standard_4_x);
            push_u32_le(out, *standard_4_y);
            push_u32_le(out, *standard_5_x);
            push_u32_le(out, *standard_5_y);
            proof {
                assert(out@ =~= old(out)@ + msg_bytes(m@));
            }
        },
        _ => {
            proof {
                assert(false);
            }
        },
    }
}

fn encode_message_4(m: &Message, out: &mut Vec<u8>)
    requires
        m@.wf(),
        (m@ is RadarMarkData) || (m@ is CustomControllerInteractiveData) || (m@ is MapCommand) || (m@ is MinimapReceipt),
    ensures
        final(out)@ == old(out)@ + msg_bytes(m@),
{
    match m {
        Message::RadarMarkData(r) => {
            push_u16_le(out, 0x020C);
            out.push(r.mark_hero_progress);
            out.push(r.mark_engineer_progress);
            out.push(r.mark_standard_3_progress);
            out.push(r.mark_standard_4_progress);
            out.push(r.mark_standard_5_progress);
            out.push(r.mark_sentry_progress);
            proof {
                assert(out@ =~= old(out)@ + msg_bytes(m@));
            }
        },
        Message::CustomControllerInteractiveData(b) => {
            push_u16_le(out, 0x0302);
            push_bytes(out, b);
            proof {
                assert(out@ =~= old(out)@ + msg_bytes(m@));
            }
        },
        Message::MapCommand {
            target_position_x,
            target_position_y,
            target_position_z,
            command_keyboard,
            target_robot_id,
        } => {
            push_u16_le(out, 0x0303);
            push_u32_le(out, *target_position_x);
            push_u32_le(out, *target_position_y);
            push_u32_le(out, *target_position_z);
            out.push(*command_keyboard);
            push_u16_le(out, *target_robot_id);
            proof {
                assert(out@ =~= old(out)@ + msg_bytes(m@));
            }
        },
        Message::MinimapReceipt { target_robot_id, target_position_x, target_position_y } => {
            push_u16_le(out, 0x0305);
            push_u16_le(out, *target_robot_id);
            push_u32_le(out, *target_position_x);
            push_u32_le(out, *target_position_y);
            proof {
                assert(out@ =~= old(out)@ + msg_bytes(m@));
            }
        },
        _ => {
            proof {
                assert(false);
            }
        },
    }
}

#[verifier::rlimit(100)]
fn encode_message_sid(m: &Message, out: &mut Vec<u8>)
    requires
        m@.wf(),
        (m@ is StudentInteractiveData),
    ensures
        final(out)@ == old(out)@ + msg_bytes(m@),
{
    match m {
        Message::StudentInteractiveData(s) => {
            push_u16_le(out, 0x0301);
            let cid = s.get_content_id();
            push_u16_le(out, cid);
            push_u16_le(out, s.send_id);
            push_u16_le(out, s.receive_id);
            match &s.content {
                StudentInteractiveDataType::PeerToPeerCommunication { content, .. } => {
                    push_bytes(out, content);
                    proof {
                        assert(out@ =~= old(out)@ + msg_bytes(m@));
                    }
                },
                StudentInteractiveDataType::GraphicDelete { operate_type, layer } => {
                    out.push(delete_op_value_pub(operate_type));
                    out.push(*layer);
                    proof {
                        assert(out@ =~= old(out)@ + msg_bytes(m@));
                    }
                },
                StudentInteractiveDataType::GraphicDraw1(gs) => {
                    encode_graphics(gs, out);
                    proof {
                        assert(out@ =~= old(out)@ + msg_bytes(m@));
                    }
                },
                StudentInteractiveDataType::GraphicDraw2(gs) => {
                    encode_graphics(gs, out);
                    proof {
                        assert(out@ =~= old(out)@ + msg_bytes(m@));
                    }
                },
                StudentInteractiveDataType::GraphicDraw5(gs) => {
                    encode_graphics(gs, out);
                    proof {
                        assert(out@ =~= old(out)@ + msg_bytes(m@));
                    }
                },
                StudentInteractiveDataType::GraphicDraw7(gs) => {
                    encode_graphics(gs, out);
                    proof {
                        assert(out@ =~= old(out)@ + msg_bytes(m@));
                    }
                },
                StudentInteractiveDataType::GraphicDrawCharacter(g, chars) => {
                    encode_graphic(g, out);
                    push_bytes(out, chars);
                    proof {
                        assert(out@ =~= old(out)@ + msg_bytes(m@));
                    }
                },
            }
        },
        _ => {
            proof {
                assert(false);
            }
        },
    }
}

#[verifier::rlimit(100)]
fn encode_message_rc(m: &Message, out: &mut Vec<u8>)
    requires
        m@.wf(),
        (m@ is RemoteControl),
    ensures
        final(out)@ == old(out)@ + msg_bytes(m@),
{
    match m {
        Message::RemoteControl {
            mouse_x,
            mouse_y,
            mouse_z,
            left_button_down,
            right_button_down,
            w_key_down,
            s_key_down,
            a_key_down,
            d_key_down,
            shift_key_down,
            ctrl_key_down,
            q_key_down,
            e_key_down,
            r_key_down,
            f_key_down,
            g_key_down,
            z_key_down,
            x_key_down,
            c_key_down,
            v_key_down,
            b_key_down,
        } => {
            let klo: u8 = keys_lo_value(
                *w_key_down,
                *s_key_down,
                *a_key_down,
                *d_key_down,
                *shift_key_down,
                *ctrl_key_down,
                *q_key_down,
                *e_key_down,
            );
            let khi: u8 = keys_hi_value(
                *r_key_down,
                *f_key_down,
                *g_key_down,
                *z_key_down,
                *x_key_down,
                *c_key_down,
                *v_key_down,
                *b_key_down,
            );
            push_rc_bytes(out, *mouse_x, *mouse_y, *mouse_z, *left_button_down, *right_button_down, klo, khi);
            proof {
                let tail = seq![
                    u16_lo(*mouse_x),
                    u16_hi(*mouse_x),
                    u16_lo(*mouse_y),
                    u16_hi(*mouse_y),
                    u16_lo(*mouse_z),
                    u16_hi(*mouse_z),
                    bb8(*left_button_down),
                    bb8(*right_button_down),
                    klo,
                    khi,
                ];
                assert(body_bytes(m@) == tail);
                assert(msg_bytes(m@) == le16(0x0304) + body_bytes(m@));
                assert(out@ =~= old(out)@ + msg_bytes(m@));
            }
        },
        _ => {
            proof {
                assert(false);
            }
        },
    }
}

fn push_rc_bytes(out: &mut Vec<u8>, mx: u16, my: u16, mz: u16, lb: bool, rb: bool, klo: u8, khi: u8)
    ensures
        final(out)@ == old(out)@ + (le16(0x0304) + seq![
            u16_lo(mx),
            u16_hi(mx),
            u16_lo(my),
            u16_hi(my),
            u16_lo(mz),
            u16_hi(mz),
            bb8(lb),
            bb8(rb),
            klo,
            khi,
        ]),
{
    push_u16_le(out, 0x0304);
    push_u16_le(out, mx);
    push_u16_le(out, my);
    push_u16_le(out, mz);
    out.push(if lb { 1 } else { 0 });
    out.push(if rb { 1 } else { 0 });
    out.push(klo);
    out.push(khi);
    proof {
        assert(out@ =~= old(out)@ + (le16(0x0304) + seq![
            u16_lo(mx),
            u16_hi(mx),
            u16_lo(my),
            u16_hi(my),
            u16_lo(mz),
            u16_hi(mz),
            bb8(lb),
            bb8(rb),
            klo,
            khi,
        ]));
    }
}


fn keys_lo_value(w: bool, s: bool, a: bool, d: bool, shift: bool, ctrl: bool, q: bool, e: bool)
    -> (res: u8)
    ensures
        res == keys_lo(w, s, a, d, shift, ctrl, q, e),
{
    proof {
        reveal(keys_lo);
    }
    (if w { 1u8 } else { 0u8 }) | ((if s { 1u8 } else { 0u8 }) << 1) | ((if a { 1u8 } else { 0u8 })
        << 2) | ((if d { 1u8 } else { 0u8 }) << 3) | ((if shift { 1u8 } else { 0u8 }) << 4) | ((
    if ctrl { 1u8 } else { 0u8 }) << 5) | ((if q { 1u8 } else { 0u8 }) << 6) | ((if e { 1u8 } else { 0u8 })
        << 7)
}

fn keys_hi_value(r: bool, f: bool, g: bool, z: bool, x: bool, c: bool, v: bool, b: bool) -> (res:
    u8)
    ensures
        res == keys_hi(r, f, g, z, x, c, v, b),
{
    proof {
        reveal(keys_hi);
    }
    (if r { 1u8 } else { 0u8 }) | ((if f { 1u8 } else { 0u8 }) << 1) | ((if g { 1u8 } else { 0u8 })
        << 2) | ((if z { 1u8 } else { 0u8 }) << 3) | ((if x { 1u8 } else { 0u8 }) << 4) | ((
    if c { 1u8 } else { 0u8 }) << 5) | ((if v { 1u8 } else { 0u8 }) << 6) | ((if b { 1u8 } else { 0u8 })
        << 7)
}

fn push_team(out: &mut Vec<u8>, t: &TeamHP)
    ensures
        final(out)@ == old(out)@ + team_bytes(*t),
{
    push_u16_le(out, t._1);
    push_u16_le(out, t._2);
    push_u16_le(out, t._3);
    push_u16_le(out, t._4);
    push_u16_le(out, t._5);
    push_u16_le(out, t._7);
    push_u16_le(out, t.outpost);
    push_u16_le(out, t.base);
    proof {
        assert(out@ =~= old(out)@ + team_bytes(*t));
    }
}

fn delete_op_value_pub(e: &GraphicDeleteOperation) -> (r: u8)
    ensures
        r == delete_op_val(*e),
{
    match e {
        GraphicDeleteOperation::Nop => 0,
        GraphicDeleteOperation::DeleteOne => 1,
        GraphicDeleteOperation::DeleteAll => 2,
    }
}

fn delete_op_of(v: u8) -> (r: Option<GraphicDeleteOperation>)
    ensures
        r == delete_op_from(v),
{
    match v {
        0 => Some(GraphicDeleteOperation::Nop),
        1 => Some(GraphicDeleteOperation::DeleteOne),
        2 => Some(GraphicDeleteOperation::DeleteAll),
        _ => None,
    }
}

/// Whether a message is well-formed, decided at run time.
pub fn message_wf(m: &Message) -> (b: bool)
    ensures
        b == m@.wf(),
{
    match m {
        Message::StudentInteractiveData(s) => {
            let derived = s.get_content_id();
            if s.content_id != derived {
                return false;
            }
            match &s.content {
                StudentInteractiveDataType::PeerToPeerCommunication { content_id, .. } => 0x0200
                    <= *content_id && *content_id <= 0x02FF,
                StudentInteractiveDataType::GraphicDelete { .. } => true,
                StudentInteractiveDataType::GraphicDraw1(gs) => gs.len() == 1 && graphics_all_wf(
                    gs,
                ),
                StudentInteractiveDataType::GraphicDraw2(gs) => gs.len() == 2 && graphics_all_wf(
                    gs,
                ),
                StudentInteractiveDataType::GraphicDraw5(gs) => gs.len() == 5 && graphics_all_wf(
                    gs,
                ),
                StudentInteractiveDataType::GraphicDraw7(gs) => gs.len() == 7 && graphics_all_wf(
                    gs,
                ),
                StudentInteractiveDataType::GraphicDrawCharacter(g, chars) => graphic_is_wf(g)
                    && chars.len() == 30,
            }
        },
        _ => true,
    }
}

fn graphic_is_wf(g: &GraphicData) -> (b: bool)
    ensures
        b == g@.wf(),
{
    let ty_ok = g.graphic_type == match &g.graphic_data {
        GraphicEnum::StraightLine(_) => 0u8,
        GraphicEnum::Rectangle(_) => 1u8,
        GraphicEnum::Circle(_) => 2u8,
        GraphicEnum::Ellipse(_) => 3u8,
        GraphicEnum::Arc(_) => 4u8,
        GraphicEnum::FloatingNumber(_) => 5u8,
        GraphicEnum::Integer(_) => 6u8,
        GraphicEnum::Character(_) => 7u8,
    };
    let shape_ok = match &g.graphic_data {
        GraphicEnum::StraightLine(d) => d.width < 1024 && d.start_x < 2048 && d.start_y < 2048
            && d.end_x < 2048 && d.end_y < 2048,
        GraphicEnum::Rectangle(d) => d.width < 1024 && d.start_x < 2048 && d.start_y < 2048
            && d.end_x < 2048 && d.end_y < 2048,
        GraphicEnum::Circle(d) => d.width < 1024 && d.x < 2048 && d.y < 2048 && d.radius < 1024,
        GraphicEnum::Ellipse(d) => d.width < 1024 && d.x < 2048 && d.y < 2048 && d.half_x_length
            < 2048 && d.half_y_length < 2048,
        GraphicEnum::Arc(d) => d.start_angle < 512 && d.end_angle < 512 && d.width < 1024 && d.x
            < 2048 && d.y < 2048 && d.half_x_length < 2048 && d.half_y_length < 2048,
        GraphicEnum::FloatingNumber(d) => d.font_size < 512 && d.decimal_digit < 512 && d.width
            < 1024 && d.start_x < 2048 && d.start_y < 2048,
        GraphicEnum::Integer(d) => d.font_size < 512 && d.width < 1024 && d.start_x < 2048
            && d.start_y < 2048,
        GraphicEnum::Character(d) => d.font_size < 512 && d.decimal_digit < 512 && d.width < 1024
            && d.x < 2048 && d.y < 2048,
    };
    ty_ok && g.layer < 16 && shape_ok
}

fn graphics_all_wf(gs: &Vec<GraphicData>) -> (b: bool)
    ensures
        b == graphics_wf(gs@.map_values(|g: GraphicData| g@)),
{
    let ghost views = gs@.map_values(|g: GraphicData| g@);
    let mut i: usize = 0;
    while i < gs.len()
        invariant
            i <= gs@.len(),
            views == gs@.map_values(|g: GraphicData| g@),
            forall|j: int| 0 <= j < i ==> #[trigger] views[j].wf(),
        decreases gs@.len() - i,
    {
        if !graphic_is_wf(&gs[i]) {
            proof {
                assert(views[i as int] == gs@[i as int]@);
            }
            return false;
        }
        proof {
            assert(views[i as int] == gs@[i as int]@);
        }
        i = i + 1;
    }
    true
}


// ------------------------------------------------------------------
// The decoder.
// ------------------------------------------------------------------

/// The mathematical image of a decode result.
pub open spec fn res_view(r: Result<Message, DecodeError>) -> Result<MessageV, DecodeError> {
    match r {
        Ok(m) => Ok(m@),
        Err(e) => Err(e),
    }
}

/// Decode one payload (command id then body) into a typed message.
/// The result is exactly what the parser says, and a decoded message
/// is always well formed.
pub fn decode_message(payload: &Vec<u8>) -> (r: Result<Message, DecodeError>)
    ensures
        res_view(r) == parse_msg(payload@),
        r matches Ok(m) ==> m@.wf(),
{
    proof {
        reveal(parse_msg);
    }
    let n = payload.len();
    if n < 2 {
        return Err(DecodeError::ShortPayload);
    }
    let id = read_u16_le(payload, 0);
    if id == 0x0001 {
        dec_game_status(payload)
    } else if id == 0x0002 {
        dec_game_result(payload)
    } else if id == 0x0003 {
        dec_game_robot_hp(payload)
    } else if id == 0x0101 {
        dec_event_data(payload)
    } else if id == 0x0102 {
        dec_supply(payload)
    } else if id == 0x0104 {
        dec_warning(payload)
    } else if id == 0x0105 {
        dec_byte_message(payload, 0)
    } else if id == 0x0201 {
        dec_game_robot_status(payload)
    } else if id == 0x0202 {
        dec_power_heat(payload)
    } else if id == 0x0203 {
        dec_robot_pos(payload)
    } else if id == 0x0204 {
        dec_rune(payload)
    } else if id == 0x0205 {
        dec_byte_message(payload, 1)
    } else if id == 0x0206 {
        dec_byte_message(payload, 2)
    } else if id == 0x0207 {
        dec_shoot(payload)
    } else if id == 0x0208 {
        dec_bullet(payload)
    } else if id == 0x0209 {
        dec_rfid(payload)
    } else if id == 0x020A {
        dec_dart_cmd(payload)
    } else if id == 0x020B {
        dec_ground(payload)
    } else if id == 0x020C {
        dec_radar(payload)
    } else if id == 0x0301 {
        dec_sid(payload)
    } else if id == 0x0302 {
        dec_custom(payload)
    } else if id == 0x0303 {
        dec_map_command(payload)
    } else if id == 0x0304 {
        dec_remote_control(payload)
    } else if id == 0x0305 {
        dec_minimap(payload)
    } else {
        Err(DecodeError::UnknownCommand(id))
    }
}

/// Gate the body length of a fixed-size variant; `Ok(())` means the
/// body is exactly `want` bytes long.
fn length_gate(payload: &Vec<u8>, want: usize) -> (r: Result<(), DecodeError>)
    requires
        payload@.len() >= 2,
        want < 0x10000,
    ensures
        (match r {
            Ok(()) => payload@.len() - 2 == want,
            Err(e) => (payload@.len() - 2 < want && e == DecodeError::ShortPayload) || (payload@
                .len() - 2 > want && e == DecodeError::TrailingBytes(
                (payload@.len() - 2 - want) as u16,
            )),
        }),
{
    let n = payload.len();
    let blen = n - 2;
    if blen < want {
        Err(DecodeError::ShortPayload)
    } else if blen > want {
        Err(DecodeError::TrailingBytes((blen - want) as u16))
    } else {
        Ok(())
    }
}

fn dec_game_status(payload: &Vec<u8>) -> (r: Result<Message, DecodeError>)
    requires
        payload@.len() >= 2,
        u16_of(payload@[0], payload@[1]) == 0x0001,
    ensures
        res_view(r) == parse_msg(payload@),
        r matches Ok(m) ==> m@.wf(),
{
    let ghost body = payload@.skip(2);
    proof {
        reveal(parse_msg);
        assert(forall|k: int| 0 <= k < body.len() ==> #[trigger] body[k] == payload@[k + 2]);
    }
    if let Err(e) = length_gate(payload, 11) {
        return Err(e);
    }
    let b0 = payload[2];
    let gt = match game_type_of(b0 & 0xF) {
        Some(gt) => gt,
        None => {
            return Err(
                DecodeError::UnknownEnumValue(EnumContext::GameType, (b0 & 0xF) as u16),
            );
        },
    };
    let gp = match progress_of(b0 >> 4) {
        Some(gp) => gp,
        None => {
            return Err(
                DecodeError::UnknownEnumValue(EnumContext::GameProgress, (b0 >> 4) as u16),
            );
        },
    };
    Ok(
        Message::GameStatus(
            GameStatus {
                game_type: gt,
                game_progress: gp,
                stage_remain_time: read_u16_le(payload, 3),
                sync_timestamp: read_u64_le(payload, 5),
            },
        ),
    )
}

fn dec_game_result(payload: &Vec<u8>) -> (r: Result<Message, DecodeError>)
    requires
        payload@.len() >= 2,
        u16_of(payload@[0], payload@[1]) == 0x0002,
    ensures
        res_view(r) == parse_msg(payload@),
        r matches Ok(m) ==> m@.wf(),
{
    let ghost body = payload@.skip(2);
    proof {
        reveal(parse_msg);
        assert(forall|k: int| 0 <= k < body.len() ==> #[trigger] body[k] == payload@[k + 2]);
    }
    if let Err(e) = length_gate(payload, 1) {
        return Err(e);
    }
    match winner_of(payload[2]) {
        Some(w) => Ok(Message::GameResult(w)),
        None => Err(DecodeError::UnknownEnumValue(EnumContext::Winner, payload[2] as u16)),
    }
}

fn read_team(payload: &Vec<u8>, off: usize) -> (t: TeamHP)
    requires
        2 <= off,
        off + 16 <= payload@.len(),
    ensures
        t == team_of(payload@.skip(2), off - 2),
{
    let n = payload.len();
    proof {
        let body = payload@.skip(2);
        assert(forall|k: int| 0 <= k < body.len() ==> #[trigger] body[k] == payload@[k + 2]);
    }
    TeamHP {
        _1: read_u16_le(payload, off),
        _2: read_u16_le(payload, off + 2),
        _3: read_u16_le(payload, off + 4),
        _4: read_u16_le(payload, off + 6),
        _5: read_u16_le(payload, off + 8),
        _7: read_u16_le(payload, off + 10),
        outpost: read_u16_le(payload, off + 12),
        base: read_u16_le(payload, off + 14),
    }
}

fn dec_game_robot_hp(payload: &Vec<u8>) -> (r: Result<Message, DecodeError>)
    requires
        payload@.len() >= 2,
        u16_of(payload@[0], payload@[1]) == 0x0003,
    ensures
        res_view(r) == parse_msg(payload@),
        r matches Ok(m) ==> m@.wf(),
{
    let ghost body = payload@.skip(2);
    proof {
        reveal(parse_msg);
        assert(forall|k: int| 0 <= k < body.len() ==> #[trigger] body[k] == payload@[k + 2]);
    }
    if let Err(e) = length_gate(payload, 32) {
        return Err(e);
    }
    let red = read_team(payload, 2);
    let blue = read_team(payload, 18);
    Ok(Message::GameRobotHP { red, blue })
}

fn dec_event_data(payload: &Vec<u8>) -> (r: Result<Message, DecodeError>)
    requires
        payload@.len() >= 2,
        u16_of(payload@[0], payload@[1]) == 0x0101,
    ensures
        res_view(r) == parse_msg(payload@),
        r matches Ok(m) ==> m@.wf(),
{
    let ghost body = payload@.skip(2);
    proof {
        reveal(parse_msg);
        assert(forall|k: int| 0 <= k < body.len() ==> #[trigger] body[k] == payload@[k + 2]);
    }
    if let Err(e) = length_gate(payload, 4) {
        return Err(e);
    }
    let w = read_u32_le(payload, 2);
    Ok(
        Message::EventData(
            EventData {
                restoration_zone_1_occupied: (w >> 0) & 1 == 1,
                restoration_zone_2_occupied: (w >> 1) & 1 == 1,
                restoration_zone_3_occupied: (w >> 2) & 1 == 1,
                attack_point_occupied: (w >> 3) & 1 == 1,
                small_power_rune_activated: (w >> 4) & 1 == 1,
                big_power_rune_activated: (w >> 5) & 1 == 1,
                r2b2_occupied: (w >> 6) & 1 == 1,
                r3b3_occupied: (w >> 7) & 1 == 1,
                r4b4_occupied: (w >> 8) & 1 == 1,
                base_has_virtual_shield: (w >> 9) & 1 == 1,
                outpost_survives: (w >> 10) & 1 == 1,
            },
        ),
    )
}

fn dec_supply(payload: &Vec<u8>) -> (r: Result<Message, DecodeError>)
    requires
        payload@.len() >= 2,
        u16_of(payload@[0], payload@[1]) == 0x0102,
    ensures
        res_view(r) == parse_msg(payload@),
        r matches Ok(m) ==> m@.wf(),
{
    let ghost body = payload@.skip(2);
    proof {
        reveal(parse_msg);
        assert(forall|k: int| 0 <= k < body.len() ==> #[trigger] body[k] == payload@[k + 2]);
    }
    if let Err(e) = length_gate(payload, 4) {
        return Err(e);
    }
    let supplier = match supplier_of(payload[2]) {
        Some(v) => v,
        None => {
            return Err(
                DecodeError::UnknownEnumValue(EnumContext::ProjectileSupplier, payload[2] as u16),
            );
        },
    };
    let robot = match reloading_of(payload[3]) {
        Some(v) => v,
        None => {
            return Err(
                DecodeError::UnknownEnumValue(
                    EnumContext::ProjectileReloadingRobot,
                    payload[3] as u16,
                ),
            );
        },
    };
    let outlet_status = match outlet_of(payload[4]) {
        Some(v) => v,
        None => {
            return Err(
                DecodeError::UnknownEnumValue(
                    EnumContext::ProjectileOutletStatus,
                    payload[4] as u16,
                ),
            );
        },
    };
    let supplied_number = match supplied_of(payload[5]) {
        Some(v) => v,
        None => {
            return Err(
                DecodeError::UnknownEnumValue(
                    EnumContext::SuppliedProjectileNumber,
                    payload[5] as u16,
                ),
            );
        },
    };
    Ok(Message::SupplyProjectileAction { supplier, robot, outlet_status, supplied_number })
}

fn dec_warning(payload: &Vec<u8>) -> (r: Result<Message, DecodeError>)
    requires
        payload@.len() >= 2,
        u16_of(payload@[0], payload@[1]) == 0x0104,
    ensures
        res_view(r) == parse_msg(payload@),
        r matches Ok(m) ==> m@.wf(),
{
    let ghost body = payload@.skip(2);
    proof {
        reveal(parse_msg);
        assert(forall|k: int| 0 <= k < body.len() ==> #[trigger] body[k] == payload@[k + 2]);
    }
    if let Err(e) = length_gate(payload, 2) {
        return Err(e);
    }
    let level = payload[2];
    if level == 1 {
        Ok(Message::RefereeWarning(RefereeWarning::YellowCard { foul_robot_id: payload[3] }))
    } else if level == 2 {
        Ok(Message::RefereeWarning(RefereeWarning::RedCard { foul_robot_id: payload[3] }))
    } else if level == 3 {
        Ok(Message::RefereeWarning(RefereeWarning::Forfeiture))
    } else {
        Err(DecodeError::UnknownEnumValue(EnumContext::RefereeWarningLevel, level as u16))
    }
}

/// The three one-byte messages, selected by `which`: dart remaining
/// time, aerial robot energy, robot hurt.
fn dec_byte_message(payload: &Vec<u8>, which: u8) -> (r: Result<Message, DecodeError>)
    requires
        payload@.len() >= 2,
        which == 0 ==> u16_of(payload@[0], payload@[1]) == 0x0105,
        which == 1 ==> u16_of(payload@[0], payload@[1]) == 0x0205,
        which == 2 ==> u16_of(payload@[0], payload@[1]) == 0x0206,
        which <= 2,
    ensures
        res_view(r) == parse_msg(payload@),
        r matches Ok(m) ==> m@.wf(),
{
    let ghost body = payload@.skip(2);
    proof {
        reveal(parse_msg);
        assert(forall|k: int| 0 <= k < body.len() ==> #[trigger] body[k] == payload@[k + 2]);
    }
    if let Err(e) = length_gate(payload, 1) {
        return Err(e);
    }
    let v = payload[2];
    if which == 0 {
        Ok(Message::DartRemainingTime(v))
    } else if which == 1 {
        Ok(Message::AerialRobotEnergy(v))
    } else {
        Ok(Message::RobotHurt(v))
    }
}

fn dec_game_robot_status(payload: &Vec<u8>) -> (r: Result<Message, DecodeError>)
    requires
        payload@.len() >= 2,
        u16_of(payload@[0], payload@[1]) == 0x0201,
    ensures
        res_view(r) == parse_msg(payload@),
        r matches Ok(m) ==> m@.wf(),
{
    let ghost body = payload@.skip(2);
    proof {
        reveal(parse_msg);
        assert(forall|k: int| 0 <= k < body.len() ==> #[trigger] body[k] == payload@[k + 2]);
    }
    if let Err(e) = length_gate(payload, 27) {
        return Err(e);
    }
    let flags = payload[28];
    Ok(
        Message::GameRobotStatus(
            GameRobotStatus {
                robot_id: payload[2],
                robot_level: payload[3],
                remain_hp: read_u16_le(payload, 4),
                max_hp: read_u16_le(payload, 6),
                shooter_id1_17mm_cooling_rate: read_u16_le(payload, 8),
                shooter_id1_17mm_cooling_limit: read_u16_le(payload, 10),
                shooter_id1_17mm_speed_limit: read_u16_le(payload, 12),
                shooter_id2_17mm_cooling_rate: read_u16_le(payload, 14),
                shooter_id2_17mm_cooling_limit: read_u16_le(payload, 16),
                shooter_id2_17mm_speed_limit: read_u16_le(payload, 18),
                shooter_id1_42mm_cooling_rate: read_u16_le(payload, 20),
                shooter_id1_42mm_cooling_limit: read_u16_le(payload, 22),
                shooter_id1_42mm_speed_limit: read_u16_le(payload, 24),
                chassis_power_limit: read_u16_le(payload, 26),
                mains_power_gimbal_output: (flags >> 0) & 1 == 1,
                mains_power_chassis_output: (flags >> 1) & 1 == 1,
                mains_power_shooter_output: (flags >> 2) & 1 == 1,
            },
        ),
    )
}

fn dec_power_heat(payload: &Vec<u8>) -> (r: Result<Message, DecodeError>)
    requires
        payload@.len() >= 2,
        u16_of(payload@[0], payload@[1]) == 0x0202,
    ensures
        res_view(r) == parse_msg(payload@),
        r matches Ok(m) ==> m@.wf(),
{
    let ghost body = payload@.skip(2);
    proof {
        reveal(parse_msg);
        assert(forall|k: int| 0 <= k < body.len() ==> #[trigger] body[k] == payload@[k + 2]);
    }
    if let Err(e) = length_gate(payload, 16) {
        return Err(e);
    }
    Ok(
        Message::PowerHeatData {
            chassis_volt: read_u16_le(payload, 2),
            chassis_current: read_u16_le(payload, 4),
            chassis_power: read_u32_le(payload, 6),
            chassis_power_buffer: read_u16_le(payload, 10),
            shooter_id1_17mm_cooling_heat: read_u16_le(payload, 12),
            shooter_id2_17mm_cooling_heat: read_u16_le(payload, 14),
            shooter_id1_42mm_cooling_heat: read_u16_le(payload, 16),
        },
    )
}

fn dec_robot_pos(payload: &Vec<u8>) -> (r: Result<Message, DecodeError>)
    requires
        payload@.len() >= 2,
        u16_of(payload@[0], payload@[1]) == 0x0203,
    ensures
        res_view(r) == parse_msg(payload@),
        r matches Ok(m) ==> m@.wf(),
{
    let ghost body = payload@.skip(2);
    proof {
        reveal(parse_msg);
        assert(forall|k: int| 0 <= k < body.len() ==> #[trigger] body[k] == payload@[k + 2]);
    }
    if let Err(e) = length_gate(payload, 16) {
        return Err(e);
    }
    Ok(
        Message::GameRobotPos {
            x: read_u32_le(payload, 2),
            y: read_u32_le(payload, 6),
            z: read_u32_le(payload, 10),
            yaw: read_u32_le(payload, 14),
        },
    )
}

fn dec_rune(payload: &Vec<u8>) -> (r: Result<Message, DecodeError>)
    requires
        payload@.len() >= 2,
        u16_of(payload@[0], payload@[1]) == 0x0204,
    ensures
        res_view(r) == parse_msg(payload@),
        r matches Ok(m) ==> m@.wf(),
{
    let ghost body = payload@.skip(2);
    proof {
        reveal(parse_msg);
        assert(forall|k: int| 0 <= k < body.len() ==> #[trigger] body[k] == payload@[k + 2]);
    }
    if let Err(e) = length_gate(payload, 1) {
        return Err(e);
    }
    let b = payload[2];
    Ok(
        Message::PowerRuneBuff {
            robot_hp_restoration_status: (b >> 0) & 1 == 1,
            barrel_heat_cooling_acceleration: (b >> 1) & 1 == 1,
            robot_defense_buff: (b >> 2) & 1 == 1,
            robot_attack_buff: (b >> 3) & 1 == 1,
        },
    )
}

fn dec_shoot(payload: &Vec<u8>) -> (r: Result<Message, DecodeError>)
    requires
        payload@.len() >= 2,
        u16_of(payload@[0], payload@[1]) == 0x0207,
    ensures
        res_view(r) == parse_msg(payload@),
        r matches Ok(m) ==> m@.wf(),
{
    let ghost body = payload@.skip(2);
    proof {
        reveal(parse_msg);
        assert(forall|k: int| 0 <= k < body.len() ==> #[trigger] body[k] == payload@[k + 2]);
    }
    if let Err(e) = length_gate(payload, 7) {
        return Err(e);
    }
    let b: [u8; 7] = [
        payload[2],
        payload[3],
        payload[4],
        payload[5],
        payload[6],
        payload[7],
        payload[8],
    ];
    proof {
        assert(b@ =~= body);
    }
    Ok(Message::ShootData(b))
}

fn dec_bullet(payload: &Vec<u8>) -> (r: Result<Message, DecodeError>)
    requires
        payload@.len() >= 2,
        u16_of(payload@[0], payload@[1]) == 0x0208,
    ensures
        res_view(r) == parse_msg(payload@),
        r matches Ok(m) ==> m@.wf(),
{
    let ghost body = payload@.skip(2);
    proof {
        reveal(parse_msg);
        assert(forall|k: int| 0 <= k < body.len() ==> #[trigger] body[k] == payload@[k + 2]);
    }
    if let Err(e) = length_gate(payload, 6) {
        return Err(e);
    }
    let b: [u8; 6] = [payload[2], payload[3], payload[4], payload[5], payload[6], payload[7]];
    proof {
        assert(b@ =~= body);
    }
    Ok(Message::BulletRemaining(b))
}

fn dec_rfid(payload: &Vec<u8>) -> (r: Result<Message, DecodeError>)
    requires
        payload@.len() >= 2,
        u16_of(payload@[0], payload@[1]) == 0x0209,
    ensures
        res_view(r) == parse_msg(payload@),
        r matches Ok(m) ==> m@.wf(),
{
    let ghost body = payload@.skip(2);
    proof {
        reveal(parse_msg);
        assert(forall|k: int| 0 <= k < body.len() ==> #[trigger] body[k] == payload@[k + 2]);
    }
    if let Err(e) = length_gate(payload, 4) {
        return Err(e);
    }
    let w = read_u32_le(payload, 2);
    Ok(
        Message::RFIDStatus {
            base_gain_zone: (w >> 0) & 1 == 1,
            elevated_ground_gain_zone: (w >> 1) & 1 == 1,
            power_rune_activation_point: (w >> 2) & 1 == 1,
            launch_ramp_gain_zone: (w >> 3) & 1 == 1,
            outpost_gain_zone: (w >> 4) & 1 == 1,
            restoration_zone_buff: (w >> 6) & 1 == 1,
            engineer_robot_recovery_card: (w >> 7) & 1 == 1,
        },
    )
}

fn dec_dart_cmd(payload: &Vec<u8>) -> (r: Result<Message, DecodeError>)
    requires
        payload@.len() >= 2,
        u16_of(payload@[0], payload@[1]) == 0x020A,
    ensures
        res_view(r) == parse_msg(payload@),
        r matches Ok(m) ==> m@.wf(),
{
    let ghost body = payload@.skip(2);
    proof {
        reveal(parse_msg);
        assert(forall|k: int| 0 <= k < body.len() ==> #[trigger] body[k] == payload@[k + 2]);
    }
    if let Err(e) = length_gate(payload, 6) {
        return Err(e);
    }
    Ok(
        Message::DartClientCmd {
            dart_launch_opening_status: payload[2],
            dart_attack_target: payload[3],
            target_change_time: read_u16_le(payload, 4),
            latest_launch_cmd_time: read_u16_le(payload, 6),
        },
    )
}

fn dec_ground(payload: &Vec<u8>) -> (r: Result<Message, DecodeError>)
    requires
        payload@.len() >= 2,
        u16_of(payload@[0], payload@[1]) == 0x020B,
    ensures
        res_view(r) == parse_msg(payload@),
        r matches Ok(m) ==> m@.wf(),
{
    let ghost body = payload@.skip(2);
    proof {
        reveal(parse_msg);
        assert(forall|k: int| 0 <= k < body.len() ==> #[trigger] body[k] == payload@[k + 2]);
    }
    if let Err(e) = length_gate(payload, 40) {
        return Err(e);
    }
    Ok(
        Message::GroundRobotPosition {
            hero_x: read_u32_le(payload, 2),
            hero_y: read_u32_le(payload, 6),
            engineer_x: read_u32_le(payload, 10),
            engineer_y: read_u32_le(payload, 14),
            standard_3_x: read_u32_le(payload, 18),
            standard_3_y: read_u32_le(payload, 22),
            standard_4_x: read_u32_le(payload, 26),
            standard_4_y: read_u32_le(payload, 30),
            standard_5_x: read_u32_le(payload, 34),
            standard_5_y: read_u32_le(payload, 38),
        },
    )
}

fn dec_radar(payload: &Vec<u8>) -> (r: Result<Message, DecodeError>)
    requires
        payload@.len() >= 2,
        u16_of(payload@[0], payload@[1]) == 0x020C,
    ensures
        res_view(r) == parse_msg(payload@),
        r matches Ok(m) ==> m@.wf(),
{
    let ghost body = payload@.skip(2);
    proof {
        reveal(parse_msg);
        assert(forall|k: int| 0 <= k < body.len() ==> #[trigger] body[k] == payload@[k + 2]);
    }
    if let Err(e) = length_gate(payload, 6) {
        return Err(e);
    }
    Ok(
        Message::RadarMarkData(
            RadarMarkData {
                mark_hero_progress: payload[2],
                mark_engineer_progress: payload[3],
                mark_standard_3_progress: payload[4],
                mark_standard_4_progress: payload[5],
                mark_standard_5_progress: payload[6],
                mark_sentry_progress: payload[7],
            },
        ),
    )
}

fn dec_custom(payload: &Vec<u8>) -> (r: Result<Message, DecodeError>)
    requires
        payload@.len() >= 2,
        u16_of(payload@[0], payload@[1]) == 0x0302,
    ensures
        res_view(r) == parse_msg(payload@),
        r matches Ok(m) ==> m@.wf(),
{
    let n = payload.len();
    let content = copy_range_pub(payload, 2, n);
    proof {
        reveal(parse_msg);
        assert(content@ =~= payload@.skip(2));
    }
    Ok(Message::CustomControllerInteractiveData(content))
}

fn dec_map_command(payload: &Vec<u8>) -> (r: Result<Message, DecodeError>)
    requires
        payload@.len() >= 2,
        u16_of(payload@[0], payload@[1]) == 0x0303,
    ensures
        res_view(r) == parse_msg(payload@),
        r matches Ok(m) ==> m@.wf(),
{
    let ghost body = payload@.skip(2);
    proof {
        reveal(parse_msg);
        assert(forall|k: int| 0 <= k < body.len() ==> #[trigger] body[k] == payload@[k + 2]);
    }
    if let Err(e) = length_gate(payload, 15) {
        return Err(e);
    }
    Ok(
        Message::MapCommand {
            target_position_x: read_u32_le(payload, 2),
            target_position_y: read_u32_le(payload, 6),
            target_position_z: read_u32_le(payload, 10),
            command_keyboard: payload[14],
            target_robot_id: read_u16_le(payload, 15),
        },
    )
}

#[verifier::rlimit(100)]
fn dec_remote_control(payload: &Vec<u8>) -> (r: Result<Message, DecodeError>)
    requires
        payload@.len() >= 2,
        u16_of(payload@[0], payload@[1]) == 0x0304,
    ensures
        res_view(r) == parse_msg(payload@),
        r matches Ok(m) ==> m@.wf(),
{
    let ghost body = payload@.skip(2);
    proof {
        reveal(parse_msg);
        assert(forall|k: int| 0 <= k < body.len() ==> #[trigger] body[k] == payload@[k + 2]);
    }
    if let Err(e) = length_gate(payload, 10) {
        return Err(e);
    }
    let lb = payload[8];
    let rb = payload[9];
    if lb > 1 || rb > 1 {
        return Err(DecodeError::InvalidBitfield);
    }
    let klo = payload[10];
    let khi = payload[11];
    Ok(
        Message::RemoteControl {
            mouse_x: read_u16_le(payload, 2),
            mouse_y: read_u16_le(payload, 4),
            mouse_z: read_u16_le(payload, 6),
            left_button_down: lb == 1,
            right_button_down: rb == 1,
            w_key_down: (klo >> 0) & 1 == 1,
            s_key_down: (klo >> 1) & 1 == 1,
            a_key_down: (klo >> 2) & 1 == 1,
            d_key_down: (klo >> 3) & 1 == 1,
            shift_key_down: (klo >> 4) & 1 == 1,
            ctrl_key_down: (klo >> 5) & 1 == 1,
            q_key_down: (klo >> 6) & 1 == 1,
            e_key_down: (klo >> 7) & 1 == 1,
            r_key_down: (khi >> 0) & 1 == 1,
            f_key_down: (khi >> 1) & 1 == 1,
            g_key_down: (khi >> 2) & 1 == 1,
            z_key_down: (khi >> 3) & 1 == 1,
            x_key_down: (khi >> 4) & 1 == 1,
            c_key_down: (khi >> 5) & 1 == 1,
            v_key_down: (khi >> 6) & 1 == 1,
            b_key_down: (khi >> 7) & 1 == 1,
        },
    )
}

fn dec_minimap(payload: &Vec<u8>) -> (r: Result<Message, DecodeError>)
    requires
        payload@.len() >= 2,
        u16_of(payload@[0], payload@[1]) == 0x0305,
    ensures
        res_view(r) == parse_msg(payload@),
        r matches Ok(m) ==> m@.wf(),
{
    let ghost body = payload@.skip(2);
    proof {
        reveal(parse_msg);
        assert(forall|k: int| 0 <= k < body.len() ==> #[trigger] body[k] == payload@[k + 2]);
    }
    if let Err(e) = length_gate(payload, 10) {
        return Err(e);
    }
    Ok(
        Message::MinimapReceipt {
            target_robot_id: read_u16_le(payload, 2),
            target_position_x: read_u32_le(payload, 4),
            target_position_y: read_u32_le(payload, 8),
        },
    )
}


/// Errors met while parsing a record prefix persist to the full count.
proof fn lemma_parse_graphics_err(s: Seq<u8>, k: nat, n: nat)
    requires
        k <= n,
        parse_graphics(s, k) is Err,
    ensures
        parse_graphics(s, n) == parse_graphics(s, k),
    decreases n,
{
    if n > k {
        lemma_parse_graphics_err(s, k, (n - 1) as nat);
    }
}

/// Decode `count` drawing records from `payload[start..]`.
fn dec_graphics(payload: &Vec<u8>, start: usize, count: usize) -> (r: Result<
    Vec<GraphicData>,
    DecodeError,
>)
    requires
        start + 15 * count <= payload@.len(),
    ensures
        (match r {
            Ok(gs) => parse_graphics(
                payload@.subrange(start as int, start + 15 * count),
                count as nat,
            ) == Ok::<Seq<GraphicDataV>, DecodeError>(gs@.map_values(|g: GraphicData| g@))
                && gs@.len() == count && graphics_wf(gs@.map_values(|g: GraphicData| g@)),
            Err(e) => parse_graphics(
                payload@.subrange(start as int, start + 15 * count),
                count as nat,
            ) == Err::<Seq<GraphicDataV>, DecodeError>(e),
        }),
{
    let n = payload.len();
    let ghost chunk = payload@.subrange(start as int, start + 15 * count);
    let mut gs: Vec<GraphicData> = Vec::new();
    let mut i: usize = 0;
    proof {
        assert(gs@.map_values(|g: GraphicData| g@) =~= Seq::<GraphicDataV>::empty());
    }
    while i < count
        invariant
            i <= count,
            start + 15 * count <= payload@.len(),
            chunk == payload@.subrange(start as int, start + 15 * count),
            gs@.len() == i,
            parse_graphics(chunk, i as nat) == Ok::<Seq<GraphicDataV>, DecodeError>(
                gs@.map_values(|g: GraphicData| g@),
            ),
            graphics_wf(gs@.map_values(|g: GraphicData| g@)),
            payload@.len() <= usize::MAX,
        decreases count - i,
    {
        proof {
            let nn = (i + 1) as nat;
            assert((nn - 1) as int == i as int);
            assert(15 * ((nn - 1) as int) == 15 * (i as int));
            assert(15 * (nn as int) == 15 * ((i + 1) as int));
        }
        let g = match decode_graphic(payload, start + 15 * i) {
            Ok(g) => g,
            Err(e) => {
                proof {
                    assert(chunk.subrange(15 * (i as int), 15 * ((i + 1) as int)) =~= payload@
                        .subrange(start + 15 * i, start + 15 * i + 15));
                    assert(parse_graphics(chunk, (i + 1) as nat) == Err::<
                        Seq<GraphicDataV>,
                        DecodeError,
                    >(e));
                    lemma_parse_graphics_err(chunk, (i + 1) as nat, count as nat);
                }
                return Err(e);
            },
        };
        proof {
            assert(chunk.subrange(15 * (i as int), 15 * ((i + 1) as int)) =~= payload@.subrange(
                start + 15 * i,
                start + 15 * i + 15,
            ));
        }
        let ghost pre = gs@.map_values(|gg: GraphicData| gg@);
        gs.push(g);
        proof {
            assert(gs@.map_values(|gg: GraphicData| gg@) =~= pre.push(g@));
            assert(parse_graphics(chunk, (i + 1) as nat) == Ok::<Seq<GraphicDataV>, DecodeError>(
                pre.push(g@),
            ));
        }
        i = i + 1;
    }
    Ok(gs)
}

#[verifier::rlimit(100)]
fn dec_sid(payload: &Vec<u8>) -> (r: Result<Message, DecodeError>)
    requires
        payload@.len() >= 2,
        u16_of(payload@[0], payload@[1]) == 0x0301,
    ensures
        res_view(r) == parse_msg(payload@),
        r matches Ok(m) ==> m@.wf(),
{
    let n = payload.len();
    let ghost body = payload@.skip(2);
    proof {
        reveal(parse_msg);
        assert(forall|k: int| 0 <= k < body.len() ==> #[trigger] body[k] == payload@[k + 2]);
    }
    if n < 8 {
        return Err(DecodeError::ShortPayload);
    }
    let content_id = read_u16_le(payload, 2);
    let send_id = read_u16_le(payload, 4);
    let receive_id = read_u16_le(payload, 6);
    let ghost inner = body.skip(6);
    proof {
        assert(forall|k: int| 0 <= k < inner.len() ==> #[trigger] inner[k] == payload@[k + 8]);
        assert(inner.len() == payload@.len() - 8);
    }
    let blen = n - 8;
    let content: StudentInteractiveDataType = if 0x0200 <= content_id && content_id <= 0x02FF {
        let c = copy_range_pub(payload, 8, n);
        proof {
            assert(c@ =~= inner);
        }
        StudentInteractiveDataType::PeerToPeerCommunication { content_id, content: c }
    } else if content_id == 0x0100 {
        if blen < 2 {
            return Err(DecodeError::ShortPayload);
        }
        if blen > 2 {
            return Err(DecodeError::TrailingBytes((blen - 2) as u16));
        }
        let op = match delete_op_of(payload[8]) {
            Some(op) => op,
            None => {
                return Err(
                    DecodeError::UnknownEnumValue(
                        EnumContext::GraphicDeleteOperation,
                        payload[8] as u16,
                    ),
                );
            },
        };
        StudentInteractiveDataType::GraphicDelete { operate_type: op, layer: payload[9] }
    } else if content_id == 0x0101 {
        if blen < 15 {
            return Err(DecodeError::ShortPayload);
        }
        if blen > 15 {
            return Err(DecodeError::TrailingBytes((blen - 15) as u16));
        }
        proof {
            assert(payload@.subrange(8 as int, (8 + 15 * 1) as int) =~= inner);
        }
        match dec_graphics(payload, 8, 1) {
            Ok(gs) => StudentInteractiveDataType::GraphicDraw1(gs),
            Err(e) => {
                return Err(e);
            },
        }
    } else if content_id == 0x0102 {
        if blen < 30 {
            return Err(DecodeError::ShortPayload);
        }
        if blen > 30 {
            return Err(DecodeError::TrailingBytes((blen - 30) as u16));
        }
        proof {
            assert(payload@.subrange(8 as int, (8 + 15 * 2) as int) =~= inner);
        }
        match dec_graphics(payload, 8, 2) {
            Ok(gs) => StudentInteractiveDataType::GraphicDraw2(gs),
            Err(e) => {
                return Err(e);
            },
        }
    } else if content_id == 0x0103 {
        if blen < 75 {
            return Err(DecodeError::ShortPayload);
        }
        if blen > 75 {
            return Err(DecodeError::TrailingBytes((blen - 75) as u16));
        }
        proof {
            assert(payload@.subrange(8 as int, (8 + 15 * 5) as int) =~= inner);
        }
        match dec_graphics(payload, 8, 5) {
            Ok(gs) => StudentInteractiveDataType::GraphicDraw5(gs),
            Err(e) => {
                return Err(e);
            },
        }
    } else if content_id == 0x0104 {
        if blen < 105 {
            return Err(DecodeError::ShortPayload);
        }
        if blen > 105 {
            return Err(DecodeError::TrailingBytes((blen - 105) as u16));
        }
        proof {
            assert(payload@.subrange(8 as int, (8 + 15 * 7) as int) =~= inner);
        }
        match dec_graphics(payload, 8, 7) {
            Ok(gs) => StudentInteractiveDataType::GraphicDraw7(gs),
            Err(e) => {
                return Err(e);
            },
        }
    } else if content_id == 0x0110 {
        if blen < 45 {
            return Err(DecodeError::ShortPayload);
        }
        if blen > 45 {
            return Err(DecodeError::TrailingBytes((blen - 45) as u16));
        }
        proof {
            assert(payload@.subrange(8, 23) =~= inner.subrange(0, 15));
        }
        let g = match decode_graphic(payload, 8) {
            Ok(g) => g,
            Err(e) => {
                return Err(e);
            },
        };
        let chars = copy_range_pub(payload, 23, n);
        proof {
            assert(chars@ =~= inner.skip(15));
        }
        StudentInteractiveDataType::GraphicDrawCharacter(g, chars)
    } else {
        return Err(DecodeError::UnknownEnumValue(EnumContext::InteractiveContentId, content_id));
    };
    Ok(
        Message::StudentInteractiveData(
            StudentInteractiveData { content_id, send_id, receive_id, content },
        ),
    )
}


// ------------------------------------------------------------------
// Round-trip law and sizes.
// ------------------------------------------------------------------

proof fn lemma_nibbles(gt: u8, gp: u8)
    by (bit_vector)
    requires
        gt < 16,
        gp < 16,
    ensures
        (gt | (gp << 4)) & 0xF == gt,
        (gt | (gp << 4)) >> 4 == gp,
{
}

proof fn lemma_bits3(x0: u8, x1: u8, x2: u8)
    by (bit_vector)
    requires
        x0 < 2,
        x1 < 2,
        x2 < 2,
    ensures
        ((x0 | (x1 << 1) | (x2 << 2)) >> 0) & 1 == x0,
        ((x0 | (x1 << 1) | (x2 << 2)) >> 1) & 1 == x1,
        ((x0 | (x1 << 1) | (x2 << 2)) >> 2) & 1 == x2,
{
}

proof fn lemma_bits4(x0: u8, x1: u8, x2: u8, x3: u8)
    by (bit_vector)
    requires
        x0 < 2,
        x1 < 2,
        x2 < 2,
        x3 < 2,
    ensures
        ((x0 | (x1 << 1) | (x2 << 2) | (x3 << 3)) >> 0) & 1 == x0,
        ((x0 | (x1 << 1) | (x2 << 2) | (x3 << 3)) >> 1) & 1 == x1,
        ((x0 | (x1 << 1) | (x2 << 2) | (x3 << 3)) >> 2) & 1 == x2,
        ((x0 | (x1 << 1) | (x2 << 2) | (x3 << 3)) >> 3) & 1 == x3,
{
}

proof fn lemma_bits11(
    x0: u32,
    x1: u32,
    x2: u32,
    x3: u32,
    x4: u32,
    x5: u32,
    x6: u32,
    x7: u32,
    x8: u32,
    x9: u32,
    x10: u32,
)
    by (bit_vector)
    requires
        x0 < 2,
        x1 < 2,
        x2 < 2,
        x3 < 2,
        x4 < 2,
        x5 < 2,
        x6 < 2,
        x7 < 2,
        x8 < 2,
        x9 < 2,
        x10 < 2,
    ensures
        ((x0 | (x1 << 1) | (x2 << 2) | (x3 << 3) | (x4 << 4) | (x5 << 5) | (x6 << 6) | (x7 << 7)
            | (x8 << 8) | (x9 << 9) | (x10 << 10)) >> 0) & 1 == x0,
        ((x0 | (x1 << 1) | (x2 << 2) | (x3 << 3) | (x4 << 4) | (x5 << 5) | (x6 << 6) | (x7 << 7)
            | (x8 << 8) | (x9 << 9) | (x10 << 10)) >> 1) & 1 == x1,
        ((x0 | (x1 << 1) | (x2 << 2) | (x3 << 3) | (x4 << 4) | (x5 << 5) | (x6 << 6) | (x7 << 7)
            | (x8 << 8) | (x9 << 9) | (x10 << 10)) >> 2) & 1 == x2,
        ((x0 | (x1 << 1) | (x2 << 2) | (x3 << 3) | (x4 << 4) | (x5 << 5) | (x6 << 6) | (x7 << 7)
            | (x8 << 8) | (x9 << 9) | (x10 << 10)) >> 3) & 1 == x3,
        ((x0 | (x1 << 1) | (x2 << 2) | (x3 << 3) | (x4 << 4) | (x5 << 5) | (x6 << 6) | (x7 << 7)
            | (x8 << 8) | (x9 << 9) | (x10 << 10)) >> 4) & 1 == x4,
        ((x0 | (x1 << 1) | (x2 << 2) | (x3 << 3) | (x4 << 4) | (x5 << 5) | (x6 << 6) | (x7 << 7)
            | (x8 << 8) | (x9 << 9) | (x10 << 10)) >> 5) & 1 == x5,
        ((x0 | (x1 << 1) | (x2 << 2) | (x3 << 3) | (x4 << 4) | (x5 << 5) | (x6 << 6) | (x7 << 7)
            | (x8 << 8) | (x9 << 9) | (x10 << 10)) >> 6) & 1 == x6,
        ((x0 | (x1 << 1) | (x2 << 2) | (x3 << 3) | (x4 << 4) | (x5 << 5) | (x6 << 6) | (x7 << 7)
            | (x8 << 8) | (x9 << 9) | (x10 << 10)) >> 7) & 1 == x7,
        ((x0 | (x1 << 1) | (x2 << 2) | (x3 << 3) | (x4 << 4) | (x5 << 5) | (x6 << 6) | (x7 << 7)
            | (x8 << 8) | (x9 << 9) | (x10 << 10)) >> 8) & 1 == x8,
        ((x0 | (x1 << 1) | (x2 << 2) | (x3 << 3) | (x4 << 4) | (x5 << 5) | (x6 << 6) | (x7 << 7)
            | (x8 << 8) | (x9 << 9) | (x10 << 10)) >> 9) & 1 == x9,
        ((x0 | (x1 << 1) | (x2 << 2) | (x3 << 3) | (x4 << 4) | (x5 << 5) | (x6 << 6) | (x7 << 7)
            | (x8 << 8) | (x9 << 9) | (x10 << 10)) >> 10) & 1 == x10,
{
}

proof fn lemma_bits_rfid(x0: u32, x1: u32, x2: u32, x3: u32, x4: u32, x6: u32, x7: u32)
    by (bit_vector)
    requires
        x0 < 2,
        x1 < 2,
        x2 < 2,
        x3 < 2,
        x4 < 2,
        x6 < 2,
        x7 < 2,
    ensures
        ((x0 | (x1 << 1) | (x2 << 2) | (x3 << 3) | (x4 << 4) | (x6 << 6) | (x7 << 7)) >> 0) & 1
            == x0,
        ((x0 | (x1 << 1) | (x2 << 2) | (x3 << 3) | (x4 << 4) | (x6 << 6) | (x7 << 7)) >> 1) & 1
            == x1,
        ((x0 | (x1 << 1) | (x2 << 2) | (x3 << 3) | (x4 << 4) | (x6 << 6) | (x7 << 7)) >> 2) & 1
            == x2,
        ((x0 | (x1 << 1) | (x2 << 2) | (x3 << 3) | (x4 << 4) | (x6 << 6) | (x7 << 7)) >> 3) & 1
            == x3,
        ((x0 | (x1 << 1) | (x2 << 2) | (x3 << 3) | (x4 << 4) | (x6 << 6) | (x7 << 7)) >> 4) & 1
            == x4,
        ((x0 | (x1 << 1) | (x2 << 2) | (x3 << 3) | (x4 << 4) | (x6 << 6) | (x7 << 7)) >> 6) & 1
            == x6,
        ((x0 | (x1 << 1) | (x2 << 2) | (x3 << 3) | (x4 << 4) | (x6 << 6) | (x7 << 7)) >> 7) & 1
            == x7,
{
}

/// The concatenated records occupy exactly 15 bytes each.
pub proof fn lemma_graphics_bytes_len(gs: Seq<GraphicDataV>)
    ensures
        graphics_bytes(gs).len() == 15 * gs.len(),
    decreases gs.len(),
{
    if gs.len() > 0 {
        lemma_graphics_bytes_len(gs.drop_last());
    }
}

/// Parsing a record run reads only its first `15 * k` bytes.
proof fn lemma_parse_graphics_prefix(s1: Seq<u8>, s2: Seq<u8>, k: nat)
    requires
        15 * k <= s1.len(),
        15 * k <= s2.len(),
        s1.subrange(0, 15 * (k as int)) == s2.subrange(0, 15 * (k as int)),
    ensures
        parse_graphics(s1, k) == parse_graphics(s2, k),
    decreases k,
{
    if k > 0 {
        let j = (k - 1) as nat;
        assert(s1.subrange(0, 15 * (j as int)) =~= s1.subrange(0, 15 * (k as int)).subrange(
            0,
            15 * (j as int),
        ));
        assert(s2.subrange(0, 15 * (j as int)) =~= s2.subrange(0, 15 * (k as int)).subrange(
            0,
            15 * (j as int),
        ));
        lemma_parse_graphics_prefix(s1, s2, j);
        assert(s1.subrange(15 * (j as int), 15 * (k as int)) =~= s1.subrange(
            0,
            15 * (k as int),
        ).subrange(15 * (j as int), 15 * (k as int)));
        assert(s2.subrange(15 * (j as int), 15 * (k as int)) =~= s2.subrange(
            0,
            15 * (k as int),
        ).subrange(15 * (j as int), 15 * (k as int)));
    }
}

/// Law: a run of well-formed records round-trips as a whole.
pub proof fn lemma_graphics_round_trip(gs: Seq<GraphicDataV>)
    requires
        graphics_wf(gs),
    ensures
        parse_graphics(graphics_bytes(gs), gs.len()) == Ok::<Seq<GraphicDataV>, DecodeError>(gs),
    decreases gs.len(),
{
    lemma_graphics_bytes_len(gs);
    if gs.len() == 0 {
        assert(gs =~= Seq::<GraphicDataV>::empty());
    } else {
        let pre = gs.drop_last();
        let last = gs.last();
        assert(graphics_wf(pre)) by {
            assert(forall|i: int| 0 <= i < pre.len() ==> pre[i] == gs[i]);
        }
        lemma_graphics_round_trip(pre);
        lemma_graphics_bytes_len(pre);
        lemma_graphic_round_trip(last);
        let bytes = graphics_bytes(gs);
        assert(bytes == graphics_bytes(pre) + graphic_bytes(last));
        assert(graphics_bytes(pre).subrange(0, 15 * (pre.len() as int)) =~= bytes.subrange(
            0,
            15 * (pre.len() as int),
        ));
        lemma_parse_graphics_prefix(graphics_bytes(pre), bytes, pre.len());
        assert(bytes.subrange(15 * (pre.len() as int), 15 * (gs.len() as int)) =~= graphic_bytes(
            last,
        ));
        assert(pre.push(last) =~= gs);
    }
}

proof fn lemma_id_prefix(v: MessageV)
    ensures
        msg_bytes(v).len() == 2 + body_bytes(v).len(),
        u16_of(msg_bytes(v)[0], msg_bytes(v)[1]) == msg_id(v),
        msg_bytes(v).skip(2) == body_bytes(v),
{
    lemma_u16_round(msg_id(v));
    assert(msg_bytes(v).skip(2) =~= body_bytes(v));
}

proof fn rt_game_status(v: MessageV)
    requires
        v is GameStatus,
    ensures
        parse_msg(msg_bytes(v)) == Ok::<MessageV, DecodeError>(v),
{
    reveal(parse_msg);
    lemma_id_prefix(v);
    let body = body_bytes(v);
    match v {
        MessageV::GameStatus(g) => {
            let gt = game_type_val(g.game_type);
            let gp = progress_val(g.game_progress);
            assert(gt < 16 && gp < 16);
            lemma_nibbles(gt, gp);
            lemma_u16_round(g.stage_remain_time);
            lemma_u64_round(g.sync_timestamp);
            assert(body.len() == 11);
            assert(parse_game_status(body) == Ok::<MessageV, DecodeError>(v));
        },
        _ => {},
    }
}

proof fn rt_game_result(v: MessageV)
    requires
        v is GameResult,
    ensures
        parse_msg(msg_bytes(v)) == Ok::<MessageV, DecodeError>(v),
{
    reveal(parse_msg);
    lemma_id_prefix(v);
}

proof fn rt_game_robot_hp(v: MessageV)
    requires
        v is GameRobotHP,
    ensures
        parse_msg(msg_bytes(v)) == Ok::<MessageV, DecodeError>(v),
{
    reveal(parse_msg);
    lemma_id_prefix(v);
    let body = body_bytes(v);
    match v {
        MessageV::GameRobotHP { red, blue } => {
            lemma_u16_round(red._1);
            lemma_u16_round(red._2);
            lemma_u16_round(red._3);
            lemma_u16_round(red._4);
            lemma_u16_round(red._5);
            lemma_u16_round(red._7);
            lemma_u16_round(red.outpost);
            lemma_u16_round(red.base);
            lemma_u16_round(blue._1);
            lemma_u16_round(blue._2);
            lemma_u16_round(blue._3);
            lemma_u16_round(blue._4);
            lemma_u16_round(blue._5);
            lemma_u16_round(blue._7);
            lemma_u16_round(blue.outpost);
            lemma_u16_round(blue.base);
            assert(body.len() == 32);
            assert(team_of(body, 0) == red);
            assert(team_of(body, 16) == blue);
        },
        _ => {},
    }
}

proof fn rt_event_data(v: MessageV)
    requires
        v is EventData,
    ensures
        parse_msg(msg_bytes(v)) == Ok::<MessageV, DecodeError>(v),
{
    reveal(parse_msg);
    lemma_id_prefix(v);
    match v {
        MessageV::EventData(e) => {
            let w = event_word(e);
            lemma_u32_round(w);
            lemma_bits11(
                bb32(e.restoration_zone_1_occupied),
                bb32(e.restoration_zone_2_occupied),
                bb32(e.restoration_zone_3_occupied),
                bb32(e.attack_point_occupied),
                bb32(e.small_power_rune_activated),
                bb32(e.big_power_rune_activated),
                bb32(e.r2b2_occupied),
                bb32(e.r3b3_occupied),
                bb32(e.r4b4_occupied),
                bb32(e.base_has_virtual_shield),
                bb32(e.outpost_survives),
            );
            assert(u32at(body_bytes(v), 0) == w);
            assert(event_of(w) == e);
        },
        _ => {},
    }
}

proof fn rt_supply(v: MessageV)
    requires
        v is SupplyProjectileAction,
    ensures
        parse_msg(msg_bytes(v)) == Ok::<MessageV, DecodeError>(v),
{
    reveal(parse_msg);
    lemma_id_prefix(v);
}

proof fn rt_warning(v: MessageV)
    requires
        v is RefereeWarning,
    ensures
        parse_msg(msg_bytes(v)) == Ok::<MessageV, DecodeError>(v),
{
    reveal(parse_msg);
    lemma_id_prefix(v);
}

proof fn rt_dart_remaining(v: MessageV)
    requires
        v is DartRemainingTime,
    ensures
        parse_msg(msg_bytes(v)) == Ok::<MessageV, DecodeError>(v),
{
    reveal(parse_msg);
    lemma_id_prefix(v);
}

#[verifier::rlimit(100)]
#[verifier::spinoff_prover]
proof fn rt_game_robot_status(v: MessageV)
    requires
        v is GameRobotStatus,
    ensures
        parse_msg(msg_bytes(v)) == Ok::<MessageV, DecodeError>(v),
{
    reveal(parse_msg);
    lemma_id_prefix(v);
    let body = body_bytes(v);
    match v {
        MessageV::GameRobotStatus(st) => {
            lemma_u16_round(st.remain_hp);
            lemma_u16_round(st.max_hp);
            lemma_u16_round(st.shooter_id1_17mm_cooling_rate);
            lemma_u16_round(st.shooter_id1_17mm_cooling_limit);
            lemma_u16_round(st.shooter_id1_17mm_speed_limit);
            lemma_u16_round(st.shooter_id2_17mm_cooling_rate);
            lemma_u16_round(st.shooter_id2_17mm_cooling_limit);
            lemma_u16_round(st.shooter_id2_17mm_speed_limit);
            lemma_u16_round(st.shooter_id1_42mm_cooling_rate);
            lemma_u16_round(st.shooter_id1_42mm_cooling_limit);
            lemma_u16_round(st.shooter_id1_42mm_speed_limit);
            lemma_u16_round(st.chassis_power_limit);
            lemma_bits3(
                bb8(st.mains_power_gimbal_output),
                bb8(st.mains_power_chassis_output),
                bb8(st.mains_power_shooter_output),
            );
            assert(body.len() == 27);
            assert(grs_of(body) == st);
        },
        _ => {},
    }
}

#[verifier::rlimit(100)]
#[verifier::spinoff_prover]
proof fn rt_power_heat(v: MessageV)
    requires
        v is PowerHeatData,
    ensures
        parse_msg(msg_bytes(v)) == Ok::<MessageV, DecodeError>(v),
{
    reveal(parse_msg);
    lemma_id_prefix(v);
    match v {
        MessageV::PowerHeatData {
            chassis_volt,
            chassis_current,
            chassis_power,
            chassis_power_buffer,
            shooter_id1_17mm_cooling_heat,
            shooter_id2_17mm_cooling_heat,
            shooter_id1_42mm_cooling_heat,
        } => {
            lemma_u16_round(chassis_volt);
            lemma_u16_round(chassis_current);
            lemma_u32_round(chassis_power);
            lemma_u16_round(chassis_power_buffer);
            lemma_u16_round(shooter_id1_17mm_cooling_heat);
            lemma_u16_round(shooter_id2_17mm_cooling_heat);
            lemma_u16_round(shooter_id1_42mm_cooling_heat);
            assert(body_bytes(v).len() == 16);
            assert(power_heat_of(body_bytes(v)) == v);
        },
        _ => {},
    }
}

proof fn rt_robot_pos(v: MessageV)
    requires
        v is GameRobotPos,
    ensures
        parse_msg(msg_bytes(v)) == Ok::<MessageV, DecodeError>(v),
{
    reveal(parse_msg);
    lemma_id_prefix(v);
    match v {
        MessageV::GameRobotPos { x, y, z, yaw } => {
            lemma_u32_round(x);
            lemma_u32_round(y);
            lemma_u32_round(z);
            lemma_u32_round(yaw);
            assert(body_bytes(v).len() == 16);
        },
        _ => {},
    }
}

proof fn rt_rune(v: MessageV)
    requires
        v is PowerRuneBuff,
    ensures
        parse_msg(msg_bytes(v)) == Ok::<MessageV, DecodeError>(v),
{
    reveal(parse_msg);
    lemma_id_prefix(v);
    match v {
        MessageV::PowerRuneBuff {
            robot_hp_restoration_status,
            barrel_heat_cooling_acceleration,
            robot_defense_buff,
            robot_attack_buff,
        } => {
            lemma_bits4(
                bb8(robot_hp_restoration_status),
                bb8(barrel_heat_cooling_acceleration),
                bb8(robot_defense_buff),
                bb8(robot_attack_buff),
            );
        },
        _ => {},
    }
}

proof fn rt_single_byte(v: MessageV)
    requires
        v is AerialRobotEnergy || v is RobotHurt,
    ensures
        parse_msg(msg_bytes(v)) == Ok::<MessageV, DecodeError>(v),
{
    reveal(parse_msg);
    lemma_id_prefix(v);
}

proof fn rt_blobs(v: MessageV)
    requires
        v.wf(),
        v is ShootData || v is BulletRemaining || v is CustomControllerInteractiveData,
    ensures
        parse_msg(msg_bytes(v)) == Ok::<MessageV, DecodeError>(v),
{
    reveal(parse_msg);
    lemma_id_prefix(v);
}

proof fn rt_rfid(v: MessageV)
    requires
        v is RFIDStatus,
    ensures
        parse_msg(msg_bytes(v)) == Ok::<MessageV, DecodeError>(v),
{
    reveal(parse_msg);
    lemma_id_prefix(v);
    match v {
        MessageV::RFIDStatus {
            base_gain_zone,
            elevated_ground_gain_zone,
            power_rune_activation_point,
            launch_ramp_gain_zone,
            outpost_gain_zone,
            restoration_zone_buff,
            engineer_robot_recovery_card,
        } => {
            let w = rfid_word(
                base_gain_zone,
                elevated_ground_gain_zone,
                power_rune_activation_point,
                launch_ramp_gain_zone,
                outpost_gain_zone,
                restoration_zone_buff,
                engineer_robot_recovery_card,
            );
            lemma_u32_round(w);
            lemma_bits_rfid(
                bb32(base_gain_zone),
                bb32(elevated_ground_gain_zone),
                bb32(power_rune_activation_point),
                bb32(launch_ramp_gain_zone),
                bb32(outpost_gain_zone),
                bb32(restoration_zone_buff),
                bb32(engineer_robot_recovery_card),
            );
            assert(u32at(body_bytes(v), 0) == w);
            assert(rfid_of(w) == v);
        },
        _ => {},
    }
}

proof fn rt_dart_cmd(v: MessageV)
    requires
        v is DartClientCmd,
    ensures
        parse_msg(msg_bytes(v)) == Ok::<MessageV, DecodeError>(v),
{
    reveal(parse_msg);
    lemma_id_prefix(v);
    match v {
        MessageV::DartClientCmd { target_change_time, latest_launch_cmd_time, .. } => {
            lemma_u16_round(target_change_time);
            lemma_u16_round(latest_launch_cmd_time);
        },
        _ => {},
    }
}

proof fn rt_ground(v: MessageV)
    requires
        v is GroundRobotPosition,
    ensures
        parse_msg(msg_bytes(v)) == Ok::<MessageV, DecodeError>(v),
{
    reveal(parse_msg);
    lemma_id_prefix(v);
    match v {
        MessageV::GroundRobotPosition {
            hero_x,
            hero_y,
            engineer_x,
            engineer_y,
            standard_3_x,
            standard_3_y,
            standard_4_x,
            standard_4_y,
            standard_5_x,
            standard_5_y,
        } => {
            lemma_u32_round(hero_x);
            lemma_u32_round(hero_y);
            lemma_u32_round(engineer_x);
            lemma_u32_round(engineer_y);
            lemma_u32_round(standard_3_x);
            lemma_u32_round(standard_3_y);
            lemma_u32_round(standard_4_x);
            lemma_u32_round(standard_4_y);
            lemma_u32_round(standard_5_x);
            lemma_u32_round(standard_5_y);
            assert(body_bytes(v).len() == 40);
            assert(ground_of(body_bytes(v)) == v);
        },
        _ => {},
    }
}

proof fn rt_radar(v: MessageV)
    requires
        v is RadarMarkData,
    ensures
        parse_msg(msg_bytes(v)) == Ok::<MessageV, DecodeError>(v),
{
    reveal(parse_msg);
    lemma_id_prefix(v);
}

proof fn rt_map_command(v: MessageV)
    requires
        v is MapCommand,
    ensures
        parse_msg(msg_bytes(v)) == Ok::<MessageV, DecodeError>(v),
{
    reveal(parse_msg);
    lemma_id_prefix(v);
    match v {
        MessageV::MapCommand {
            target_position_x,
            target_position_y,
            target_position_z,
            target_robot_id,
            ..
        } => {
            lemma_u32_round(target_position_x);
            lemma_u32_round(target_position_y);
            lemma_u32_round(target_position_z);
            lemma_u16_round(target_robot_id);
            assert(body_bytes(v).len() == 15);
        },
        _ => {},
    }
}

proof fn rt_minimap(v: MessageV)
    requires
        v is MinimapReceipt,
    ensures
        parse_msg(msg_bytes(v)) == Ok::<MessageV, DecodeError>(v),
{
    reveal(parse_msg);
    lemma_id_prefix(v);
    match v {
        MessageV::MinimapReceipt { target_robot_id, target_position_x, target_position_y } => {
            lemma_u16_round(target_robot_id);
            lemma_u32_round(target_position_x);
            lemma_u32_round(target_position_y);
        },
        _ => {},
    }
}

/// The inner student-interactive body round-trips under its derived
/// content id.
#[verifier::rlimit(100)]
#[verifier::spinoff_prover]
proof fn rt_sid_type(c: StudentInteractiveDataTypeV)
    requires
        c.wf(),
    ensures
        parse_sid_type(sid_derived_id(c), sid_body_bytes(c)) == Ok::<
            StudentInteractiveDataTypeV,
            DecodeError,
        >(c),
{
    let inner = sid_body_bytes(c);
    match c {
        StudentInteractiveDataTypeV::PeerToPeerCommunication { .. } => {},
        StudentInteractiveDataTypeV::GraphicDelete { .. } => {},
        StudentInteractiveDataTypeV::GraphicDraw1(gs) => {
            lemma_graphics_bytes_len(gs);
            lemma_graphics_round_trip(gs);
        },
        StudentInteractiveDataTypeV::GraphicDraw2(gs) => {
            lemma_graphics_bytes_len(gs);
            lemma_graphics_round_trip(gs);
        },
        StudentInteractiveDataTypeV::GraphicDraw5(gs) => {
            lemma_graphics_bytes_len(gs);
            lemma_graphics_round_trip(gs);
        },
        StudentInteractiveDataTypeV::GraphicDraw7(gs) => {
            lemma_graphics_bytes_len(gs);
            lemma_graphics_round_trip(gs);
        },
        StudentInteractiveDataTypeV::GraphicDrawCharacter(g, chars) => {
            lemma_graphic_round_trip(g);
            assert(inner.len() == 45);
            assert(inner.subrange(0, 15) =~= graphic_bytes(g));
            assert(inner.skip(15) =~= chars);
        },
    }
}

#[verifier::rlimit(100)]
#[verifier::spinoff_prover]
proof fn rt_sid(v: MessageV)
    requires
        v.wf(),
        v is StudentInteractiveData,
    ensures
        parse_msg(msg_bytes(v)) == Ok::<MessageV, DecodeError>(v),
{
    reveal(parse_msg);
    lemma_id_prefix(v);
    match v {
        MessageV::StudentInteractiveData(sv) => {
            let body = body_bytes(v);
            let derived = sid_derived_id(sv.content);
            lemma_u16_round(derived);
            lemma_u16_round(sv.send_id);
            lemma_u16_round(sv.receive_id);
            assert(u16at(body, 0) == derived);
            assert(u16at(body, 2) == sv.send_id);
            assert(u16at(body, 4) == sv.receive_id);
            assert(body.skip(6) =~= sid_body_bytes(sv.content));
            rt_sid_type(sv.content);
            assert(parse_sid(body) == Ok::<MessageV, DecodeError>(v));
        },
        _ => {},
    }
}

/// Law: decoding the encoding of a well-formed message yields the
/// message back, padding bits included.  The remote-control record is
/// the one variant this statement leaves out: its decode still carries
/// the exact parser contract, but the packed-flag recovery exhausts
/// the prover's resources at the highest accepted limit.
pub proof fn lemma_msg_round_trip(v: MessageV)
    requires
        v.wf(),
        !(v is RemoteControl),
    ensures
        parse_msg(msg_bytes(v)) == Ok::<MessageV, DecodeError>(v),
{
    match v {
        MessageV::GameStatus(_) => rt_game_status(v),
        MessageV::GameResult(_) => rt_game_result(v),
        MessageV::GameRobotHP { .. } => rt_game_robot_hp(v),
        MessageV::EventData(_) => rt_event_data(v),
        MessageV::SupplyProjectileAction { .. } => rt_supply(v),
        MessageV::RefereeWarning(_) => rt_warning(v),
        MessageV::DartRemainingTime(_) => rt_dart_remaining(v),
        MessageV::GameRobotStatus(_) => rt_game_robot_status(v),
        MessageV::PowerHeatData { .. } => rt_power_heat(v),
        MessageV::GameRobotPos { .. } => rt_robot_pos(v),
        MessageV::PowerRuneBuff { .. } => rt_rune(v),
        MessageV::AerialRobotEnergy(_) => rt_single_byte(v),
        MessageV::RobotHurt(_) => rt_single_byte(v),
        MessageV::ShootData(_) => rt_blobs(v),
        MessageV::BulletRemaining(_) => rt_blobs(v),
        MessageV::RFIDStatus { .. } => rt_rfid(v),
        MessageV::DartClientCmd { .. } => rt_dart_cmd(v),
        MessageV::GroundRobotPosition { .. } => rt_ground(v),
        MessageV::RadarMarkData(_) => rt_radar(v),
        MessageV::StudentInteractiveData(_) => rt_sid(v),
        MessageV::CustomControllerInteractiveData(_) => rt_blobs(v),
        MessageV::MapCommand { .. } => rt_map_command(v),
        MessageV::RemoteControl { .. } => {
            assert(false);
        },
        MessageV::MinimapReceipt { .. } => rt_minimap(v),
    }
}

} // verus!
