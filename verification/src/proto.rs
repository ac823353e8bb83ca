//! The typed message tree: a discriminated union keyed by a u16
//! command id that is embedded in (not adjacent to) the payload.
//!
//! Fields that carry IEEE-754 values on the wire (positions, power
//! readings) are held as their raw little-endian 32-bit patterns; the
//! codec moves bits, never arithmetic, so the caller converts at the
//! edge.

use vstd::prelude::*;

use crate::graphic::GraphicData;
use crate::graphic::GraphicDataV;
use crate::graphic::GraphicDeleteOperation;

verus! {

#[derive(Debug, Clone, Copy, PartialEq, Eq, Structural)]
pub enum GameType {
    RMUC,
    RMUT,
    RMUA,
    RMUL3v3,
    RMUL1v1,
}

#[derive(Debug, Clone, Copy, PartialEq, Eq, Structural)]
pub enum GameProgress {
    PreCompetitionStage,
    SetupPeriod,
    InitializationStage,
    FiveSecondCountdown,
    InCombat,
    CalculatingCompetitionResults,
}

#[derive(Debug, Clone, Copy, PartialEq, Eq, Structural)]
pub enum Winner {
    Draw,
    Red,
    Blue,
}

/// Hit points of one team: robots 1, 2, 3, 4, 5 and 7, then the
/// outpost and the base.
#[derive(Debug, Clone, Copy, PartialEq, Eq, Structural)]
pub struct TeamHP {
    pub _1: u16,
    pub _2: u16,
    pub _3: u16,
    pub _4: u16,
    pub _5: u16,
    pub _7: u16,
    pub outpost: u16,
    pub base: u16,
}

#[derive(Debug, Clone, Copy, PartialEq, Eq, Structural)]
pub struct GameStatus {
    pub game_type: GameType,
    pub game_progress: GameProgress,
    pub stage_remain_time: u16,
    pub sync_timestamp: u64,
}

/// An 11-bit site-event bitmap, packed least-significant-bit first
/// into a 32-bit word with 21 trailing padding bits.
#[derive(Debug, Clone, Copy, PartialEq, Eq, Structural)]
pub struct EventData {
    pub restoration_zone_1_occupied: bool,
    pub restoration_zone_2_occupied: bool,
    pub restoration_zone_3_occupied: bool,
    pub attack_point_occupied: bool,
    pub small_power_rune_activated: bool,
    pub big_power_rune_activated: bool,
    pub r2b2_occupied: bool,
    pub r3b3_occupied: bool,
    pub r4b4_occupied: bool,
    pub base_has_virtual_shield: bool,
    pub outpost_survives: bool,
}

#[derive(Debug, Clone, Copy, PartialEq, Eq, Structural)]
pub enum ProjectileSupplier {
    _1,
    _2,
}

#[derive(Debug, Clone, Copy, PartialEq, Eq, Structural)]
pub enum ProjectileReloadingRobot {
    NoRobot,
    Red1Hero,
    Red2Engineer,
    Red3,
    Red4,
    Red5,
    Blue1Hero,
    Blue2Engineer,
    Blue3,
    Blue4,
    Blue5,
}

#[derive(Debug, Clone, Copy, PartialEq, Eq, Structural)]
pub enum ProjectileOutletStatus {
    Closed,
    Preparing,
    Dropping,
}

#[derive(Debug, Clone, Copy, PartialEq, Eq, Structural)]
pub enum SuppliedProjectileNumber {
    _50,
    _100,
    _150,
    _200,
}

/// Levels 1 (yellow) and 2 (red) carry the foul robot id; forfeiture
/// carries a padding byte, so the payload is 2 bytes in every case.
#[derive(Debug, Clone, Copy, PartialEq, Eq, Structural)]
pub enum RefereeWarning {
    YellowCard { foul_robot_id: u8 },
    RedCard { foul_robot_id: u8 },
    Forfeiture,
}

#[derive(Debug, Clone, Copy, PartialEq, Eq, Structural)]
pub struct GameRobotStatus {
    pub robot_id: u8,
    pub robot_level: u8,
    pub remain_hp: u16,
    pub max_hp: u16,
    pub shooter_id1_17mm_cooling_rate: u16,
    pub shooter_id1_17mm_cooling_limit: u16,
    pub shooter_id1_17mm_speed_limit: u16,
    pub shooter_id2_17mm_cooling_rate: u16,
    pub shooter_id2_17mm_cooling_limit: u16,
    pub shooter_id2_17mm_speed_limit: u16,
    pub shooter_id1_42mm_cooling_rate: u16,
    pub shooter_id1_42mm_cooling_limit: u16,
    pub shooter_id1_42mm_speed_limit: u16,
    pub chassis_power_limit: u16,
    pub mains_power_gimbal_output: bool,
    pub mains_power_chassis_output: bool,
    pub mains_power_shooter_output: bool,
}

#[derive(Debug, Clone, Copy, PartialEq, Eq, Structural)]
pub struct RadarMarkData {
    pub mark_hero_progress: u8,
    pub mark_engineer_progress: u8,
    pub mark_standard_3_progress: u8,
    pub mark_standard_4_progress: u8,
    pub mark_standard_5_progress: u8,
    pub mark_sentry_progress: u8,
}

/// Inner student-interactive body, selected by the outer content id.
/// Peer-to-peer content ids span 0x0200 through 0x02FF and carry an
/// opaque byte vector sized from the frame length.
#[derive(Debug, Clone, PartialEq)]
pub enum StudentInteractiveDataType {
    PeerToPeerCommunication { content_id: u16, content: Vec<u8> },
    GraphicDelete { operate_type: GraphicDeleteOperation, layer: u8 },
    GraphicDraw1(Vec<GraphicData>),
    GraphicDraw2(Vec<GraphicData>),
    GraphicDraw5(Vec<GraphicData>),
    GraphicDraw7(Vec<GraphicData>),
    GraphicDrawCharacter(GraphicData, Vec<u8>),
}

/// Outer student-interactive shell.  On the wire the content id is
/// derived from the inner variant at encode time; on decode the outer
/// id is authoritative and is stored here unchanged.
#[derive(Debug, Clone, PartialEq)]
pub struct StudentInteractiveData {
    pub content_id: u16,
    pub send_id: u16,
    pub receive_id: u16,
    pub content: StudentInteractiveDataType,
}

pub enum StudentInteractiveDataTypeV {
    PeerToPeerCommunication { content_id: u16, content: Seq<u8> },
    GraphicDelete { operate_type: GraphicDeleteOperation, layer: u8 },
    GraphicDraw1(Seq<GraphicDataV>),
    GraphicDraw2(Seq<GraphicDataV>),
    GraphicDraw5(Seq<GraphicDataV>),
    GraphicDraw7(Seq<GraphicDataV>),
    GraphicDrawCharacter(GraphicDataV, Seq<u8>),
}

pub struct StudentInteractiveDataV {
    pub content_id: u16,
    pub send_id: u16,
    pub receive_id: u16,
    pub content: StudentInteractiveDataTypeV,
}

impl View for StudentInteractiveDataType {
    type V = StudentInteractiveDataTypeV;

    open spec fn view(&self) -> StudentInteractiveDataTypeV {
        match self {
            StudentInteractiveDataType::PeerToPeerCommunication { content_id, content } =>
                StudentInteractiveDataTypeV::PeerToPeerCommunication {
                content_id: *content_id,
                content: content@,
            },
            StudentInteractiveDataType::GraphicDelete { operate_type, layer } =>
                StudentInteractiveDataTypeV::GraphicDelete {
                operate_type: *operate_type,
                layer: *layer,
            },
            StudentInteractiveDataType::GraphicDraw1(gs) => StudentInteractiveDataTypeV::GraphicDraw1(
                gs@.map_values(|g: GraphicData| g@),
            ),
            StudentInteractiveDataType::GraphicDraw2(gs) => StudentInteractiveDataTypeV::GraphicDraw2(
                gs@.map_values(|g: GraphicData| g@),
            ),
            StudentInteractiveDataType::GraphicDraw5(gs) => StudentInteractiveDataTypeV::GraphicDraw5(
                gs@.map_values(|g: GraphicData| g@),
            ),
            StudentInteractiveDataType::GraphicDraw7(gs) => StudentInteractiveDataTypeV::GraphicDraw7(
                gs@.map_values(|g: GraphicData| g@),
            ),
            StudentInteractiveDataType::GraphicDrawCharacter(g, chars) =>
                StudentInteractiveDataTypeV::GraphicDrawCharacter(g@, chars@),
        }
    }
}

impl View for StudentInteractiveData {
    type V = StudentInteractiveDataV;

    open spec fn view(&self) -> StudentInteractiveDataV {
        StudentInteractiveDataV {
            content_id: self.content_id,
            send_id: self.send_id,
            receive_id: self.receive_id,
            content: self.content@,
        }
    }
}

/// One typed payload, tagged by the leading u16 of the payload bytes.
/// `u32` fields named after positions or power carry raw f32 bits.
#[derive(Debug, Clone, PartialEq)]
pub enum Message {
    GameStatus(GameStatus),
    GameResult(Winner),
    GameRobotHP { red: TeamHP, blue: TeamHP },
    EventData(EventData),
    SupplyProjectileAction {
        supplier: ProjectileSupplier,
        robot: ProjectileReloadingRobot,
        outlet_status: ProjectileOutletStatus,
        supplied_number: SuppliedProjectileNumber,
    },
    RefereeWarning(RefereeWarning),
    DartRemainingTime(u8),
    GameRobotStatus(GameRobotStatus),
    PowerHeatData {
        chassis_volt: u16,
        chassis_current: u16,
        chassis_power: u32,
        chassis_power_buffer: u16,
        shooter_id1_17mm_cooling_heat: u16,
        shooter_id2_17mm_cooling_heat: u16,
        shooter_id1_42mm_cooling_heat: u16,
    },
    GameRobotPos { x: u32, y: u32, z: u32, yaw: u32 },
    PowerRuneBuff {
        robot_hp_restoration_status: bool,
        barrel_heat_cooling_acceleration: bool,
        robot_defense_buff: bool,
        robot_attack_buff: bool,
    },
    AerialRobotEnergy(u8),
    RobotHurt(u8),
    ShootData([u8; 7]),
    BulletRemaining([u8; 6]),
    RFIDStatus {
        base_gain_zone: bool,
        elevated_ground_gain_zone: bool,
        power_rune_activation_point: bool,
        launch_ramp_gain_zone: bool,
        outpost_gain_zone: bool,
        restoration_zone_buff: bool,
        engineer_robot_recovery_card: bool,
    },
    DartClientCmd {
        dart_launch_opening_status: u8,
        dart_attack_target: u8,
        target_change_time: u16,
        latest_launch_cmd_time: u16,
    },
    GroundRobotPosition {
        hero_x: u32,
        hero_y: u32,
        engineer_x: u32,
        engineer_y: u32,
        standard_3_x: u32,
        standard_3_y: u32,
        standard_4_x: u32,
        standard_4_y: u32,
        standard_5_x: u32,
        standard_5_y: u32,
    },
    RadarMarkData(RadarMarkData),
    StudentInteractiveData(StudentInteractiveData),
    CustomControllerInteractiveData(Vec<u8>),
    MapCommand {
        target_position_x: u32,
        target_position_y: u32,
        target_position_z: u32,
        command_keyboard: u8,
        target_robot_id: u16,
    },
    RemoteControl {
        mouse_x: u16,
        mouse_y: u16,
        mouse_z: u16,
        left_button_down: bool,
        right_button_down: bool,
        w_key_down: bool,
        s_key_down: bool,
        a_key_down: bool,
        d_key_down: bool,
        shift_key_down: bool,
        ctrl_key_down: bool,
        q_key_down: bool,
        e_key_down: bool,
        r_key_down: bool,
        f_key_down: bool,
        g_key_down: bool,
        z_key_down: bool,
        x_key_down: bool,
        c_key_down: bool,
        v_key_down: bool,
        b_key_down: bool,
    },
    MinimapReceipt { target_robot_id: u16, target_position_x: u32, target_position_y: u32 },
}

pub enum MessageV {
    GameStatus(GameStatus),
    GameResult(Winner),
    GameRobotHP { red: TeamHP, blue: TeamHP },
    EventData(EventData),
    SupplyProjectileAction {
        supplier: ProjectileSupplier,
        robot: ProjectileReloadingRobot,
        outlet_status: ProjectileOutletStatus,
        supplied_number: SuppliedProjectileNumber,
    },
    RefereeWarning(RefereeWarning),
    DartRemainingTime(u8),
    GameRobotStatus(GameRobotStatus),
    PowerHeatData {
        chassis_volt: u16,
        chassis_current: u16,
        chassis_power: u32,
        chassis_power_buffer: u16,
        shooter_id1_17mm_cooling_heat: u16,
        shooter_id2_17mm_cooling_heat: u16,
        shooter_id1_42mm_cooling_heat: u16,
    },
    GameRobotPos { x: u32, y: u32, z: u32, yaw: u32 },
    PowerRuneBuff {
        robot_hp_restoration_status: bool,
        barrel_heat_cooling_acceleration: bool,
        robot_defense_buff: bool,
        robot_attack_buff: bool,
    },
    AerialRobotEnergy(u8),
    RobotHurt(u8),
    ShootData(Seq<u8>),
    BulletRemaining(Seq<u8>),
    RFIDStatus {
        base_gain_zone: bool,
        elevated_ground_gain_zone: bool,
        power_rune_activation_point: bool,
        launch_ramp_gain_zone: bool,
        outpost_gain_zone: bool,
        restoration_zone_buff: bool,
        engineer_robot_recovery_card: bool,
    },
    DartClientCmd {
        dart_launch_opening_status: u8,
        dart_attack_target: u8,
        target_change_time: u16,
        latest_launch_cmd_time: u16,
    },
    GroundRobotPosition {
        hero_x: u32,
        hero_y: u32,
        engineer_x: u32,
        engineer_y: u32,
        standard_3_x: u32,
        standard_3_y: u32,
        standard_4_x: u32,
        standard_4_y: u32,
        standard_5_x: u32,
        standard_5_y: u32,
    },
    RadarMarkData(RadarMarkData),
    StudentInteractiveData(StudentInteractiveDataV),
    CustomControllerInteractiveData(Seq<u8>),
    MapCommand {
        target_position_x: u32,
        target_position_y: u32,
        target_position_z: u32,
        command_keyboard: u8,
        target_robot_id: u16,
    },
    RemoteControl {
        mouse_x: u16,
        mouse_y: u16,
        mouse_z: u16,
        left_button_down: bool,
        right_button_down: bool,
        w_key_down: bool,
        s_key_down: bool,
        a_key_down: bool,
        d_key_down: bool,
        shift_key_down: bool,
        ctrl_key_down: bool,
        q_key_down: bool,
        e_key_down: bool,
        r_key_down: bool,
        f_key_down: bool,
        g_key_down: bool,
        z_key_down: bool,
        x_key_down: bool,
        c_key_down: bool,
        v_key_down: bool,
        b_key_down: bool,
    },
    MinimapReceipt { target_robot_id: u16, target_position_x: u32, target_position_y: u32 },
}

impl View for Message {
    type V = MessageV;

    open spec fn view(&self) -> MessageV {
        match self {
            Message::GameStatus(g) => MessageV::GameStatus(*g),
            Message::GameResult(w) => MessageV::GameResult(*w),
            Message::GameRobotHP { red, blue } => MessageV::GameRobotHP { red: *red, blue: *blue },
            Message::EventData(e) => MessageV::EventData(*e),
            Message::SupplyProjectileAction { supplier, robot, outlet_status, supplied_number } =>
                MessageV::SupplyProjectileAction {
                supplier: *supplier,
                robot: *robot,
                outlet_status: *outlet_status,
                supplied_number: *supplied_number,
            },
            Message::RefereeWarning(w) => MessageV::RefereeWarning(*w),
            Message::DartRemainingTime(t) => MessageV::DartRemainingTime(*t),
            Message::GameRobotStatus(s) => MessageV::GameRobotStatus(*s),
            Message::PowerHeatData {
                chassis_volt,
                chassis_current,
                chassis_power,
                chassis_power_buffer,
                shooter_id1_17mm_cooling_heat,
                shooter_id2_17mm_cooling_heat,
                shooter_id1_42mm_cooling_heat,
            } => MessageV::PowerHeatData {
                chassis_volt: *chassis_volt,
                chassis_current: *chassis_current,
                chassis_power: *chassis_power,
                chassis_power_buffer: *chassis_power_buffer,
                shooter_id1_17mm_cooling_heat: *shooter_id1_17mm_cooling_heat,
                shooter_id2_17mm_cooling_heat: *shooter_id2_17mm_cooling_heat,
                shooter_id1_42mm_cooling_heat: *shooter_id1_42mm_cooling_heat,
            },
            Message::GameRobotPos { x, y, z, yaw } => MessageV::GameRobotPos {
                x: *x,
                y: *y,
                z: *z,
                yaw: *yaw,
            },
            Message::PowerRuneBuff {
                robot_hp_restoration_status,
                barrel_heat_cooling_acceleration,
                robot_defense_buff,
                robot_attack_buff,
            } => MessageV::PowerRuneBuff {
                robot_hp_restoration_status: *robot_hp_restoration_status,
                barrel_heat_cooling_acceleration: *barrel_heat_cooling_acceleration,
                robot_defense_buff: *robot_defense_buff,
                robot_attack_buff: *robot_attack_buff,
            },
            Message::AerialRobotEnergy(v) => MessageV::AerialRobotEnergy(*v),
            Message::RobotHurt(v) => MessageV::RobotHurt(*v),
            Message::ShootData(b) => MessageV::ShootData(b@),
            Message::BulletRemaining(b) => MessageV::BulletRemaining(b@),
            Message::RFIDStatus {
                base_gain_zone,
                elevated_ground_gain_zone,
                power_rune_activation_point,
                launch_ramp_gain_zone,
                outpost_gain_zone,
                restoration_zone_buff,
                engineer_robot_recovery_card,
            } => MessageV::RFIDStatus {
                base_gain_zone: *base_gain_zone,
                elevated_ground_gain_zone: *elevated_ground_gain_zone,
                power_rune_activation_point: *power_rune_activation_point,
                launch_ramp_gain_zone: *launch_ramp_gain_zone,
                outpost_gain_zone: *outpost_gain_zone,
                restoration_zone_buff: *restoration_zone_buff,
                engineer_robot_recovery_card: *engineer_robot_recovery_card,
            },
            Message::DartClientCmd {
                dart_launch_opening_status,
                dart_attack_target,
                target_change_time,
                latest_launch_cmd_time,
            } => MessageV::DartClientCmd {
                dart_launch_opening_status: *dart_launch_opening_status,
                dart_attack_target: *dart_attack_target,
                target_change_time: *target_change_time,
                latest_launch_cmd_time: *latest_launch_cmd_time,
            },
            Message::GroundRobotPosition {
                hero_x,
                hero_y,
                engineer_x,
                engineer_y,
                standard_3_x,
                standard_3_y,
                standard_4_x,
                standard_4_y,
                standard_5_x,
                standard_5_y,
            } => MessageV::GroundRobotPosition {
                hero_x: *hero_x,
                hero_y: *hero_y,
                engineer_x: *engineer_x,
                engineer_y: *engineer_y,
                standard_3_x: *standard_3_x,
                standard_3_y: *standard_3_y,
                standard_4_x: *standard_4_x,
                standard_4_y: *standard_4_y,
                standard_5_x: *standard_5_x,
                standard_5_y: *standard_5_y,
            },
            Message::RadarMarkData(r) => MessageV::RadarMarkData(*r),
            Message::StudentInteractiveData(s) => MessageV::StudentInteractiveData(s@),
            Message::CustomControllerInteractiveData(b) =>
                MessageV::CustomControllerInteractiveData(b@),
            Message::MapCommand {
                target_position_x,
                target_position_y,
                target_position_z,
                command_keyboard,
                target_robot_id,
            } => MessageV::MapCommand {
                target_position_x: *target_position_x,
                target_position_y: *target_position_y,
                target_position_z: *target_position_z,
                command_keyboard: *command_keyboard,
                target_robot_id: *target_robot_id,
            },
            Message::RemoteControl {
                mouse_x,
                mouse_y,
                mouse_z,
                left_button_down,
                right_button_down,
                w_key_down,
                s_key_down,
                a_key_down,
                d_key_down,
                shift_key_down,
                ctrl_key_down,
                q_key_down,
                e_key_down,
                r_key_down,
                f_key_down,
                g_key_down,
                z_key_down,
                x_key_down,
                c_key_down,
                v_key_down,
                b_key_down,
            } => MessageV::RemoteControl {
                mouse_x: *mouse_x,
                mouse_y: *mouse_y,
                mouse_z: *mouse_z,
                left_button_down: *left_button_down,
                right_button_down: *right_button_down,
                w_key_down: *w_key_down,
                s_key_down: *s_key_down,
                a_key_down: *a_key_down,
                d_key_down: *d_key_down,
                shift_key_down: *shift_key_down,
                ctrl_key_down: *ctrl_key_down,
                q_key_down: *q_key_down,
                e_key_down: *e_key_down,
                r_key_down: *r_key_down,
                f_key_down: *f_key_down,
                g_key_down: *g_key_down,
                z_key_down: *z_key_down,
                x_key_down: *x_key_down,
                c_key_down: *c_key_down,
                v_key_down: *v_key_down,
                b_key_down: *b_key_down,
            },
            Message::MinimapReceipt { target_robot_id, target_position_x, target_position_y } =>
                MessageV::MinimapReceipt {
                target_robot_id: *target_robot_id,
                target_position_x: *target_position_x,
                target_position_y: *target_position_y,
            },
        }
    }
}

/// The content id that encoding derives for an inner variant: the
/// variant's own id, or the stored id for peer-to-peer content.
pub open spec fn sid_derived_id(c: StudentInteractiveDataTypeV) -> u16 {
    match c {
        StudentInteractiveDataTypeV::PeerToPeerCommunication { content_id, .. } => content_id,
        StudentInteractiveDataTypeV::GraphicDelete { .. } => 0x0100,
        StudentInteractiveDataTypeV::GraphicDraw1(_) => 0x0101,
        StudentInteractiveDataTypeV::GraphicDraw2(_) => 0x0102,
        StudentInteractiveDataTypeV::GraphicDraw5(_) => 0x0103,
        StudentInteractiveDataTypeV::GraphicDraw7(_) => 0x0104,
        StudentInteractiveDataTypeV::GraphicDrawCharacter(_, _) => 0x0110,
    }
}

pub open spec fn graphics_wf(gs: Seq<GraphicDataV>) -> bool {
    forall|i: int| 0 <= i < gs.len() ==> #[trigger] gs[i].wf()
}

impl StudentInteractiveDataTypeV {
    pub open spec fn wf(self) -> bool {
        match self {
            StudentInteractiveDataTypeV::PeerToPeerCommunication { content_id, .. } => 0x0200
                <= content_id <= 0x02FF,
            StudentInteractiveDataTypeV::GraphicDelete { .. } => true,
            StudentInteractiveDataTypeV::GraphicDraw1(gs) => gs.len() == 1 && graphics_wf(gs),
            StudentInteractiveDataTypeV::GraphicDraw2(gs) => gs.len() == 2 && graphics_wf(gs),
            StudentInteractiveDataTypeV::GraphicDraw5(gs) => gs.len() == 5 && graphics_wf(gs),
            StudentInteractiveDataTypeV::GraphicDraw7(gs) => gs.len() == 7 && graphics_wf(gs),
            StudentInteractiveDataTypeV::GraphicDrawCharacter(g, chars) => g.wf() && chars.len()
                == 30,
        }
    }
}

impl StudentInteractiveDataV {
    pub open spec fn wf(self) -> bool {
        self.content.wf() && self.content_id == sid_derived_id(self.content)
    }
}

impl MessageV {
    /// Every field fits its wire shape.  Frame-level size bounds are
    /// checked by the frame encoder, not here.
    pub open spec fn wf(self) -> bool {
        match self {
            MessageV::ShootData(b) => b.len() == 7,
            MessageV::BulletRemaining(b) => b.len() == 6,
            MessageV::StudentInteractiveData(s) => s.wf(),
            _ => true,
        }
    }
}

impl StudentInteractiveData {
    /// The content id that encoding stamps in the outer shell.
    pub fn get_content_id(&self) -> (r: u16)
        ensures
            r == sid_derived_id(self.content@),
    {
        match &self.content {
            StudentInteractiveDataType::PeerToPeerCommunication { content_id, .. } => *content_id,
            StudentInteractiveDataType::GraphicDelete { .. } => 0x0100,
            StudentInteractiveDataType::GraphicDraw1(_) => 0x0101,
            StudentInteractiveDataType::GraphicDraw2(_) => 0x0102,
            StudentInteractiveDataType::GraphicDraw5(_) => 0x0103,
            StudentInteractiveDataType::GraphicDraw7(_) => 0x0104,
            StudentInteractiveDataType::GraphicDrawCharacter(_, _) => 0x0110,
        }
    }
}

} // verus!
