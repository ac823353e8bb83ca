//! Session-layer state: the outbound sequence counter that stamps
//! every frame one writer sends, and the per-topic latest-value slots
//! that the inbound demultiplexer fills.  The surrounding I/O loops
//! live outside the library; this state and its rules are what they
//! drive.

use vstd::prelude::*;

use crate::codec::msg_bytes;
use crate::errors::EncodeError;
use crate::frame::Frame2;
use crate::frame::encode_frame;
use crate::frame::frame_bytes;
use crate::proto::EventData;
use crate::proto::GameRobotStatus;
use crate::proto::GameStatus;
use crate::proto::Message;
use crate::proto::MessageV;
use crate::proto::RadarMarkData;
use crate::proto::StudentInteractiveData;
use crate::proto::StudentInteractiveDataType;
use crate::proto::TeamHP;

verus! {

/// The write half's state: a wrapping 8-bit sequence counter, owned
/// by one writer.  Each successful send stamps the current value and
/// advances it by one modulo 256; a rejected send leaves it alone.
pub struct SequencedWriter {
    pub seq: u8,
}

/// The next counter value after one send.
pub open spec fn seq_next(s: u8) -> u8 {
    ((s + 1) % 256) as u8
}

impl SequencedWriter {
    pub fn new() -> (r: SequencedWriter)
        ensures
            r.seq == 0,
    {
        SequencedWriter { seq: 0 }
    }

    /// Stamp the current sequence number and build the wire bytes of
    /// one frame.  Success is owed exactly when the message is well
    /// formed and matches the declared data length, and only success
    /// consumes a sequence number.
    pub fn send_message_with_known_data_length(&mut self, message: &Message, data_length: u16)
        -> (r: Result<Vec<u8>, EncodeError>)
        ensures
            (match r {
                Ok(w) => message@.wf() && msg_bytes(message@).len() == data_length + 2
                    && data_length <= 119 && w@ == frame_bytes(
                    message@,
                    data_length,
                    old(self).seq,
                ) && w@.len() == data_length + 9 && final(self).seq == seq_next(old(self).seq),
                Err(e) => final(self).seq == old(self).seq && (if !message@.wf() {
                    e == EncodeError::InvalidField
                } else {
                    e == EncodeError::WrongDataLength && !(msg_bytes(message@).len()
                        == data_length + 2 && data_length <= 119)
                }),
            }),
    {
        match encode_frame(message, data_length, self.seq) {
            Ok(w) => {
                self.seq = if self.seq == 255 {
                    0
                } else {
                    self.seq + 1
                };
                Ok(w)
            },
            Err(e) => Err(e),
        }
    }

    /// Radar-station minimap receipt: robot id and a map position as
    /// two raw little-endian f32 bit patterns (x in [0, 28), y in
    /// [0, 15), origin at the red supply zone).  Always succeeds, with
    /// data length 10.
    pub fn send_minimap_receipt(&mut self, target_robot_id: u16, x_bits: u32, y_bits: u32) -> (r:
        Result<Vec<u8>, EncodeError>)
        ensures
            r matches Ok(w) && w@ == frame_bytes(
                MessageV::MinimapReceipt {
                    target_robot_id,
                    target_position_x: x_bits,
                    target_position_y: y_bits,
                },
                10,
                old(self).seq,
            ) && final(self).seq == seq_next(old(self).seq),
    {
        let m = Message::MinimapReceipt {
            target_robot_id,
            target_position_x: x_bits,
            target_position_y: y_bits,
        };
        proof {
            assert(msg_bytes(m@).len() == 12);
        }
        self.send_message_with_known_data_length(&m, 10)
    }

    /// Robot-to-robot payload; the data length is the content length
    /// plus the 6 bytes of interactive header.  Success is owed
    /// exactly when the content id lies in the peer-to-peer range and
    /// the content fits a frame (at most 113 bytes); only a
    /// successful send consumes a sequence number.
    pub fn send_p2p(
        &mut self,
        content_id: u16,
        send_id: u16,
        receive_id: u16,
        content: Vec<u8>,
    ) -> (r: Result<Vec<u8>, EncodeError>)
        ensures
            0x0200 <= content_id <= 0x02FF && content@.len() <= 113 ==> r is Ok,
            (match r {
                Ok(w) => 0x0200 <= content_id <= 0x02FF && content@.len() <= 113 && w@
                    == frame_bytes(
                    MessageV::StudentInteractiveData(
                        crate::proto::StudentInteractiveDataV {
                            content_id,
                            send_id,
                            receive_id,
                            content: crate::proto::StudentInteractiveDataTypeV::PeerToPeerCommunication {
                                content_id,
                                content: content@,
                            },
                        },
                    ),
                    (content@.len() + 6) as u16,
                    old(self).seq,
                ) && w@.len() == content@.len() + 15 && final(self).seq == seq_next(old(self).seq),
                Err(e) => final(self).seq == old(self).seq && (if content@.len() > 113 {
                    e == EncodeError::WrongDataLength
                } else {
                    !(0x0200 <= content_id <= 0x02FF) && e == EncodeError::InvalidField
                }),
            }),
    {
        if content.len() > 113 {
            return Err(EncodeError::WrongDataLength);
        }
        let data_length = (content.len() as u16) + 6;
        let ghost cv = content@;
        let m = Message::StudentInteractiveData(
            StudentInteractiveData {
                content_id,
                send_id,
                receive_id,
                content: StudentInteractiveDataType::PeerToPeerCommunication {
                    content_id,
                    content,
                },
            },
        );
        proof {
            assert(msg_bytes(m@).len() == 8 + cv.len());
        }
        self.send_message_with_known_data_length(&m, data_length)
    }
}

/// The per-topic latest-value slots that the read task fills.  Each
/// slot coalesces updates: a reader sees the most recent value, never
/// a queue.  Frequent high-rate messages are deliberately discarded;
/// every other variant leaves the slots untouched.
pub struct TopicSlots {
    pub game_robot_hp: Option<(TeamHP, TeamHP)>,
    pub game_robot_status: Option<GameRobotStatus>,
    pub game_status: Option<GameStatus>,
    pub radar_mark_data: Option<RadarMarkData>,
    pub event_data: Option<EventData>,
}

impl TopicSlots {
    pub fn new() -> (r: TopicSlots)
        ensures
            r.game_robot_hp is None,
            r.game_robot_status is None,
            r.game_status is None,
            r.radar_mark_data is None,
            r.event_data is None,
    {
        TopicSlots {
            game_robot_hp: None,
            game_robot_status: None,
            game_status: None,
            radar_mark_data: None,
            event_data: None,
        }
    }

    /// Route one inbound message: the matching slot is replaced with
    /// the new value, every other slot keeps what it held.
    pub fn update(&mut self, m: &Message)
        ensures
            final(self).game_robot_hp == (match m@ {
                MessageV::GameRobotHP { red, blue } => Some((red, blue)),
                _ => old(self).game_robot_hp,
            }),
            final(self).game_robot_status == (match m@ {
                MessageV::GameRobotStatus(st) => Some(st),
                _ => old(self).game_robot_status,
            }),
            final(self).game_status == (match m@ {
                MessageV::GameStatus(g) => Some(g),
                _ => old(self).game_status,
            }),
            final(self).radar_mark_data == (match m@ {
                MessageV::RadarMarkData(d) => Some(d),
                _ => old(self).radar_mark_data,
            }),
            final(self).event_data == (match m@ {
                MessageV::EventData(e) => Some(e),
                _ => old(self).event_data,
            }),
    {
        match m {
            Message::GameRobotHP { red, blue } => {
                self.game_robot_hp = Some((*red, *blue));
            },
            Message::GameRobotStatus(st) => {
                self.game_robot_status = Some(*st);
            },
            Message::GameStatus(g) => {
                self.game_status = Some(*g);
            },
            Message::RadarMarkData(d) => {
                self.radar_mark_data = Some(*d);
            },
            Message::EventData(e) => {
                self.event_data = Some(*e);
            },
            _ => {},
        }
    }
}

} // verus!
