//! Student-interactive drawing records.
//!
//! All eight graphic shapes share one 15-byte envelope: a 3-byte name,
//! then a packed run of bit fields (3-bit operate type, 3-bit graphic
//! type, 4-bit layer, 4-bit color, and five shape slots of 9, 9, 10,
//! 11 and 11 bits), then a 4-byte tail that is either three more bit
//! fields (10, 11, 11), a little-endian 32-bit value, or padding.
//! Bits are packed most-significant-first within the byte stream, so
//! each wire byte is a fixed shift-and-mask formula over the fields;
//! the spec states those formulas directly and the round-trip lemmas
//! show that the decode formulas invert them.

use vstd::prelude::*;

use crate::errors::DecodeError;
use crate::errors::EnumContext;
use crate::wire::le32;
use crate::wire::lemma_i32_round;
use crate::wire::lemma_u32_round;
use crate::wire::read_u32_le;
use crate::wire::u32_of;

verus! {

#[derive(Debug, Clone, Copy, PartialEq, Eq, Structural)]
pub enum GraphicDeleteOperation {
    Nop,
    DeleteOne,
    DeleteAll,
}

#[derive(Debug, Clone, Copy, PartialEq, Eq, Structural)]
pub enum GraphicAddOperation {
    Nop,
    Add,
    Modify,
    Delete,
}

/// Values 0 through 8 are the canonical color set; anything else on
/// the wire is rejected.
#[derive(Debug, Clone, Copy, PartialEq, Eq, Structural)]
pub enum GraphicColor {
    RedAndBlue,
    Yellow,
    Green,
    Orange,
    PurplishRed,
    Pink,
    Cyan,
    Black,
    White,
}

#[derive(Debug, Clone, Copy, PartialEq, Eq, Structural)]
pub struct StraightLineRectangleData {
    pub width: u16,
    pub start_x: u16,
    pub start_y: u16,
    pub end_x: u16,
    pub end_y: u16,
}

#[derive(Debug, Clone, Copy, PartialEq, Eq, Structural)]
pub struct CircleData {
    pub width: u16,
    pub x: u16,
    pub y: u16,
    pub radius: u16,
}

#[derive(Debug, Clone, Copy, PartialEq, Eq, Structural)]
pub struct EllipseData {
    pub width: u16,
    pub x: u16,
    pub y: u16,
    pub half_x_length: u16,
    pub half_y_length: u16,
}

#[derive(Debug, Clone, Copy, PartialEq, Eq, Structural)]
pub struct ArcData {
    pub start_angle: u16,
    pub end_angle: u16,
    pub width: u16,
    pub x: u16,
    pub y: u16,
    pub half_x_length: u16,
    pub half_y_length: u16,
}

#[derive(Debug, Clone, Copy, PartialEq, Eq, Structural)]
pub struct FloatingNumberData {
    pub font_size: u16,
    pub decimal_digit: u16,
    pub width: u16,
    pub start_x: u16,
    pub start_y: u16,
    pub value: i32,
}

#[derive(Debug, Clone, Copy, PartialEq, Eq, Structural)]
pub struct IntegerData {
    pub font_size: u16,
    pub width: u16,
    pub start_x: u16,
    pub start_y: u16,
    pub value: i32,
}

#[derive(Debug, Clone, Copy, PartialEq, Eq, Structural)]
pub struct CharacterData {
    pub font_size: u16,
    pub decimal_digit: u16,
    pub width: u16,
    pub x: u16,
    pub y: u16,
}

/// The shape-specific reading of the shared envelope, tagged by the
/// 3-bit graphic type.
#[derive(Debug, Clone, Copy, PartialEq, Eq, Structural)]
pub enum GraphicEnum {
    StraightLine(StraightLineRectangleData),
    Rectangle(StraightLineRectangleData),
    Circle(CircleData),
    Ellipse(EllipseData),
    Arc(ArcData),
    FloatingNumber(FloatingNumberData),
    Integer(IntegerData),
    Character(CharacterData),
}

/// One 15-byte drawing record.  `graphic_type` repeats the tag of
/// `graphic_data`; well-formed records keep the two consistent.
#[derive(Debug, Clone, Copy, PartialEq, Eq)]
pub struct GraphicData {
    pub graphic_name: [u8; 3],
    pub operate_type: GraphicAddOperation,
    pub graphic_type: u8,
    pub layer: u8,
    pub color: GraphicColor,
    pub graphic_data: GraphicEnum,
}

/// The mathematical image of a [`GraphicData`]: the name as a sequence.
pub struct GraphicDataV {
    pub name: Seq<u8>,
    pub operate_type: GraphicAddOperation,
    pub graphic_type: u8,
    pub layer: u8,
    pub color: GraphicColor,
    pub graphic_data: GraphicEnum,
}

impl View for GraphicData {
    type V = GraphicDataV;

    open spec fn view(&self) -> GraphicDataV {
        GraphicDataV {
            name: self.graphic_name@,
            operate_type: self.operate_type,
            graphic_type: self.graphic_type,
            layer: self.layer,
            color: self.color,
            graphic_data: self.graphic_data,
        }
    }
}

pub open spec fn delete_op_val(e: GraphicDeleteOperation) -> u8 {
    match e {
        GraphicDeleteOperation::Nop => 0,
        GraphicDeleteOperation::DeleteOne => 1,
        GraphicDeleteOperation::DeleteAll => 2,
    }
}

pub open spec fn delete_op_from(v: u8) -> Option<GraphicDeleteOperation> {
    match v {
        0 => Some(GraphicDeleteOperation::Nop),
        1 => Some(GraphicDeleteOperation::DeleteOne),
        2 => Some(GraphicDeleteOperation::DeleteAll),
        _ => None,
    }
}

pub open spec fn add_op_val(e: GraphicAddOperation) -> u8 {
    match e {
        GraphicAddOperation::Nop => 0,
        GraphicAddOperation::Add => 1,
        GraphicAddOperation::Modify => 2,
        GraphicAddOperation::Delete => 3,
    }
}

pub open spec fn add_op_from(v: u8) -> Option<GraphicAddOperation> {
    match v {
        0 => Some(GraphicAddOperation::Nop),
        1 => Some(GraphicAddOperation::Add),
        2 => Some(GraphicAddOperation::Modify),
        3 => Some(GraphicAddOperation::Delete),
        _ => None,
    }
}

pub open spec fn color_val(e: GraphicColor) -> u8 {
    match e {
        GraphicColor::RedAndBlue => 0,
        GraphicColor::Yellow => 1,
        GraphicColor::Green => 2,
        GraphicColor::Orange => 3,
        GraphicColor::PurplishRed => 4,
        GraphicColor::Pink => 5,
        GraphicColor::Cyan => 6,
        GraphicColor::Black => 7,
        GraphicColor::White => 8,
    }
}

pub open spec fn color_from(v: u8) -> Option<GraphicColor> {
    match v {
        0 => Some(GraphicColor::RedAndBlue),
        1 => Some(GraphicColor::Yellow),
        2 => Some(GraphicColor::Green),
        3 => Some(GraphicColor::Orange),
        4 => Some(GraphicColor::PurplishRed),
        5 => Some(GraphicColor::Pink),
        6 => Some(GraphicColor::Cyan),
        7 => Some(GraphicColor::Black),
        8 => Some(GraphicColor::White),
        _ => None,
    }
}

/// The 3-bit tag that selects a shape.
pub open spec fn graphic_tag(e: GraphicEnum) -> u8 {
    match e {
        GraphicEnum::StraightLine(_) => 0,
        GraphicEnum::Rectangle(_) => 1,
        GraphicEnum::Circle(_) => 2,
        GraphicEnum::Ellipse(_) => 3,
        GraphicEnum::Arc(_) => 4,
        GraphicEnum::FloatingNumber(_) => 5,
        GraphicEnum::Integer(_) => 6,
        GraphicEnum::Character(_) => 7,
    }
}

/// Every numeric field of a shape fits its declared bit width.
pub open spec fn shape_wf(e: GraphicEnum) -> bool {
    match e {
        GraphicEnum::StraightLine(d) => d.width < 1024 && d.start_x < 2048 && d.start_y < 2048
            && d.end_x < 2048 && d.end_y < 2048,
        GraphicEnum::Rectangle(d) => d.width < 1024 && d.start_x < 2048 && d.start_y < 2048
            && d.end_x < 2048 && d.end_y < 2048,
        GraphicEnum::Circle(d) => d.width < 1024 && d.x < 2048 && d.y < 2048 && d.radius < 1024,
        GraphicEnum::Ellipse(d) => d.width < 1024 && d.x < 2048 && d.y < 2048 && d.half_x_length
            < 2048 && d.half_y_length < 2048,
        GraphicEnum::Arc(d) => d.start_angle < 512 && d.end_angle < 512 && d.width < 1024 && d.x
            < 2048 && d.y < 2048 && d.half_x_length < 2048 && d.half_y_length < 2048,
        GraphicEnum::FloatingNumber(d) => d.font_size < 512 && d.decimal_digit < 512 && d.width
            < 1024 && d.start_x < 2048 && d.start_y < 2048,
        GraphicEnum::Integer(d) => d.font_size < 512 && d.width < 1024 && d.start_x < 2048
            && d.start_y < 2048,
        GraphicEnum::Character(d) => d.font_size < 512 && d.decimal_digit < 512 && d.width < 1024
            && d.x < 2048 && d.y < 2048,
    }
}

impl GraphicDataV {
    pub open spec fn wf(self) -> bool {
        self.name.len() == 3 && self.layer < 16 && self.graphic_type == graphic_tag(
            self.graphic_data,
        ) && shape_wf(self.graphic_data)
    }
}

// The five shared slots: 9, 9, 10, 11 and 11 bits.  Shapes that do
// not use a slot encode it as zero padding.
pub open spec fn slot0(e: GraphicEnum) -> u16 {
    match e {
        GraphicEnum::Arc(d) => d.start_angle,
        GraphicEnum::FloatingNumber(d) => d.font_size,
        GraphicEnum::Integer(d) => d.font_size,
        GraphicEnum::Character(d) => d.font_size,
        _ => 0,
    }
}

pub open spec fn slot1(e: GraphicEnum) -> u16 {
    match e {
        GraphicEnum::Arc(d) => d.end_angle,
        GraphicEnum::FloatingNumber(d) => d.decimal_digit,
        GraphicEnum::Character(d) => d.decimal_digit,
        _ => 0,
    }
}

pub open spec fn slot2(e: GraphicEnum) -> u16 {
    match e {
        GraphicEnum::StraightLine(d) => d.width,
        GraphicEnum::Rectangle(d) => d.width,
        GraphicEnum::Circle(d) => d.width,
        GraphicEnum::Ellipse(d) => d.width,
        GraphicEnum::Arc(d) => d.width,
        GraphicEnum::FloatingNumber(d) => d.width,
        GraphicEnum::Integer(d) => d.width,
        GraphicEnum::Character(d) => d.width,
    }
}

pub open spec fn slot3(e: GraphicEnum) -> u16 {
    match e {
        GraphicEnum::StraightLine(d) => d.start_x,
        GraphicEnum::Rectangle(d) => d.start_x,
        GraphicEnum::Circle(d) => d.x,
        GraphicEnum::Ellipse(d) => d.x,
        GraphicEnum::Arc(d) => d.x,
        GraphicEnum::FloatingNumber(d) => d.start_x,
        GraphicEnum::Integer(d) => d.start_x,
        GraphicEnum::Character(d) => d.x,
    }
}

pub open spec fn slot4(e: GraphicEnum) -> u16 {
    match e {
        GraphicEnum::StraightLine(d) => d.start_y,
        GraphicEnum::Rectangle(d) => d.start_y,
        GraphicEnum::Circle(d) => d.y,
        GraphicEnum::Ellipse(d) => d.y,
        GraphicEnum::Arc(d) => d.y,
        GraphicEnum::FloatingNumber(d) => d.start_y,
        GraphicEnum::Integer(d) => d.start_y,
        GraphicEnum::Character(d) => d.y,
    }
}

// Wire-byte formulas for the packed run (bytes 3 through 10).
pub open spec fn gb3(op: u8, ty: u8, layer: u8) -> u8 {
    (op << 5) | (ty << 2) | (layer >> 2)
}

pub open spec fn gb4(layer: u8, color: u8, s0: u16) -> u8 {
    ((layer & 3) << 6) | (color << 2) | ((s0 >> 7) as u8)
}

pub open spec fn gb5(s0: u16, s1: u16) -> u8 {
    (((s0 & 0x7F) << 1) | (s1 >> 8)) as u8
}

pub open spec fn gb6(s1: u16) -> u8 {
    (s1 & 0xFF) as u8
}

pub open spec fn gb7(s2: u16) -> u8 {
    (s2 >> 2) as u8
}

pub open spec fn gb8(s2: u16, s3: u16) -> u8 {
    (((s2 & 3) << 6) | (s3 >> 5)) as u8
}

pub open spec fn gb9(s3: u16, s4: u16) -> u8 {
    (((s3 & 0x1F) << 3) | (s4 >> 8)) as u8
}

pub open spec fn gb10(s4: u16) -> u8 {
    (s4 & 0xFF) as u8
}

// Wire-byte formulas for a bit-field tail (10, 11 and 11 bits).
pub open spec fn gtb0(s5: u16) -> u8 {
    (s5 >> 2) as u8
}

pub open spec fn gtb1(s5: u16, s6: u16) -> u8 {
    (((s5 & 3) << 6) | (s6 >> 5)) as u8
}

pub open spec fn gtb2(s6: u16, s7: u16) -> u8 {
    (((s6 & 0x1F) << 3) | (s7 >> 8)) as u8
}

pub open spec fn gtb3(s7: u16) -> u8 {
    (s7 & 0xFF) as u8
}

pub open spec fn tail_bits(s5: u16, s6: u16, s7: u16) -> Seq<u8> {
    seq![gtb0(s5), gtb1(s5, s6), gtb2(s6, s7), gtb3(s7)]
}

/// Bytes 11 through 14 of the record.
pub open spec fn tail_bytes(e: GraphicEnum) -> Seq<u8> {
    match e {
        GraphicEnum::StraightLine(d) => tail_bits(0, d.end_x, d.end_y),
        GraphicEnum::Rectangle(d) => tail_bits(0, d.end_x, d.end_y),
        GraphicEnum::Circle(d) => tail_bits(d.radius, 0, 0),
        GraphicEnum::Ellipse(d) => tail_bits(0, d.half_x_length, d.half_y_length),
        GraphicEnum::Arc(d) => tail_bits(0, d.half_x_length, d.half_y_length),
        GraphicEnum::FloatingNumber(d) => le32(d.value as u32),
        GraphicEnum::Integer(d) => le32(d.value as u32),
        GraphicEnum::Character(_) => seq![0u8, 0u8, 0u8, 0u8],
    }
}

/// The 15-byte wire image of a drawing record.
pub open spec fn graphic_bytes(g: GraphicDataV) -> Seq<u8> {
    let op = add_op_val(g.operate_type);
    let ty = graphic_tag(g.graphic_data);
    let col = color_val(g.color);
    let s0 = slot0(g.graphic_data);
    let s1 = slot1(g.graphic_data);
    let s2 = slot2(g.graphic_data);
    let s3 = slot3(g.graphic_data);
    let s4 = slot4(g.graphic_data);
    seq![
        g.name[0],
        g.name[1],
        g.name[2],
        gb3(op, ty, g.layer),
        gb4(g.layer, col, s0),
        gb5(s0, s1),
        gb6(s1),
        gb7(s2),
        gb8(s2, s3),
        gb9(s3, s4),
        gb10(s4),
    ] + tail_bytes(g.graphic_data)
}

// Field-extraction formulas, the inverses of the byte formulas.
pub open spec fn gx_op(b3: u8) -> u8 {
    b3 >> 5
}

pub open spec fn gx_ty(b3: u8) -> u8 {
    (b3 >> 2) & 7
}

pub open spec fn gx_layer(b3: u8, b4: u8) -> u8 {
    ((b3 & 3) << 2) | (b4 >> 6)
}

pub open spec fn gx_color(b4: u8) -> u8 {
    (b4 >> 2) & 0xF
}

pub open spec fn gx_s0(b4: u8, b5: u8) -> u16 {
    (((b4 & 3) as u16) << 7) | ((b5 >> 1) as u16)
}

pub open spec fn gx_s1(b5: u8, b6: u8) -> u16 {
    (((b5 & 1) as u16) << 8) | (b6 as u16)
}

pub open spec fn gx_s2(b7: u8, b8: u8) -> u16 {
    ((b7 as u16) << 2) | ((b8 >> 6) as u16)
}

pub open spec fn gx_s3(b8: u8, b9: u8) -> u16 {
    (((b8 & 0x3F) as u16) << 5) | ((b9 >> 3) as u16)
}

pub open spec fn gx_s4(b9: u8, b10: u8) -> u16 {
    (((b9 & 7) as u16) << 8) | (b10 as u16)
}

pub open spec fn gx_s5(b11: u8, b12: u8) -> u16 {
    ((b11 as u16) << 2) | ((b12 >> 6) as u16)
}

pub open spec fn gx_s6(b12: u8, b13: u8) -> u16 {
    (((b12 & 0x3F) as u16) << 5) | ((b13 >> 3) as u16)
}

pub open spec fn gx_s7(b13: u8, b14: u8) -> u16 {
    (((b13 & 7) as u16) << 8) | (b14 as u16)
}

/// Assemble the shape from the extracted slots and tail fields.
pub open spec fn shape_of(
    ty: u8,
    s0: u16,
    s1: u16,
    s2: u16,
    s3: u16,
    s4: u16,
    s5: u16,
    s6: u16,
    s7: u16,
    value: i32,
) -> GraphicEnum {
    if ty == 0 {
        GraphicEnum::StraightLine(
            StraightLineRectangleData {
                width: s2,
                start_x: s3,
                start_y: s4,
                end_x: s6,
                end_y: s7,
            },
        )
    } else if ty == 1 {
        GraphicEnum::Rectangle(
            StraightLineRectangleData {
                width: s2,
                start_x: s3,
                start_y: s4,
                end_x: s6,
                end_y: s7,
            },
        )
    } else if ty == 2 {
        GraphicEnum::Circle(CircleData { width: s2, x: s3, y: s4, radius: s5 })
    } else if ty == 3 {
        GraphicEnum::Ellipse(
            EllipseData { width: s2, x: s3, y: s4, half_x_length: s6, half_y_length: s7 },
        )
    } else if ty == 4 {
        GraphicEnum::Arc(
            ArcData {
                start_angle: s0,
                end_angle: s1,
                width: s2,
                x: s3,
                y: s4,
                half_x_length: s6,
                half_y_length: s7,
            },
        )
    } else if ty == 5 {
        GraphicEnum::FloatingNumber(
            FloatingNumberData {
                font_size: s0,
                decimal_digit: s1,
                width: s2,
                start_x: s3,
                start_y: s4,
                value,
            },
        )
    } else if ty == 6 {
        GraphicEnum::Integer(
            IntegerData { font_size: s0, width: s2, start_x: s3, start_y: s4, value },
        )
    } else {
        GraphicEnum::Character(
            CharacterData { font_size: s0, decimal_digit: s1, width: s2, x: s3, y: s4 },
        )
    }
}

/// Parse one 15-byte record.  Reads of padding bits are discarded.
pub open spec fn parse_graphic(s: Seq<u8>) -> Result<GraphicDataV, DecodeError> {
    let op_v = gx_op(s[3]);
    let ty = gx_ty(s[3]);
    let layer = gx_layer(s[3], s[4]);
    let col_v = gx_color(s[4]);
    match add_op_from(op_v) {
        None => Err(DecodeError::UnknownEnumValue(EnumContext::GraphicAddOperation, op_v as u16)),
        Some(op) => match color_from(col_v) {
            None => Err(DecodeError::UnknownEnumValue(EnumContext::GraphicColor, col_v as u16)),
            Some(color) => Ok(
                GraphicDataV {
                    name: s.subrange(0, 3),
                    operate_type: op,
                    graphic_type: ty,
                    layer,
                    color,
                    graphic_data: shape_of(
                        ty,
                        gx_s0(s[4], s[5]),
                        gx_s1(s[5], s[6]),
                        gx_s2(s[7], s[8]),
                        gx_s3(s[8], s[9]),
                        gx_s4(s[9], s[10]),
                        gx_s5(s[11], s[12]),
                        gx_s6(s[12], s[13]),
                        gx_s7(s[13], s[14]),
                        u32_of(s[11], s[12], s[13], s[14]) as i32,
                    ),
                },
            ),
        },
    }
}

/// The packed-run formulas are inverted by the extraction formulas.
proof fn lemma_head_round(op: u8, ty: u8, layer: u8, col: u8, s0: u16, s1: u16, s2: u16, s3: u16, s4: u16)
    by (bit_vector)
    requires
        op < 8,
        ty < 8,
        layer < 16,
        col < 16,
        s0 < 512,
        s1 < 512,
        s2 < 1024,
        s3 < 2048,
        s4 < 2048,
    ensures
        gx_op(gb3(op, ty, layer)) == op,
        gx_ty(gb3(op, ty, layer)) == ty,
        gx_layer(gb3(op, ty, layer), gb4(layer, col, s0)) == layer,
        gx_color(gb4(layer, col, s0)) == col,
        gx_s0(gb4(layer, col, s0), gb5(s0, s1)) == s0,
        gx_s1(gb5(s0, s1), gb6(s1)) == s1,
        gx_s2(gb7(s2), gb8(s2, s3)) == s2,
        gx_s3(gb8(s2, s3), gb9(s3, s4)) == s3,
        gx_s4(gb9(s3, s4), gb10(s4)) == s4,
{
}

/// The tail bit-field formulas are inverted by their extractions.
proof fn lemma_tail_round(s5: u16, s6: u16, s7: u16)
    by (bit_vector)
    requires
        s5 < 1024,
        s6 < 2048,
        s7 < 2048,
    ensures
        gx_s5(gtb0(s5), gtb1(s5, s6)) == s5,
        gx_s6(gtb1(s5, s6), gtb2(s6, s7)) == s6,
        gx_s7(gtb2(s6, s7), gtb3(s7)) == s7,
{
}

/// Every extracted field lies within its bit width.
proof fn lemma_extract_bounds(b3: u8, b4: u8, b5: u8, b6: u8, b7: u8, b8: u8, b9: u8, b10: u8, b11: u8, b12: u8, b13: u8, b14: u8)
    by (bit_vector)
    ensures
        gx_op(b3) < 8,
        gx_ty(b3) < 8,
        gx_layer(b3, b4) < 16,
        gx_color(b4) < 16,
        gx_s0(b4, b5) < 512,
        gx_s1(b5, b6) < 512,
        gx_s2(b7, b8) < 1024,
        gx_s3(b8, b9) < 2048,
        gx_s4(b9, b10) < 2048,
        gx_s5(b11, b12) < 1024,
        gx_s6(b12, b13) < 2048,
        gx_s7(b13, b14) < 2048,
{
}

/// Law: decoding the encoding of any well-formed drawing record gives
/// the record back, padding bits included.
pub proof fn lemma_graphic_round_trip(g: GraphicDataV)
    requires
        g.wf(),
    ensures
        parse_graphic(graphic_bytes(g)) == Ok::<GraphicDataV, DecodeError>(g),
{
    let s = graphic_bytes(g);
    let op = add_op_val(g.operate_type);
    let ty = graphic_tag(g.graphic_data);
    let col = color_val(g.color);
    let s0 = slot0(g.graphic_data);
    let s1 = slot1(g.graphic_data);
    let s2 = slot2(g.graphic_data);
    let s3 = slot3(g.graphic_data);
    let s4 = slot4(g.graphic_data);
    lemma_head_round(op, ty, g.layer, col, s0, s1, s2, s3, s4);
    assert(s.subrange(0, 3) =~= g.name);
    match g.graphic_data {
        GraphicEnum::StraightLine(d) => {
            lemma_tail_round(0, d.end_x, d.end_y);
        },
        GraphicEnum::Rectangle(d) => {
            lemma_tail_round(0, d.end_x, d.end_y);
        },
        GraphicEnum::Circle(d) => {
            lemma_tail_round(d.radius, 0, 0);
        },
        GraphicEnum::Ellipse(d) => {
            lemma_tail_round(0, d.half_x_length, d.half_y_length);
        },
        GraphicEnum::Arc(d) => {
            lemma_tail_round(0, d.half_x_length, d.half_y_length);
        },
        GraphicEnum::FloatingNumber(d) => {
            lemma_u32_round(d.value as u32);
            lemma_i32_round(d.value);
        },
        GraphicEnum::Integer(d) => {
            lemma_u32_round(d.value as u32);
            lemma_i32_round(d.value);
        },
        GraphicEnum::Character(_) => {},
    }
}

fn delete_op_value(e: &GraphicDeleteOperation) -> (r: u8)
    ensures
        r == delete_op_val(*e),
{
    match e {
        GraphicDeleteOperation::Nop => 0,
        GraphicDeleteOperation::DeleteOne => 1,
        GraphicDeleteOperation::DeleteAll => 2,
    }
}

fn delete_op_of(v: u8) -> (r: Option<GraphicDeleteOperation>)
    ensures
        r == delete_op_from(v),
{
    match v {
        0 => Some(GraphicDeleteOperation::Nop),
        1 => Some(GraphicDeleteOperation::DeleteOne),
        2 => Some(GraphicDeleteOperation::DeleteAll),
        _ => None,
    }
}

fn add_op_value(e: &GraphicAddOperation) -> (r: u8)
    ensures
        r == add_op_val(*e),
{
    match e {
        GraphicAddOperation::Nop => 0,
        GraphicAddOperation::Add => 1,
        GraphicAddOperation::Modify => 2,
        GraphicAddOperation::Delete => 3,
    }
}

fn add_op_of(v: u8) -> (r: Option<GraphicAddOperation>)
    ensures
        r == add_op_from(v),
{
    match v {
        0 => Some(GraphicAddOperation::Nop),
        1 => Some(GraphicAddOperation::Add),
        2 => Some(GraphicAddOperation::Modify),
        3 => Some(GraphicAddOperation::Delete),
        _ => None,
    }
}

fn color_value(e: &GraphicColor) -> (r: u8)
    ensures
        r == color_val(*e),
{
    match e {
        GraphicColor::RedAndBlue => 0,
        GraphicColor::Yellow => 1,
        GraphicColor::Green => 2,
        GraphicColor::Orange => 3,
        GraphicColor::PurplishRed => 4,
        GraphicColor::Pink => 5,
        GraphicColor::Cyan => 6,
        GraphicColor::Black => 7,
        GraphicColor::White => 8,
    }
}

fn color_of(v: u8) -> (r: Option<GraphicColor>)
    ensures
        r == color_from(v),
{
    match v {
        0 => Some(GraphicColor::RedAndBlue),
        1 => Some(GraphicColor::Yellow),
        2 => Some(GraphicColor::Green),
        3 => Some(GraphicColor::Orange),
        4 => Some(GraphicColor::PurplishRed),
        5 => Some(GraphicColor::Pink),
        6 => Some(GraphicColor::Cyan),
        7 => Some(GraphicColor::Black),
        8 => Some(GraphicColor::White),
        _ => None,
    }
}

/// Append the 15-byte wire image of `g`.
pub fn encode_graphic(g: &GraphicData, out: &mut Vec<u8>)
    requires
        g@.wf(),
    ensures
        final(out)@ == old(out)@ + graphic_bytes(g@),
{
    let op = add_op_value(&g.operate_type);
    let ty = g.graphic_type;
    let col = color_value(&g.color);
    let (s0, s1, s2, s3, s4): (u16, u16, u16, u16, u16) = match &g.graphic_data {
        GraphicEnum::StraightLine(d) => (0, 0, d.width, d.start_x, d.start_y),
        GraphicEnum::Rectangle(d) => (0, 0, d.width, d.start_x, d.start_y),
        GraphicEnum::Circle(d) => (0, 0, d.width, d.x, d.y),
        GraphicEnum::Ellipse(d) => (0, 0, d.width, d.x, d.y),
        GraphicEnum::Arc(d) => (d.start_angle, d.end_angle, d.width, d.x, d.y),
        GraphicEnum::FloatingNumber(d) => (d.font_size, d.decimal_digit, d.width, d.start_x, d.start_y),
        GraphicEnum::Integer(d) => (d.font_size, 0, d.width, d.start_x, d.start_y),
        GraphicEnum::Character(d) => (d.font_size, d.decimal_digit, d.width, d.x, d.y),
    };
    out.push(g.graphic_name[0]);
    out.push(g.graphic_name[1]);
    out.push(g.graphic_name[2]);
    out.push((op << 5) | (ty << 2) | (g.layer >> 2));
    out.push(((g.layer & 3) << 6) | (col << 2) | ((s0 >> 7) as u8));
    out.push((((s0 & 0x7F) << 1) | (s1 >> 8)) as u8);
    out.push((s1 & 0xFF) as u8);
    out.push((s2 >> 2) as u8);
    out.push((((s2 & 3) << 6) | (s3 >> 5)) as u8);
    out.push((((s3 & 0x1F) << 3) | (s4 >> 8)) as u8);
    out.push((s4 & 0xFF) as u8);
    let (t0, t1, t2, t3): (u8, u8, u8, u8) = match &g.graphic_data {
        GraphicEnum::StraightLine(d) => tail_bits_exec(0, d.end_x, d.end_y),
        GraphicEnum::Rectangle(d) => tail_bits_exec(0, d.end_x, d.end_y),
        GraphicEnum::Circle(d) => tail_bits_exec(d.radius, 0, 0),
        GraphicEnum::Ellipse(d) => tail_bits_exec(0, d.half_x_length, d.half_y_length),
        GraphicEnum::Arc(d) => tail_bits_exec(0, d.half_x_length, d.half_y_length),
        GraphicEnum::FloatingNumber(d) => {
            let v = d.value as u32;
            ((v & 0xFF) as u8, ((v >> 8) & 0xFF) as u8, ((v >> 16) & 0xFF) as u8, ((v >> 24)
                & 0xFF) as u8)
        },
        GraphicEnum::Integer(d) => {
            let v = d.value as u32;
            ((v & 0xFF) as u8, ((v >> 8) & 0xFF) as u8, ((v >> 16) & 0xFF) as u8, ((v >> 24)
                & 0xFF) as u8)
        },
        GraphicEnum::Character(_) => (0, 0, 0, 0),
    };
    out.push(t0);
    out.push(t1);
    out.push(t2);
    out.push(t3);
    proof {
        assert(out@ =~= old(out)@ + graphic_bytes(g@));
    }
}

fn tail_bits_exec(s5: u16, s6: u16, s7: u16) -> (r: (u8, u8, u8, u8))
    ensures
        r.0 == gtb0(s5),
        r.1 == gtb1(s5, s6),
        r.2 == gtb2(s6, s7),
        r.3 == gtb3(s7),
{
    ((s5 >> 2) as u8, (((s5 & 3) << 6) | (s6 >> 5)) as u8, (((s6 & 0x1F) << 3) | (s7 >> 8)) as u8, (
        s7 & 0xFF) as u8)
}

/// Decode the 15-byte record at `data[off..off + 15]`.
pub fn decode_graphic(data: &Vec<u8>, off: usize) -> (r: Result<GraphicData, DecodeError>)
    requires
        off + 15 <= data@.len(),
    ensures
        (match r {
            Ok(g) => parse_graphic(data@.subrange(off as int, off + 15)) == Ok::<
                GraphicDataV,
                DecodeError,
            >(g@) && g@.wf(),
            Err(e) => parse_graphic(data@.subrange(off as int, off + 15)) == Err::<
                GraphicDataV,
                DecodeError,
            >(e),
        }),
{
    let ghost s = data@.subrange(off as int, off + 15);
    let n = data.len();
    let b3 = data[off + 3];
    let b4 = data[off + 4];
    let b5 = data[off + 5];
    let b6 = data[off + 6];
    let b7 = data[off + 7];
    let b8 = data[off + 8];
    let b9 = data[off + 9];
    let b10 = data[off + 10];
    let b11 = data[off + 11];
    let b12 = data[off + 12];
    let b13 = data[off + 13];
    let b14 = data[off + 14];
    proof {
        lemma_extract_bounds(b3, b4, b5, b6, b7, b8, b9, b10, b11, b12, b13, b14);
    }
    let op_v = b3 >> 5;
    let ty = (b3 >> 2) & 7;
    let layer = ((b3 & 3) << 2) | (b4 >> 6);
    let col_v = (b4 >> 2) & 0xF;
    let op = match add_op_of(op_v) {
        Some(op) => op,
        None => {
            return Err(
                DecodeError::UnknownEnumValue(EnumContext::GraphicAddOperation, op_v as u16),
            );
        },
    };
    let color = match color_of(col_v) {
        Some(c) => c,
        None => {
            return Err(DecodeError::UnknownEnumValue(EnumContext::GraphicColor, col_v as u16));
        },
    };
    let s0 = (((b4 & 3) as u16) << 7) | ((b5 >> 1) as u16);
    let s1 = (((b5 & 1) as u16) << 8) | (b6 as u16);
    let s2 = ((b7 as u16) << 2) | ((b8 >> 6) as u16);
    let s3 = (((b8 & 0x3F) as u16) << 5) | ((b9 >> 3) as u16);
    let s4 = (((b9 & 7) as u16) << 8) | (b10 as u16);
    let s5 = ((b11 as u16) << 2) | ((b12 >> 6) as u16);
    let s6 = (((b12 & 0x3F) as u16) << 5) | ((b13 >> 3) as u16);
    let s7 = (((b13 & 7) as u16) << 8) | (b14 as u16);
    let value = read_u32_le(data, off + 11) as i32;
    let shape: GraphicEnum = if ty == 0 {
        GraphicEnum::StraightLine(
            StraightLineRectangleData { width: s2, start_x: s3, start_y: s4, end_x: s6, end_y: s7 },
        )
    } else if ty == 1 {
        GraphicEnum::Rectangle(
            StraightLineRectangleData { width: s2, start_x: s3, start_y: s4, end_x: s6, end_y: s7 },
        )
    } else if ty == 2 {
        GraphicEnum::Circle(CircleData { width: s2, x: s3, y: s4, radius: s5 })
    } else if ty == 3 {
        GraphicEnum::Ellipse(
            EllipseData { width: s2, x: s3, y: s4, half_x_length: s6, half_y_length: s7 },
        )
    } else if ty == 4 {
        GraphicEnum::Arc(
            ArcData {
                start_angle: s0,
                end_angle: s1,
                width: s2,
                x: s3,
                y: s4,
                half_x_length: s6,
                half_y_length: s7,
            },
        )
    } else if ty == 5 {
        GraphicEnum::FloatingNumber(
            FloatingNumberData {
                font_size: s0,
                decimal_digit: s1,
                width: s2,
                start_x: s3,
                start_y: s4,
                value,
            },
        )
    } else if ty == 6 {
        GraphicEnum::Integer(
            IntegerData { font_size: s0, width: s2, start_x: s3, start_y: s4, value },
        )
    } else {
        GraphicEnum::Character(
            CharacterData { font_size: s0, decimal_digit: s1, width: s2, x: s3, y: s4 },
        )
    };
    let g = GraphicData {
        graphic_name: [data[off], data[off + 1], data[off + 2]],
        operate_type: op,
        graphic_type: ty,
        layer,
        color,
        graphic_data: shape,
    };
    proof {
        assert(g@.name =~= s.subrange(0, 3));
    }
    Ok(g)
}

} // verus!
