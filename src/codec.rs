//! The desk's wire protocol: height telemetry and movement commands.

use vstd::prelude::*;

verus! {

/// Offset of the height scale, in millimetres.
pub const HEIGHT_OFFSET_MM: u32 = 600;

/// The little-endian 16-bit value of the first two bytes.
pub open spec fn le_u16(raw: Seq<u8>) -> int {
    raw[0] as int + 256 * raw[1] as int
}

/// Height in millimetres that a telemetry payload denotes: the first two bytes,
/// little-endian, in tenths of a millimetre above the offset; 0 where the
/// payload is too short to hold a reading.
pub open spec fn spec_decode(raw: Seq<u8>) -> u32 {
    if raw.len() < 2 {
        0
    } else {
        (600 + le_u16(raw) / 10) as u32
    }
}

/// Decodes a telemetry payload into a height in millimetres.
pub fn decode_height(raw: &[u8]) -> (h: u32)
    ensures
        h == spec_decode(raw@),
{
    if raw.len() < 2 {
        return 0;
    }
    let v: u32 = raw[0] as u32 + 256 * (raw[1] as u32);
    HEIGHT_OFFSET_MM + v / 10
}

/// Intended movement of the desk.
#[derive(Clone, Copy, Debug, PartialEq, Eq, Structural)]
pub enum MotionDirection {
    Up,
    Down,
    Stop,
}

/// The two command bytes of each direction, as the desk's protocol fixes them.
pub open spec fn spec_encode(dir: MotionDirection) -> Seq<u8> {
    match dir {
        MotionDirection::Up => seq![0x47u8, 0x00u8],
        MotionDirection::Down => seq![0x46u8, 0x00u8],
        MotionDirection::Stop => seq![0x00u8, 0x00u8],
    }
}

/// Encodes a direction as the command payload to write.
pub fn encode_direction(dir: MotionDirection) -> (r: [u8; 2])
    ensures
        r@ == spec_encode(dir),
{
    let r: [u8; 2] = match dir {
        MotionDirection::Up => [0x47, 0x00],
        MotionDirection::Down => [0x46, 0x00],
        MotionDirection::Stop => [0x00, 0x00],
    };
    proof {
        assert(r@ =~= spec_encode(dir));
    }
    r
}

/// Height that a telemetry read yields: a failed read (`None`) counts as an
/// empty payload, so it becomes the unknown height 0 rather than an error.
pub fn height_of_reading(reading: &Option<Vec<u8>>) -> (h: u32)
    ensures
        h == match reading {
            Some(b) => spec_decode(b@),
            None => 0,
        },
{
    match reading {
        Some(b) => decode_height(b.as_slice()),
        None => 0,
    }
}

/// A payload of two bytes or more decodes to 600 plus a tenth of its raw
/// value, rounded down, so to a height between 600 and 7153; a shorter one
/// decodes to the unknown height 0.
pub proof fn lemma_decode_range(raw: Seq<u8>)
    ensures
        raw.len() < 2 ==> spec_decode(raw) == 0,
        raw.len() >= 2 ==> 0 <= le_u16(raw) <= 65535 && spec_decode(raw) as int == 600 + le_u16(
            raw,
        ) / 10 && 600 <= spec_decode(raw) <= 7153,
{
}

/// Each direction has its own two-byte command, and no two directions share one.
pub proof fn lemma_encodings_distinct(a: MotionDirection, b: MotionDirection)
    ensures
        spec_encode(a).len() == 2,
        a != b ==> spec_encode(a) != spec_encode(b),
{
    if a != b {
        assert(spec_encode(a)[0] != spec_encode(b)[0]);
    }
}

} // verus!
