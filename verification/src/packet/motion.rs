//! The motion packet: physics data for every car on track, plus extra
//! telemetry for the player's car only.
//!
//! Wire layout (format version 2019): the common header, then exactly
//! [`NUM_CARS`] motion records of [`MOTION_RECORD_SIZE`] bytes each in
//! car-index order, then the player-car extras: five wheel quads and ten
//! 32-bit scalars, [`MOTION_PAYLOAD_SIZE`] payload bytes in all.
//!
//! Values the wire stores as 32-bit IEEE 754 floats are kept as their raw
//! little-endian bit patterns (`u32`).  The normalised direction vectors
//! are kept as the raw scaled 16-bit signed integers of the wire format;
//! dividing them by 32767.0 to recover a unit-range value is left to the
//! consumer.

use vstd::prelude::*;

use crate::bytes::{le_i16_at, le_u32_at};
use crate::cursor::ByteCursor;
use crate::packet::generic::{read_wheel_quad, spec_wheel_quad_at, WheelData};
use crate::packet::header::PacketHeader;
use crate::packet::UnpackError;

verus! {

/// Width in bytes of one per-car motion record.
pub const MOTION_RECORD_SIZE: usize = 60;

/// Number of per-car motion records in one motion packet.
pub const NUM_CARS: usize = 20;

/// Width in bytes of the motion packet's payload after the header:
/// twenty records of sixty bytes, five wheel quads and ten scalars.
pub const MOTION_PAYLOAD_SIZE: usize = 1320;

/// One car's entry in the motion packet's per-car array.
///
/// Position, velocity, G-force and attitude fields hold raw 32-bit
/// IEEE 754 bit patterns; the direction fields hold the wire's scaled
/// 16-bit signed integers.
#[derive(Debug, Clone, Copy, PartialEq, Eq, Structural)]
pub struct MotionData {
    pub world_position_x: u32,
    pub world_position_y: u32,
    pub world_position_z: u32,
    pub world_velocity_x: u32,
    pub world_velocity_y: u32,
    pub world_velocity_z: u32,
    pub world_forward_dir_x: i16,
    pub world_forward_dir_y: i16,
    pub world_forward_dir_z: i16,
    pub world_right_dir_x: i16,
    pub world_right_dir_y: i16,
    pub world_right_dir_z: i16,
    pub g_force_lateral: u32,
    pub g_force_longitudinal: u32,
    pub g_force_vertical: u32,
    pub yaw: u32,
    pub pitch: u32,
    pub roll: u32,
}

/// The motion record stored at offset `i` of `s`.
pub open spec fn spec_motion_record_at(s: Seq<u8>, i: int) -> MotionData
    recommends
        0 <= i,
        i + MOTION_RECORD_SIZE <= s.len(),
{
    MotionData {
        world_position_x: le_u32_at(s, i),
        world_position_y: le_u32_at(s, i + 4),
        world_position_z: le_u32_at(s, i + 8),
        world_velocity_x: le_u32_at(s, i + 12),
        world_velocity_y: le_u32_at(s, i + 16),
        world_velocity_z: le_u32_at(s, i + 20),
        world_forward_dir_x: le_i16_at(s, i + 24),
        world_forward_dir_y: le_i16_at(s, i + 26),
        world_forward_dir_z: le_i16_at(s, i + 28),
        world_right_dir_x: le_i16_at(s, i + 30),
        world_right_dir_y: le_i16_at(s, i + 32),
        world_right_dir_z: le_i16_at(s, i + 34),
        g_force_lateral: le_u32_at(s, i + 36),
        g_force_longitudinal: le_u32_at(s, i + 40),
        g_force_vertical: le_u32_at(s, i + 44),
        yaw: le_u32_at(s, i + 48),
        pitch: le_u32_at(s, i + 52),
        roll: le_u32_at(s, i + 56),
    }
}

impl MotionData {
    /// Decodes one per-car motion record at the cursor's position.
    /// Fails with `TruncatedData`, without moving the cursor, when fewer
    /// than [`MOTION_RECORD_SIZE`] bytes remain.
    pub fn new(cursor: &mut ByteCursor) -> (r: Result<MotionData, UnpackError>)
        requires
            old(cursor).wf(),
        ensures
            final(cursor).wf(),
            final(cursor).bytes() == old(cursor).bytes(),
            old(cursor).remaining() >= MOTION_RECORD_SIZE ==> {
                &&& r == Ok::<MotionData, UnpackError>(
                    spec_motion_record_at(old(cursor).bytes(), old(cursor).position()),
                )
                &&& final(cursor).position() == old(cursor).position() + MOTION_RECORD_SIZE
            },
            old(cursor).remaining() < MOTION_RECORD_SIZE ==> {
                &&& r == Err::<MotionData, UnpackError>(UnpackError::TruncatedData)
                &&& final(cursor).position() == old(cursor).position()
            },
    {
        if cursor.remaining_len() < MOTION_RECORD_SIZE {
            return Err(UnpackError::TruncatedData);
        }
        let world_position_x = cursor.read_f32_bits()?;
        let world_position_y = cursor.read_f32_bits()?;
        let world_position_z = cursor.read_f32_bits()?;
        let world_velocity_x = cursor.read_f32_bits()?;
        let world_velocity_y = cursor.read_f32_bits()?;
        let world_velocity_z = cursor.read_f32_bits()?;
        let world_forward_dir_x = cursor.read_i16()?;
        let world_forward_dir_y = cursor.read_i16()?;
        let world_forward_dir_z = cursor.read_i16()?;
        let world_right_dir_x = cursor.read_i16()?;
        let world_right_dir_y = cursor.read_i16()?;
        let world_right_dir_z = cursor.read_i16()?;
        let g_force_lateral = cursor.read_f32_bits()?;
        let g_force_longitudinal = cursor.read_f32_bits()?;
        let g_force_vertical = cursor.read_f32_bits()?;
        let yaw = cursor.read_f32_bits()?;
        let pitch = cursor.read_f32_bits()?;
        let roll = cursor.read_f32_bits()?;
        Ok(
            MotionData {
                world_position_x,
                world_position_y,
                world_position_z,
                world_velocity_x,
                world_velocity_y,
                world_velocity_z,
                world_forward_dir_x,
                world_forward_dir_y,
                world_forward_dir_z,
                world_right_dir_x,
                world_right_dir_y,
                world_right_dir_z,
                g_force_lateral,
                g_force_longitudinal,
                g_force_vertical,
                yaw,
                pitch,
                roll,
            },
        )
    }
}

/// One fully decoded motion packet: a header, the per-car records in
/// car-index order, and the player-car-only extras.
#[derive(Debug, Clone, PartialEq)]
pub struct PacketMotionData {
    pub header: PacketHeader,
    pub motion_data: Vec<MotionData>,
    pub suspension_position: WheelData<u32>,
    pub suspension_velocity: WheelData<u32>,
    pub suspension_acceleration: WheelData<u32>,
    pub wheel_speed: WheelData<u32>,
    pub wheel_slip: WheelData<u32>,
    pub local_velocity_x: u32,
    pub local_velocity_y: u32,
    pub local_velocity_z: u32,
    pub angular_velocity_x: u32,
    pub angular_velocity_y: u32,
    pub angular_velocity_z: u32,
    pub angular_acceleration_x: u32,
    pub angular_acceleration_y: u32,
    pub angular_acceleration_z: u32,
    pub front_wheels_angle: u32,
}

/// Holds exactly when `p` is the motion packet whose payload is stored at
/// offset `i` of `s` and whose header is `h`.  Every field of `p` is
/// pinned down, so any two packets matching the same bytes are
/// value-equal.
pub open spec fn spec_motion_packet_matches(
    p: PacketMotionData,
    s: Seq<u8>,
    i: int,
    h: PacketHeader,
) -> bool
    recommends
        0 <= i,
        i + MOTION_PAYLOAD_SIZE <= s.len(),
{
    &&& p.header == h
    &&& p.motion_data@.len() == NUM_CARS
    &&& forall|k: int|
        0 <= k < NUM_CARS ==> #[trigger] p.motion_data@[k] == spec_motion_record_at(
            s,
            i + (MOTION_RECORD_SIZE as int) * k,
        )
    &&& p.suspension_position == spec_wheel_quad_at(s, i + 1200)
    &&& p.suspension_velocity == spec_wheel_quad_at(s, i + 1216)
    &&& p.suspension_acceleration == spec_wheel_quad_at(s, i + 1232)
    &&& p.wheel_speed == spec_wheel_quad_at(s, i + 1248)
    &&& p.wheel_slip == spec_wheel_quad_at(s, i + 1264)
    &&& p.local_velocity_x == le_u32_at(s, i + 1280)
    &&& p.local_velocity_y == le_u32_at(s, i + 1284)
    &&& p.local_velocity_z == le_u32_at(s, i + 1288)
    &&& p.angular_velocity_x == le_u32_at(s, i + 1292)
    &&& p.angular_velocity_y == le_u32_at(s, i + 1296)
    &&& p.angular_velocity_z == le_u32_at(s, i + 1300)
    &&& p.angular_acceleration_x == le_u32_at(s, i + 1304)
    &&& p.angular_acceleration_y == le_u32_at(s, i + 1308)
    &&& p.angular_acceleration_z == le_u32_at(s, i + 1312)
    &&& p.front_wheels_angle == le_u32_at(s, i + 1316)
}

impl PacketMotionData {
    /// Decodes the motion packet's payload at the cursor's position,
    /// which must stand immediately after the already-decoded header
    /// `header`.  Reads the twenty per-car records in car-index order,
    /// then the player-car extras.  Fails with `TruncatedData`, without
    /// moving the cursor, when fewer than [`MOTION_PAYLOAD_SIZE`] bytes
    /// remain.
    pub fn new(cursor: &mut ByteCursor, header: PacketHeader) -> (r: Result<
        PacketMotionData,
        UnpackError,
    >)
        requires
            old(cursor).wf(),
        ensures
            final(cursor).wf(),
            final(cursor).bytes() == old(cursor).bytes(),
            old(cursor).remaining() >= MOTION_PAYLOAD_SIZE ==> {
                &&& r matches Ok(p) && spec_motion_packet_matches(
                    p,
                    old(cursor).bytes(),
                    old(cursor).position(),
                    header,
                )
                &&& final(cursor).position() == old(cursor).position() + MOTION_PAYLOAD_SIZE
            },
            old(cursor).remaining() < MOTION_PAYLOAD_SIZE ==> {
                &&& r == Err::<PacketMotionData, UnpackError>(UnpackError::TruncatedData)
                &&& final(cursor).position() == old(cursor).position()
            },
    {
        if cursor.remaining_len() < MOTION_PAYLOAD_SIZE {
            return Err(UnpackError::TruncatedData);
        }
        let ghost s = cursor.bytes();
        let ghost i0 = cursor.position();

        let mut motion_data: Vec<MotionData> = Vec::new();
        let mut k: usize = 0;
        while k < NUM_CARS
            invariant
                cursor.wf(),
                cursor.bytes() == s,
                i0 + MOTION_PAYLOAD_SIZE <= s.len(),
                0 <= k <= NUM_CARS,
                cursor.position() == i0 + (MOTION_RECORD_SIZE as int) * k,
                motion_data@.len() == k,
                forall|j: int|
                    0 <= j < k ==> #[trigger] motion_data@[j] == spec_motion_record_at(
                        s,
                        i0 + (MOTION_RECORD_SIZE as int) * j,
                    ),
            decreases NUM_CARS - k,
        {
            let md = MotionData::new(cursor)?;
            motion_data.push(md);
            k = k + 1;
        }

        let suspension_position = read_wheel_quad(cursor)?;
        let suspension_velocity = read_wheel_quad(cursor)?;
        let suspension_acceleration = read_wheel_quad(cursor)?;
        let wheel_speed = read_wheel_quad(cursor)?;
        let wheel_slip = read_wheel_quad(cursor)?;
        let local_velocity_x = cursor.read_f32_bits()?;
        let local_velocity_y = cursor.read_f32_bits()?;
        let local_velocity_z = cursor.read_f32_bits()?;
        let angular_velocity_x = cursor.read_f32_bits()?;
        let angular_velocity_y = cursor.read_f32_bits()?;
        let angular_velocity_z = cursor.read_f32_bits()?;
        let angular_acceleration_x = cursor.read_f32_bits()?;
        let angular_acceleration_y = cursor.read_f32_bits()?;
        let angular_acceleration_z = cursor.read_f32_bits()?;
        let front_wheels_angle = cursor.read_f32_bits()?;
        Ok(
            PacketMotionData {
                header,
                motion_data,
                suspension_position,
                suspension_velocity,
                suspension_acceleration,
                wheel_speed,
                wheel_slip,
                local_velocity_x,
                local_velocity_y,
                local_velocity_z,
                angular_velocity_x,
                angular_velocity_y,
                angular_velocity_z,
                angular_acceleration_x,
                angular_acceleration_y,
                angular_acceleration_z,
                front_wheels_angle,
            },
        )
    }
}

} // verus!
