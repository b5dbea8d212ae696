//! The telemetry frame: its fields, the byte layout that holds them, and
//! the decoder from an encrypted frame to the record.
//!
//! Numbers that the console sends as IEEE 754 single precision are kept as
//! their 32 bits ([`Float32`]); nothing here computes with them.

use crate::constants::{PACKET_MAGIC_VALUE, PACKET_SIZE};
use crate::cypher::{
    decrypt, decrypted, fixed_key, frame_nonce, lemma_xor_twice, salsa20_keystream, xor_bytes,
};
use crate::errors::ParsePacketError;
use crate::flags::PacketFlags;
use crate::wire::{
    le_i16, le_i32, le_u16, le_u32, lemma_u32_le_round_trip, read_i16_le, read_i32_le,
    read_u16_le, read_u32_le, u32_le_bytes,
};
use vstd::prelude::*;
use vstd::slice::slice_subrange;

verus! {

/// A single-precision number as the 32 bits that encode it.
#[derive(Debug, Clone, Copy, PartialEq, Eq, Hash, Structural)]
pub struct Float32 {
    /// The IEEE 754 binary32 encoding.
    pub bits: u32,
}

impl Float32 {
    /// The number whose encoding is `bits`.
    pub fn from_bits(bits: u32) -> (value: Float32)
        ensures
            value.bits == bits,
    {
        Float32 { bits }
    }

    /// The encoding of the number.
    pub fn to_bits(self) -> (bits: u32)
        ensures
            bits == self.bits,
    {
        self.bits
    }
}

/// One decoded telemetry frame.
#[derive(Debug, Clone, Copy, PartialEq)]
pub struct Packet {
    /// Position of the car in the world, x, y, z.
    pub position: [Float32; 3],
    /// Velocity of the car, x, y, z.
    pub velocity: [Float32; 3],
    /// Rotation of the car: pitch, yaw, roll.
    pub rotation: [Float32; 3],
    /// Heading relative to north.
    pub relative_orientation_to_north: Float32,
    /// Angular velocity, x, y, z.
    pub angular_velocity: [Float32; 3],
    /// Ride height of the body.
    pub body_height: Float32,
    /// Engine speed in revolutions per minute.
    pub engine_rpm: Float32,
    /// Fuel left.
    pub gas_level: Float32,
    /// Fuel the tank holds.
    pub gas_capacity: Float32,
    /// Speed of the car.
    pub meters_per_second: Float32,
    /// Turbo boost pressure.
    pub turbo_boost: Float32,
    /// Oil pressure.
    pub oil_pressure: Float32,
    /// Water temperature.
    pub water_temperature: Float32,
    /// Oil temperature.
    pub oil_temperature: Float32,
    /// Surface temperature of the front left tire.
    pub tire_fl_surface_temperature: Float32,
    /// Surface temperature of the front right tire.
    pub tire_fr_surface_temperature: Float32,
    /// Surface temperature of the rear left tire.
    pub tire_rl_surface_temperature: Float32,
    /// Surface temperature of the rear right tire.
    pub tire_rr_surface_temperature: Float32,
    /// Running number of the frame.
    pub packet_id: i32,
    /// Lap the car is on.
    pub lap_count: i16,
    /// Laps the race has; zero outside a race.
    pub laps_in_race: i16,
    /// Best lap time in milliseconds.
    pub best_lap_time: i32,
    /// Last lap time in milliseconds.
    pub last_lap_time: i32,
    /// Time of day on the track in milliseconds.
    pub time_of_day_progression: i32,
    /// Grid position before the race.
    pub qualifying_position: i16,
    /// Number of cars before the race.
    pub num_cars_pre_race: i16,
    /// Engine speed at which the rev alert starts.
    pub alert_rpm_min: i16,
    /// Engine speed at which the rev limiter cuts in.
    pub alert_rpm_max: i16,
    /// Top speed the game estimates for the car.
    pub calculated_max_speed: i16,
    /// Car and session states; absent where the frame holds an undefined bit.
    pub flags: Option<PacketFlags>,
    /// Gear engaged: the low four bits of the gear byte.
    pub current_gear: u8,
    /// Gear the game suggests: the high four bits of the gear byte.
    pub suggested_gear: u8,
    /// Throttle pedal, 0 to 255.
    pub throttle: u8,
    /// Brake pedal, 0 to 255.
    pub brake: u8,
    /// Normal of the road surface under the car.
    pub road_plane: [Float32; 3],
    /// Distance of the road surface.
    pub road_plane_distance: Float32,
    /// Rotation of the front left wheel in radians per second.
    pub wheel_fl_rps: Float32,
    /// Rotation of the front right wheel in radians per second.
    pub wheel_fr_rps: Float32,
    /// Rotation of the rear left wheel in radians per second.
    pub wheel_rl_rps: Float32,
    /// Rotation of the rear right wheel in radians per second.
    pub wheel_rr_rps: Float32,
    /// Radius of the front left tire.
    pub tire_fl_radius: Float32,
    /// Radius of the front right tire.
    pub tire_fr_radius: Float32,
    /// Radius of the rear left tire.
    pub tire_rl_radius: Float32,
    /// Radius of the rear right tire.
    pub tire_rr_radius: Float32,
    /// Suspension travel at the front left.
    pub tire_fl_suspension_height: Float32,
    /// Suspension travel at the front right.
    pub tire_fr_suspension_height: Float32,
    /// Suspension travel at the rear left.
    pub tire_rl_suspension_height: Float32,
    /// Suspension travel at the rear right.
    pub tire_rr_suspension_height: Float32,
    /// Clutch pedal position.
    pub clutch_pedal: Float32,
    /// Clutch engagement.
    pub clutch_engagement: Float32,
    /// Engine speed past the clutch.
    pub rpm_from_clutch_to_gearbox: Float32,
    /// Top speed of the transmission, as a gear ratio.
    pub transmission_top_speed: Float32,
    /// Ratios of gears one to seven.
    pub gear_ratios: [Float32; 7],
    /// Identifier of the car.
    pub car_code: i32,
}

/// The unsigned 16-bit field at offset `at`.
pub open spec fn u16_at(plain: Seq<u8>, at: int) -> u16 {
    le_u16(plain.subrange(at, at + 2))
}

/// The signed 16-bit field at offset `at`.
pub open spec fn i16_at(plain: Seq<u8>, at: int) -> i16 {
    le_i16(plain.subrange(at, at + 2))
}

/// The unsigned 32-bit field at offset `at`.
pub open spec fn u32_at(plain: Seq<u8>, at: int) -> u32 {
    le_u32(plain.subrange(at, at + 4))
}

/// The signed 32-bit field at offset `at`.
pub open spec fn i32_at(plain: Seq<u8>, at: int) -> i32 {
    le_i32(plain.subrange(at, at + 4))
}

/// The single-precision field at offset `at`.
pub open spec fn float_at(plain: Seq<u8>, at: int) -> Float32 {
    Float32 { bits: u32_at(plain, at) }
}

/// The three single-precision fields from offset `at` on.
pub open spec fn triple_at(plain: Seq<u8>, at: int) -> [Float32; 3] {
    [float_at(plain, at), float_at(plain, at + 4), float_at(plain, at + 8)]
}

/// The seven gear ratios from offset `at` on.
pub open spec fn ratios_at(plain: Seq<u8>, at: int) -> [Float32; 7] {
    [
        float_at(plain, at),
        float_at(plain, at + 4),
        float_at(plain, at + 8),
        float_at(plain, at + 12),
        float_at(plain, at + 16),
        float_at(plain, at + 20),
        float_at(plain, at + 24),
    ]
}

/// The marker that a plaintext opens with.
pub open spec fn magic_of(plain: Seq<u8>) -> u32
    recommends
        plain.len() >= 4,
{
    u32_at(plain, 0)
}

/// The record that a plaintext of at least [`PACKET_SIZE`] bytes holds: each
/// field at its offset. Bytes 64 to 67, 147, 212 to 243 and 288 to 291 are
/// reserved and belong to no field.
pub open spec fn frame_of(plain: Seq<u8>) -> Packet
    recommends
        plain.len() >= PACKET_SIZE,
{
    Packet {
        position: triple_at(plain, 4),
        velocity: triple_at(plain, 16),
        rotation: triple_at(plain, 28),
        relative_orientation_to_north: float_at(plain, 40),
        angular_velocity: triple_at(plain, 44),
        body_height: float_at(plain, 56),
        engine_rpm: float_at(plain, 60),
        gas_level: float_at(plain, 68),
        gas_capacity: float_at(plain, 72),
        meters_per_second: float_at(plain, 76),
        turbo_boost: float_at(plain, 80),
        oil_pressure: float_at(plain, 84),
        water_temperature: float_at(plain, 88),
        oil_temperature: float_at(plain, 92),
        tire_fl_surface_temperature: float_at(plain, 96),
        tire_fr_surface_temperature: float_at(plain, 100),
        tire_rl_surface_temperature: float_at(plain, 104),
        tire_rr_surface_temperature: float_at(plain, 108),
        packet_id: i32_at(plain, 112),
        lap_count: i16_at(plain, 116),
        laps_in_race: i16_at(plain, 118),
        best_lap_time: i32_at(plain, 120),
        last_lap_time: i32_at(plain, 124),
        time_of_day_progression: i32_at(plain, 128),
        qualifying_position: i16_at(plain, 132),
        num_cars_pre_race: i16_at(plain, 134),
        alert_rpm_min: i16_at(plain, 136),
        alert_rpm_max: i16_at(plain, 138),
        calculated_max_speed: i16_at(plain, 140),
        flags: PacketFlags::spec_from_bits(u16_at(plain, 142)),
        current_gear: plain[144] & 0x0f,
        suggested_gear: plain[144] >> 4,
        throttle: plain[145],
        brake: plain[146],
        road_plane: triple_at(plain, 148),
        road_plane_distance: float_at(plain, 160),
        wheel_fl_rps: float_at(plain, 164),
        wheel_fr_rps: float_at(plain, 168),
        wheel_rl_rps: float_at(plain, 172),
        wheel_rr_rps: float_at(plain, 176),
        tire_fl_radius: float_at(plain, 180),
        tire_fr_radius: float_at(plain, 184),
        tire_rl_radius: float_at(plain, 188),
        tire_rr_radius: float_at(plain, 192),
        tire_fl_suspension_height: float_at(plain, 196),
        tire_fr_suspension_height: float_at(plain, 200),
        tire_rl_suspension_height: float_at(plain, 204),
        tire_rr_suspension_height: float_at(plain, 208),
        clutch_pedal: float_at(plain, 244),
        clutch_engagement: float_at(plain, 248),
        rpm_from_clutch_to_gearbox: float_at(plain, 252),
        transmission_top_speed: float_at(plain, 256),
        gear_ratios: ratios_at(plain, 260),
        car_code: i32_at(plain, 292),
    }
}

/// What parsing makes of a plaintext: a short read where the marker or the
/// layout does not fit, the marker found where it is not the protocol's,
/// else the record.
pub open spec fn parsed(plain: Seq<u8>) -> Result<Packet, ParsePacketError> {
    if plain.len() < 4 {
        Err(ParsePacketError::ReadError(plain.len() as usize))
    } else if magic_of(plain) != PACKET_MAGIC_VALUE {
        Err(ParsePacketError::InvalidMagicValue(magic_of(plain)))
    } else if plain.len() < PACKET_SIZE {
        Err(ParsePacketError::ReadError(plain.len() as usize))
    } else {
        Ok(frame_of(plain))
    }
}

/// What decoding makes of an encrypted frame under `key`.
pub open spec fn decoded_with(data: Seq<u8>, key: Seq<u8>) -> Result<Packet, ParsePacketError> {
    match decrypted(data, key) {
        Ok(plain) => parsed(plain),
        Err(e) => Err(ParsePacketError::DecryptionError(e)),
    }
}

/// What decoding makes of an encrypted frame under the fixed key.
pub open spec fn decoded(data: Seq<u8>) -> Result<Packet, ParsePacketError> {
    decoded_with(data, fixed_key())
}

/// The record with every number zero and no flag set.
pub open spec fn zeroed() -> Packet {
    Packet {
        position: [Float32 { bits: 0 }, Float32 { bits: 0 }, Float32 { bits: 0 }],
        velocity: [Float32 { bits: 0 }, Float32 { bits: 0 }, Float32 { bits: 0 }],
        rotation: [Float32 { bits: 0 }, Float32 { bits: 0 }, Float32 { bits: 0 }],
        relative_orientation_to_north: Float32 { bits: 0 },
        angular_velocity: [Float32 { bits: 0 }, Float32 { bits: 0 }, Float32 { bits: 0 }],
        body_height: Float32 { bits: 0 },
        engine_rpm: Float32 { bits: 0 },
        gas_level: Float32 { bits: 0 },
        gas_capacity: Float32 { bits: 0 },
        meters_per_second: Float32 { bits: 0 },
        turbo_boost: Float32 { bits: 0 },
        oil_pressure: Float32 { bits: 0 },
        water_temperature: Float32 { bits: 0 },
        oil_temperature: Float32 { bits: 0 },
        tire_fl_surface_temperature: Float32 { bits: 0 },
        tire_fr_surface_temperature: Float32 { bits: 0 },
        tire_rl_surface_temperature: Float32 { bits: 0 },
        tire_rr_surface_temperature: Float32 { bits: 0 },
        packet_id: 0,
        lap_count: 0,
        laps_in_race: 0,
        best_lap_time: 0,
        last_lap_time: 0,
        time_of_day_progression: 0,
        qualifying_position: 0,
        num_cars_pre_race: 0,
        alert_rpm_min: 0,
        alert_rpm_max: 0,
        calculated_max_speed: 0,
        flags: None,
        current_gear: 0,
        suggested_gear: 0,
        throttle: 0,
        brake: 0,
        road_plane: [Float32 { bits: 0 }, Float32 { bits: 0 }, Float32 { bits: 0 }],
        road_plane_distance: Float32 { bits: 0 },
        wheel_fl_rps: Float32 { bits: 0 },
        wheel_fr_rps: Float32 { bits: 0 },
        wheel_rl_rps: Float32 { bits: 0 },
        wheel_rr_rps: Float32 { bits: 0 },
        tire_fl_radius: Float32 { bits: 0 },
        tire_fr_radius: Float32 { bits: 0 },
        tire_rl_radius: Float32 { bits: 0 },
        tire_rr_radius: Float32 { bits: 0 },
        tire_fl_suspension_height: Float32 { bits: 0 },
        tire_fr_suspension_height: Float32 { bits: 0 },
        tire_rl_suspension_height: Float32 { bits: 0 },
        tire_rr_suspension_height: Float32 { bits: 0 },
        clutch_pedal: Float32 { bits: 0 },
        clutch_engagement: Float32 { bits: 0 },
        rpm_from_clutch_to_gearbox: Float32 { bits: 0 },
        transmission_top_speed: Float32 { bits: 0 },
        gear_ratios: [Float32 { bits: 0 }, Float32 { bits: 0 }, Float32 { bits: 0 }, Float32 { bits: 0 }, Float32 { bits: 0 }, Float32 { bits: 0 }, Float32 { bits: 0 }],
        car_code: 0,
    }
}

/// A position in a plaintext from which the fields are taken one after the
/// other.
struct FrameReader<'a> {
    bytes: &'a [u8],
    len: usize,
    pos: usize,
}

impl<'a> FrameReader<'a> {
    /// Whether `count` more bytes can be taken.
    spec fn has(&self, count: int) -> bool {
        self.len == self.bytes@.len() && self.pos + count <= self.len
    }

    /// Whether the reader is `before` moved on by `count` bytes.
    spec fn moved_on(&self, before: FrameReader<'a>, count: int) -> bool {
        self.bytes@ == before.bytes@ && self.len == before.len && self.pos == before.pos + count
    }

    fn new(bytes: &'a [u8]) -> (reader: FrameReader<'a>)
        ensures
            reader.bytes@ == bytes@,
            reader.pos == 0,
            reader.has(bytes@.len() as int),
    {
        FrameReader { bytes, len: bytes.len(), pos: 0 }
    }

    fn skip(&mut self, count: usize)
        requires
            old(self).has(count as int),
        ensures
            final(self).moved_on(*old(self), count as int),
    {
        self.pos = self.pos + count;
    }

    fn byte(&mut self) -> (value: u8)
        requires
            old(self).has(1),
        ensures
            final(self).moved_on(*old(self), 1),
            value == old(self).bytes@[old(self).pos as int],
    {
        let value = self.bytes[self.pos];
        self.pos = self.pos + 1;
        value
    }

    fn uint16(&mut self) -> (value: u16)
        requires
            old(self).has(2),
        ensures
            final(self).moved_on(*old(self), 2),
            value == u16_at(old(self).bytes@, old(self).pos as int),
    {
        let value = read_u16_le(slice_subrange(self.bytes, self.pos, self.pos + 2));
        self.pos = self.pos + 2;
        value
    }

    fn int16(&mut self) -> (value: i16)
        requires
            old(self).has(2),
        ensures
            final(self).moved_on(*old(self), 2),
            value == i16_at(old(self).bytes@, old(self).pos as int),
    {
        let value = read_i16_le(slice_subrange(self.bytes, self.pos, self.pos + 2));
        self.pos = self.pos + 2;
        value
    }

    fn uint32(&mut self) -> (value: u32)
        requires
            old(self).has(4),
        ensures
            final(self).moved_on(*old(self), 4),
            value == u32_at(old(self).bytes@, old(self).pos as int),
    {
        let value = read_u32_le(slice_subrange(self.bytes, self.pos, self.pos + 4));
        self.pos = self.pos + 4;
        value
    }

    fn int32(&mut self) -> (value: i32)
        requires
            old(self).has(4),
        ensures
            final(self).moved_on(*old(self), 4),
            value == i32_at(old(self).bytes@, old(self).pos as int),
    {
        let value = read_i32_le(slice_subrange(self.bytes, self.pos, self.pos + 4));
        self.pos = self.pos + 4;
        value
    }

    fn float(&mut self) -> (value: Float32)
        requires
            old(self).has(4),
        ensures
            final(self).moved_on(*old(self), 4),
            value == float_at(old(self).bytes@, old(self).pos as int),
    {
        Float32::from_bits(self.uint32())
    }

    fn triple(&mut self) -> (value: [Float32; 3])
        requires
            old(self).has(12),
        ensures
            final(self).moved_on(*old(self), 12),
            value == triple_at(old(self).bytes@, old(self).pos as int),
    {
        let x = self.float();
        let y = self.float();
        let z = self.float();
        [x, y, z]
    }

    fn ratios(&mut self) -> (value: [Float32; 7])
        requires
            old(self).has(28),
        ensures
            final(self).moved_on(*old(self), 28),
            value == ratios_at(old(self).bytes@, old(self).pos as int),
    {
        let first = self.float();
        let second = self.float();
        let third = self.float();
        let fourth = self.float();
        let fifth = self.float();
        let sixth = self.float();
        let seventh = self.float();
        [first, second, third, fourth, fifth, sixth, seventh]
    }
}

/// Accepts the protocol's marker and reports any other value as the one
/// that was found.
pub fn verify_magic_value(magic: u32) -> (outcome: Result<(), ParsePacketError>)
    ensures
        magic == PACKET_MAGIC_VALUE ==> outcome == Ok::<(), ParsePacketError>(()),
        magic != PACKET_MAGIC_VALUE ==> outcome == Err::<(), ParsePacketError>(
            ParsePacketError::InvalidMagicValue(magic),
        ),
{
    if magic != PACKET_MAGIC_VALUE {
        return Err(ParsePacketError::InvalidMagicValue(magic));
    }
    Ok(())
}

impl Packet {
    /// Reads the record out of a decrypted frame: the marker first, then
    /// the fields in the order the protocol lays them out, skipping the
    /// reserved bytes. Bytes past the layout are ignored.
    pub fn from_plaintext(plain: &[u8]) -> (outcome: Result<Packet, ParsePacketError>)
        ensures
            outcome == parsed(plain@),
    {
        let mut reader = FrameReader::new(plain);
        if plain.len() < 4 {
            return Err(ParsePacketError::ReadError(plain.len()));
        }
        let magic = reader.uint32();
        match verify_magic_value(magic) {
            Ok(()) => {},
            Err(e) => {
                return Err(e);
            },
        }
        if plain.len() < PACKET_SIZE {
            return Err(ParsePacketError::ReadError(plain.len()));
        }
        let position = reader.triple();
        let velocity = reader.triple();
        let rotation = reader.triple();
        let relative_orientation_to_north = reader.float();
        let angular_velocity = reader.triple();
        let body_height = reader.float();
        let engine_rpm = reader.float();
        reader.skip(4);
        let gas_level = reader.float();
        let gas_capacity = reader.float();
        let meters_per_second = reader.float();
        let turbo_boost = reader.float();
        let oil_pressure = reader.float();
        let water_temperature = reader.float();
        let oil_temperature = reader.float();
        let tire_fl_surface_temperature = reader.float();
        let tire_fr_surface_temperature = reader.float();
        let tire_rl_surface_temperature = reader.float();
        let tire_rr_surface_temperature = reader.float();
        let packet_id = reader.int32();
        let lap_count = reader.int16();
        let laps_in_race = reader.int16();
        let best_lap_time = reader.int32();
        let last_lap_time = reader.int32();
        let time_of_day_progression = reader.int32();
        let qualifying_position = reader.int16();
        let num_cars_pre_race = reader.int16();
        let alert_rpm_min = reader.int16();
        let alert_rpm_max = reader.int16();
        let calculated_max_speed = reader.int16();
        let flags = PacketFlags::from_bits(reader.uint16());
        let gears = reader.byte();
        let current_gear = gears & 0x0f;
        let suggested_gear = gears >> 4;
        let throttle = reader.byte();
        let brake = reader.byte();
        reader.skip(1);
        let road_plane = reader.triple();
        let road_plane_distance = reader.float();
        let wheel_fl_rps = reader.float();
        let wheel_fr_rps = reader.float();
        let wheel_rl_rps = reader.float();
        let wheel_rr_rps = reader.float();
        let tire_fl_radius = reader.float();
        let tire_fr_radius = reader.float();
        let tire_rl_radius = reader.float();
        let tire_rr_radius = reader.float();
        let tire_fl_suspension_height = reader.float();
        let tire_fr_suspension_height = reader.float();
        let tire_rl_suspension_height = reader.float();
        let tire_rr_suspension_height = reader.float();
        reader.skip(32);
        let clutch_pedal = reader.float();
        let clutch_engagement = reader.float();
        let rpm_from_clutch_to_gearbox = reader.float();
        let transmission_top_speed = reader.float();
        let gear_ratios = reader.ratios();
        reader.skip(4);
        let car_code = reader.int32();
        Ok(
            Packet {
                position,
                velocity,
                rotation,
                relative_orientation_to_north,
                angular_velocity,
                body_height,
                engine_rpm,
                gas_level,
                gas_capacity,
                meters_per_second,
                turbo_boost,
                oil_pressure,
                water_temperature,
                oil_temperature,
                tire_fl_surface_temperature,
                tire_fr_surface_temperature,
                tire_rl_surface_temperature,
                tire_rr_surface_temperature,
                packet_id,
                lap_count,
                laps_in_race,
                best_lap_time,
                last_lap_time,
                time_of_day_progression,
                qualifying_position,
                num_cars_pre_race,
                alert_rpm_min,
                alert_rpm_max,
                calculated_max_speed,
                flags,
                current_gear,
                suggested_gear,
                throttle,
                brake,
                road_plane,
                road_plane_distance,
                wheel_fl_rps,
                wheel_fr_rps,
                wheel_rl_rps,
                wheel_rr_rps,
                tire_fl_radius,
                tire_fr_radius,
                tire_rl_radius,
                tire_rr_radius,
                tire_fl_suspension_height,
                tire_fr_suspension_height,
                tire_rl_suspension_height,
                tire_rr_suspension_height,
                clutch_pedal,
                clutch_engagement,
                rpm_from_clutch_to_gearbox,
                transmission_top_speed,
                gear_ratios,
                car_code,
            },
        )
    }

    /// Decodes one encrypted frame: decrypts it under the fixed key and
    /// reads the record out of the plaintext.
    pub fn try_from(data: &[u8]) -> (outcome: Result<Packet, ParsePacketError>)
        ensures
            outcome == decoded(data@),
    {
        match decrypt(data) {
            Ok(plain) => Packet::from_plaintext(plain.as_slice()),
            Err(e) => Err(ParsePacketError::DecryptionError(e)),
        }
    }
}

/// `plain` with its first four bytes replaced by `marker`, little-endian.
pub open spec fn with_marker(plain: Seq<u8>, marker: u32) -> Seq<u8>
    recommends
        plain.len() >= 4,
{
    u32_le_bytes(marker) + plain.subrange(4, plain.len() as int)
}

/// A corrupted marker is reported as it was written. Where a frame
/// decrypts under a key, overwrite the plaintext's marker with any other
/// value and encrypt the result with the keystream of the frame's own
/// nonce: the new frame carries the same nonce seed, and decoding it fails
/// with exactly the value that was written.
pub proof fn lemma_corrupted_marker_is_reported(data: Seq<u8>, key: Seq<u8>, marker: u32)
    requires
        decrypted(data, key) is Ok,
        marker != PACKET_MAGIC_VALUE,
    ensures
        ({
            let plain = decrypted(data, key)->Ok_0;
            let stream = salsa20_keystream(key, frame_nonce(data), data.len())->Some_0;
            let resealed = xor_bytes(with_marker(plain, marker), stream);
            &&& frame_nonce(resealed) == frame_nonce(data)
            &&& decrypted(resealed, key) == Ok::<Seq<u8>, crate::errors::CypherError>(
                with_marker(plain, marker),
            )
            &&& decoded_with(resealed, key) == Err::<Packet, ParsePacketError>(
                ParsePacketError::InvalidMagicValue(marker),
            )
        }),
{
    let plain = decrypted(data, key)->Ok_0;
    let stream = salsa20_keystream(key, frame_nonce(data), data.len())->Some_0;
    let corrupted = with_marker(plain, marker);
    let resealed = xor_bytes(corrupted, stream);
    lemma_u32_le_round_trip(marker);
    assert(corrupted.len() == data.len());
    assert(resealed.len() == data.len());
    assert forall|i: int| 4 <= i < data.len() implies resealed[i] == data[i] by {
        let d = data[i];
        let s = stream[i];
        assert(corrupted[i] == plain[i]);
        assert((d ^ s) ^ s == d) by (bit_vector);
    }
    assert(resealed.subrange(64, 68) =~= data.subrange(64, 68));
    lemma_xor_twice(corrupted, stream);
    assert(corrupted.subrange(0, 4) =~= u32_le_bytes(marker));
}

impl Default for Packet {
    fn default() -> (packet: Packet)
        ensures
            packet == zeroed(),
    {
        let zero = Float32 { bits: 0 };
        Packet {
            position: [zero, zero, zero],
            velocity: [zero, zero, zero],
            rotation: [zero, zero, zero],
            relative_orientation_to_north: zero,
            angular_velocity: [zero, zero, zero],
            body_height: zero,
            engine_rpm: zero,
            gas_level: zero,
            gas_capacity: zero,
            meters_per_second: zero,
            turbo_boost: zero,
            oil_pressure: zero,
            water_temperature: zero,
            oil_temperature: zero,
            tire_fl_surface_temperature: zero,
            tire_fr_surface_temperature: zero,
            tire_rl_surface_temperature: zero,
            tire_rr_surface_temperature: zero,
            packet_id: 0,
            lap_count: 0,
            laps_in_race: 0,
            best_lap_time: 0,
            last_lap_time: 0,
            time_of_day_progression: 0,
            qualifying_position: 0,
            num_cars_pre_race: 0,
            alert_rpm_min: 0,
            alert_rpm_max: 0,
            calculated_max_speed: 0,
            flags: None,
            current_gear: 0,
            suggested_gear: 0,
            throttle: 0,
            brake: 0,
            road_plane: [zero, zero, zero],
            road_plane_distance: zero,
            wheel_fl_rps: zero,
            wheel_fr_rps: zero,
            wheel_rl_rps: zero,
            wheel_rr_rps: zero,
            tire_fl_radius: zero,
            tire_fr_radius: zero,
            tire_rl_radius: zero,
            tire_rr_radius: zero,
            tire_fl_suspension_height: zero,
            tire_fr_suspension_height: zero,
            tire_rl_suspension_height: zero,
            tire_rr_suspension_height: zero,
            clutch_pedal: zero,
            clutch_engagement: zero,
            rpm_from_clutch_to_gearbox: zero,
            transmission_top_speed: zero,
            gear_ratios: [zero, zero, zero, zero, zero, zero, zero],
            car_code: 0,
        }
    }
}

} // verus!
