//! The catalog of feature-report commands the keyboard understands.
//!
//! Each command binds one opcode to a request payload and a response shape.
//! `write_request` appends the command's payload to a request buffer;
//! `read_response` decodes the validated response payload into the typed
//! result, or reports which decode invariant failed.

use vstd::prelude::*;

use crate::error::ProtoError;
use crate::frame::{
    declared_payload_len, lemma_response_round_trip, response_frame_spec, response_header_ok,
};

verus! {

/// Opcode of [`Ping`].
pub const OP_PING: u8 = 0;

/// Opcode of [`GetVersion`].
pub const OP_GET_VERSION: u8 = 1;

/// Opcode of [`GetSerial`].
pub const OP_GET_SERIAL: u8 = 3;

/// Opcode of [`GetCurrentKeyboardProfileIndex`].
pub const OP_GET_CURRENT_KEYBOARD_PROFILE_INDEX: u8 = 11;

/// Opcode of [`ActivateProfile`].
pub const OP_ACTIVATE_PROFILE: u8 = 23;

/// Opcode of [`GetRgbProfileColorsPart1`].
pub const OP_GET_RGB_PROFILE_COLORS_PART1: u8 = 35;

/// Opcode of [`GetRgbProfileColorsPart2`].
pub const OP_GET_RGB_PROFILE_COLORS_PART2: u8 = 36;

/// Opcode of [`ReloadProfile`].
pub const OP_RELOAD_PROFILE: u8 = 38;

/// Opcode of [`GetRgbProfileCore`].
pub const OP_GET_RGB_PROFILE_CORE: u8 = 50;

/// Largest profile index the keyboard stores: 0 is the digital profile,
/// 1 to 3 are the analog presets.
pub const MAX_PROFILE_INDEX: u8 = 3;

/// True exactly for the profile indices the keyboard stores.
pub fn valid_profile_index(index: u8) -> (r: bool)
    ensures
        r == (index <= MAX_PROFILE_INDEX),
{
    index <= MAX_PROFILE_INDEX
}

/// The 16-bit value little-endian encoded as `lo` then `hi`.
pub open spec fn u16_from_le(lo: u8, hi: u8) -> u16 {
    (lo + hi * 256) as u16
}

/// Low byte of the little-endian encoding of `x`.
pub open spec fn u16_lo(x: u16) -> u8 {
    (x % 256) as u8
}

/// High byte of the little-endian encoding of `x`.
pub open spec fn u16_hi(x: u16) -> u8 {
    (x / 256) as u8
}

/// Law: reading back the two little-endian bytes of a 16-bit value gives
/// that value.
pub proof fn lemma_u16_le_round_trip(x: u16)
    ensures
        u16_from_le(u16_lo(x), u16_hi(x)) == x,
{
}

/// Reads the 16-bit little-endian value stored as `lo` then `hi`.
pub fn read_u16_le(lo: u8, hi: u8) -> (r: u16)
    ensures
        r == u16_from_le(lo, hi),
{
    (lo as u16) + (hi as u16) * 256
}

/// Connectivity check. The device answers with a single pong marker byte.
#[derive(Debug, Clone, Copy, PartialEq, Eq, Hash)]
pub struct Ping;

/// The byte a healthy device answers a ping with.
pub const PONG_MARKER: u8 = 255;

/// The decode of a ping response payload: the pong marker must be present.
pub open spec fn parse_ping(payload: Seq<u8>) -> Result<(), ProtoError> {
    if payload.len() < 1 {
        Err(ProtoError::UnexpectedEof)
    } else if payload[0] != PONG_MARKER {
        Err(ProtoError::InvalidPingAck)
    } else {
        Ok(())
    }
}

impl Ping {
    /// The command's one-byte opcode.
    pub fn opcode(&self) -> (r: u8)
        ensures
            r == OP_PING,
    {
        OP_PING
    }

    /// Decodes the response payload: succeeds exactly when the first byte is
    /// the pong marker.
    pub fn read_response(payload: &Vec<u8>) -> (r: Result<(), ProtoError>)
        ensures
            r == parse_ping(payload@),
    {
        if payload.len() < 1 {
            Err(ProtoError::UnexpectedEof)
        } else if payload[0] != PONG_MARKER {
            Err(ProtoError::InvalidPingAck)
        } else {
            Ok(())
        }
    }
}

/// Queries the firmware version, answered as major, minor and patch bytes.
#[derive(Debug, Clone, Copy, PartialEq, Eq, Hash)]
pub struct GetVersion;

/// The decode of a version response payload: the three version bytes in
/// order, present in full or not at all.
pub open spec fn parse_version(payload: Seq<u8>) -> Result<(u8, u8, u8), ProtoError> {
    if payload.len() < 3 {
        Err(ProtoError::UnexpectedEof)
    } else {
        Ok((payload[0], payload[1], payload[2]))
    }
}

/// Law: the three version bytes decode to themselves as a version triple.
pub proof fn lemma_version_round_trip(major: u8, minor: u8, patch: u8)
    ensures
        parse_version(seq![major, minor, patch]) == Ok::<(u8, u8, u8), ProtoError>(
            (major, minor, patch),
        ),
{
}

impl GetVersion {
    /// The command's one-byte opcode.
    pub fn opcode(&self) -> (r: u8)
        ensures
            r == OP_GET_VERSION,
    {
        OP_GET_VERSION
    }

    /// Decodes the response payload into (major, minor, patch).
    pub fn read_response(payload: &Vec<u8>) -> (r: Result<(u8, u8, u8), ProtoError>)
        ensures
            r == parse_version(payload@),
    {
        if payload.len() < 3 {
            Err(ProtoError::UnexpectedEof)
        } else {
            Ok((payload[0], payload[1], payload[2]))
        }
    }
}

/// Where in its production life a device was built.
#[derive(Debug, Clone, Copy, PartialEq, Eq, Hash, Structural)]
pub enum ProductionStage {
    Mass,
    PVT,
    DVT,
    EVT,
    Prototype,
}

/// The production stage a serial-number byte denotes, if any.
pub open spec fn stage_from_byte(b: u8) -> Option<ProductionStage> {
    if b == 0 {
        Some(ProductionStage::Mass)
    } else if b == 1 {
        Some(ProductionStage::PVT)
    } else if b == 2 {
        Some(ProductionStage::DVT)
    } else if b == 3 {
        Some(ProductionStage::EVT)
    } else if b == 4 {
        Some(ProductionStage::Prototype)
    } else {
        None
    }
}

impl ProductionStage {
    /// The wire byte that denotes this stage.
    pub open spec fn to_byte(self) -> u8 {
        match self {
            ProductionStage::Mass => 0,
            ProductionStage::PVT => 1,
            ProductionStage::DVT => 2,
            ProductionStage::EVT => 3,
            ProductionStage::Prototype => 4,
        }
    }

    /// Decodes a serial-number byte into the stage it denotes; an unknown
    /// byte is `None`, never an error.
    pub fn from_byte(b: u8) -> (r: Option<ProductionStage>)
        ensures
            r == stage_from_byte(b),
    {
        match b {
            0 => Some(ProductionStage::Mass),
            1 => Some(ProductionStage::PVT),
            2 => Some(ProductionStage::DVT),
            3 => Some(ProductionStage::EVT),
            4 => Some(ProductionStage::Prototype),
            _ => None,
        }
    }
}

/// Law: every production stage decodes back from the byte that encodes it.
pub proof fn lemma_stage_round_trip(stage: ProductionStage)
    ensures
        stage_from_byte(stage.to_byte()) == Some(stage),
{
}

/// The identity record a device reports: all fields little-endian integers,
/// the production stage `None` where the device reports an unknown byte.
#[derive(Debug, Clone, Copy, PartialEq, Eq, Hash)]
pub struct Serial {
    pub supplier_number: u16,
    pub year: u8,
    pub week_number: u8,
    pub product_number: u16,
    pub revision_number: u16,
    pub product_id: u16,
    pub production_stage: Option<ProductionStage>,
}

/// The decode of a serial response payload: six little-endian fields then
/// the production-stage byte, present in full or not at all.
pub open spec fn parse_serial(payload: Seq<u8>) -> Result<Serial, ProtoError> {
    if payload.len() < 11 {
        Err(ProtoError::UnexpectedEof)
    } else {
        Ok(
            Serial {
                supplier_number: u16_from_le(payload[0], payload[1]),
                year: payload[2],
                week_number: payload[3],
                product_number: u16_from_le(payload[4], payload[5]),
                revision_number: u16_from_le(payload[6], payload[7]),
                product_id: u16_from_le(payload[8], payload[9]),
                production_stage: stage_from_byte(payload[10]),
            },
        )
    }
}

/// The 11 wire bytes that encode a serial record. A record without a known
/// production stage is written with an unassigned stage byte.
pub open spec fn serial_bytes(s: Serial) -> Seq<u8> {
    seq![
        u16_lo(s.supplier_number),
        u16_hi(s.supplier_number),
        s.year,
        s.week_number,
        u16_lo(s.product_number),
        u16_hi(s.product_number),
        u16_lo(s.revision_number),
        u16_hi(s.revision_number),
        u16_lo(s.product_id),
        u16_hi(s.product_id),
        match s.production_stage {
            Some(stage) => stage.to_byte(),
            None => 255u8,
        },
    ]
}

/// Law: a serial record decodes back from the bytes that encode it.
pub proof fn lemma_serial_round_trip(s: Serial)
    ensures
        parse_serial(serial_bytes(s)) == Ok::<Serial, ProtoError>(s),
{
    lemma_u16_le_round_trip(s.supplier_number);
    lemma_u16_le_round_trip(s.product_number);
    lemma_u16_le_round_trip(s.revision_number);
    lemma_u16_le_round_trip(s.product_id);
    match s.production_stage {
        Some(stage) => lemma_stage_round_trip(stage),
        None => (),
    }
}

/// Queries the device's serial-number record.
#[derive(Debug, Clone, Copy, PartialEq, Eq, Hash)]
pub struct GetSerial;

impl GetSerial {
    /// The command's one-byte opcode.
    pub fn opcode(&self) -> (r: u8)
        ensures
            r == OP_GET_SERIAL,
    {
        OP_GET_SERIAL
    }

    /// Decodes the response payload into the serial record. An unknown
    /// production-stage byte yields `None` rather than failing.
    pub fn read_response(payload: &Vec<u8>) -> (r: Result<Serial, ProtoError>)
        ensures
            r == parse_serial(payload@),
    {
        if payload.len() < 11 {
            Err(ProtoError::UnexpectedEof)
        } else {
            Ok(
                Serial {
                    supplier_number: read_u16_le(payload[0], payload[1]),
                    year: payload[2],
                    week_number: payload[3],
                    product_number: read_u16_le(payload[4], payload[5]),
                    revision_number: read_u16_le(payload[6], payload[7]),
                    product_id: read_u16_le(payload[8], payload[9]),
                    production_stage: ProductionStage::from_byte(payload[10]),
                },
            )
        }
    }
}

/// Queries which profile the keyboard currently has active.
#[derive(Debug, Clone, Copy, PartialEq, Eq, Hash)]
pub struct GetCurrentKeyboardProfileIndex;

/// The decode of a current-profile response payload: its first byte.
pub open spec fn parse_profile_index(payload: Seq<u8>) -> Result<u8, ProtoError> {
    if payload.len() < 1 {
        Err(ProtoError::UnexpectedEof)
    } else {
        Ok(payload[0])
    }
}

/// Law: a profile-index byte decodes to itself.
pub proof fn lemma_profile_index_round_trip(index: u8)
    ensures
        parse_profile_index(seq![index]) == Ok::<u8, ProtoError>(index),
{
}

impl GetCurrentKeyboardProfileIndex {
    /// The command's one-byte opcode.
    pub fn opcode(&self) -> (r: u8)
        ensures
            r == OP_GET_CURRENT_KEYBOARD_PROFILE_INDEX,
    {
        OP_GET_CURRENT_KEYBOARD_PROFILE_INDEX
    }

    /// Decodes the response payload into the profile-index byte.
    pub fn read_response(payload: &Vec<u8>) -> (r: Result<u8, ProtoError>)
        ensures
            r == parse_profile_index(payload@),
    {
        if payload.len() < 1 {
            Err(ProtoError::UnexpectedEof)
        } else {
            Ok(payload[0])
        }
    }
}

/// Asks the keyboard to make the profile with the carried index current.
/// Settings only apply once a [`ReloadProfile`] follows.
#[derive(Debug, Clone, Copy, PartialEq, Eq, Hash, PartialOrd, Ord)]
pub struct ActivateProfile(pub u8);

impl ActivateProfile {
    /// The command's one-byte opcode.
    pub fn opcode(&self) -> (r: u8)
        ensures
            r == OP_ACTIVATE_PROFILE,
    {
        OP_ACTIVATE_PROFILE
    }

    /// Appends the request payload: the one profile-index byte.
    pub fn write_request(&self, buffer: &mut Vec<u8>)
        ensures
            final(buffer)@ == old(buffer)@.push(self.0),
    {
        buffer.push(self.0);
    }

    /// The response carries no payload; nothing can fail.
    pub fn read_response(payload: &Vec<u8>) -> (r: Result<(), ProtoError>)
        ensures
            r === Ok(()),
    {
        Ok(())
    }
}

/// Asks the keyboard to re-apply the current profile's settings. Must follow
/// [`ActivateProfile`]: activation alone does not apply settings.
#[derive(Debug, Clone, Copy, PartialEq, Eq, Hash, PartialOrd, Ord)]
pub struct ReloadProfile;

impl ReloadProfile {
    /// The command's one-byte opcode.
    pub fn opcode(&self) -> (r: u8)
        ensures
            r == OP_RELOAD_PROFILE,
    {
        OP_RELOAD_PROFILE
    }

    /// The response carries no payload; nothing can fail.
    pub fn read_response(payload: &Vec<u8>) -> (r: Result<(), ProtoError>)
        ensures
            r === Ok(()),
    {
        Ok(())
    }
}

/// Reads the core record of the RGB profile with the carried index.
#[derive(Debug, Clone, Copy, PartialEq, Eq, Hash)]
pub struct GetRgbProfileCore(pub u8);

impl GetRgbProfileCore {
    /// The command's one-byte opcode.
    pub fn opcode(&self) -> (r: u8)
        ensures
            r == OP_GET_RGB_PROFILE_CORE,
    {
        OP_GET_RGB_PROFILE_CORE
    }

    /// Appends the request payload: the one profile-index byte.
    pub fn write_request(&self, buffer: &mut Vec<u8>)
        ensures
            final(buffer)@ == old(buffer)@.push(self.0),
    {
        buffer.push(self.0);
    }

    /// The response payload is returned raw and whole.
    pub fn read_response(payload: &Vec<u8>) -> (r: Result<Vec<u8>, ProtoError>)
        ensures
            r matches Ok(v) && v@ == payload@,
    {
        Ok(copy_bytes(payload))
    }
}

/// Reads the first half of the color table of the RGB profile with the
/// carried index.
#[derive(Debug, Clone, Copy, PartialEq, Eq, Hash)]
pub struct GetRgbProfileColorsPart1(pub u8);

impl GetRgbProfileColorsPart1 {
    /// The command's one-byte opcode.
    pub fn opcode(&self) -> (r: u8)
        ensures
            r == OP_GET_RGB_PROFILE_COLORS_PART1,
    {
        OP_GET_RGB_PROFILE_COLORS_PART1
    }

    /// Appends the request payload: the one profile-index byte.
    pub fn write_request(&self, buffer: &mut Vec<u8>)
        ensures
            final(buffer)@ == old(buffer)@.push(self.0),
    {
        buffer.push(self.0);
    }

    /// The response payload is returned raw and whole.
    pub fn read_response(payload: &Vec<u8>) -> (r: Result<Vec<u8>, ProtoError>)
        ensures
            r matches Ok(v) && v@ == payload@,
    {
        Ok(copy_bytes(payload))
    }
}

/// Reads the second half of the color table of the RGB profile with the
/// carried index.
#[derive(Debug, Clone, Copy, PartialEq, Eq, Hash)]
pub struct GetRgbProfileColorsPart2(pub u8);

impl GetRgbProfileColorsPart2 {
    /// The command's one-byte opcode.
    pub fn opcode(&self) -> (r: u8)
        ensures
            r == OP_GET_RGB_PROFILE_COLORS_PART2,
    {
        OP_GET_RGB_PROFILE_COLORS_PART2
    }

    /// Appends the request payload: the one profile-index byte.
    pub fn write_request(&self, buffer: &mut Vec<u8>)
        ensures
            final(buffer)@ == old(buffer)@.push(self.0),
    {
        buffer.push(self.0);
    }

    /// The response payload is returned raw and whole.
    pub fn read_response(payload: &Vec<u8>) -> (r: Result<Vec<u8>, ProtoError>)
        ensures
            r matches Ok(v) && v@ == payload@,
    {
        Ok(copy_bytes(payload))
    }
}

/// Law: the whole response path of a version report round-trips. A
/// well-formed response frame built from the three version bytes passes
/// validation against the version opcode, and the payload it declares
/// decodes to exactly that version triple.
pub proof fn lemma_version_frame_round_trip(major: u8, minor: u8, patch: u8)
    ensures
        ({
            let frame = response_frame_spec(OP_GET_VERSION, seq![major, minor, patch]);
            &&& response_header_ok(frame, OP_GET_VERSION)
            &&& parse_version(frame.subrange(5, 5 + declared_payload_len(frame)))
                == Ok::<(u8, u8, u8), ProtoError>((major, minor, patch))
        }),
{
    lemma_response_round_trip(OP_GET_VERSION, seq![major, minor, patch]);
}

/// Law: the whole response path of a serial report round-trips. A
/// well-formed response frame built from a serial record's wire bytes passes
/// validation against the serial opcode, and the payload it declares decodes
/// back to that record.
pub proof fn lemma_serial_frame_round_trip(s: Serial)
    ensures
        ({
            let frame = response_frame_spec(OP_GET_SERIAL, serial_bytes(s));
            &&& response_header_ok(frame, OP_GET_SERIAL)
            &&& parse_serial(frame.subrange(5, 5 + declared_payload_len(frame)))
                == Ok::<Serial, ProtoError>(s)
        }),
{
    lemma_response_round_trip(OP_GET_SERIAL, serial_bytes(s));
    lemma_serial_round_trip(s);
}

/// A fresh byte vector with the same contents as the given one.
fn copy_bytes(bytes: &Vec<u8>) -> (r: Vec<u8>)
    ensures
        r@ == bytes@,
{
    let mut out: Vec<u8> = Vec::new();
    let mut i: usize = 0;
    while i < bytes.len()
        invariant
            i <= bytes@.len(),
            out@ == bytes@.take(i as int),
        decreases bytes@.len() - i,
    {
        out.push(bytes[i]);
        proof {
            assert(bytes@.take(i + 1) =~= bytes@.take(i as int).push(bytes@[i as int]));
        }
        i += 1;
    }
    proof {
        assert(bytes@.take(bytes@.len() as int) =~= bytes@);
    }
    out
}

} // verus!
