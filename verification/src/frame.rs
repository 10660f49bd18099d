//! The measurement frame of the sensor and what it decodes to.
//!
//! A frame is 18 bytes: three fields of six bytes, for CO2, temperature and
//! humidity in that order. A field carries a 32-bit word, high byte first, in
//! its bytes 0, 1, 3 and 4; its bytes 2 and 5 are check bytes, which the
//! decoder passes over without looking at them. Each word is the bit pattern
//! of an IEEE-754 single-precision number, and is handed on as that pattern.

use vstd::prelude::*;

verus! {

/// The length of a measurement frame in bytes.
pub const FRAME_LEN: usize = 18;

/// Where the CO2 field starts in a frame.
pub const CO2_OFFSET: usize = 0;

/// Where the temperature field starts in a frame.
pub const TEMPERATURE_OFFSET: usize = 6;

/// Where the humidity field starts in a frame.
pub const HUMIDITY_OFFSET: usize = 12;

/// The bytes handed in cannot hold what was asked of them.
#[derive(Clone, Copy, Debug, PartialEq, Eq)]
pub struct ByteConversionError;

/// One reading of the sensor: the bit patterns of three single-precision
/// numbers, as one frame held them.
#[derive(Clone, Copy, Debug, PartialEq, Eq)]
pub struct Measurements {
    pub co2: u32,
    pub temperature: u32,
    pub humidity: u32,
}

/// The 32-bit word that four bytes spell, the first being the highest.
pub open spec fn word_of_bytes(b0: u8, b1: u8, b2: u8, b3: u8) -> u32 {
    (b0 as int * 0x100_0000 + b1 as int * 0x1_0000 + b2 as int * 0x100 + b3 as int) as u32
}

/// The word of the field that starts at `start`: its bytes 0, 1, 3 and 4.
pub open spec fn reading_bits(bytes: Seq<u8>, start: int) -> u32 {
    word_of_bytes(bytes[start], bytes[start + 1], bytes[start + 3], bytes[start + 4])
}

/// What a frame of 18 bytes decodes to.
pub open spec fn decoded(frame: Seq<u8>) -> Measurements {
    Measurements {
        co2: reading_bits(frame, CO2_OFFSET as int),
        temperature: reading_bits(frame, TEMPERATURE_OFFSET as int),
        humidity: reading_bits(frame, HUMIDITY_OFFSET as int),
    }
}

/// Whether byte `i` of a frame is a check byte: the third and the sixth of
/// each field.
pub open spec fn is_check_position(i: int) -> bool {
    i % 3 == 2
}

/// Two frames that hold the same data bytes; their check bytes may differ.
pub open spec fn same_data(frame: Seq<u8>, other: Seq<u8>) -> bool {
    forall|i: int| 0 <= i < 18 && !is_check_position(i) ==> frame[i] == other[i]
}

/// The six bytes of a field that carries `bits` between the given check bytes.
pub open spec fn field_of(bits: u32, check0: u8, check1: u8) -> Seq<u8> {
    seq![
        (bits / 0x100_0000) as u8,
        (bits / 0x1_0000 % 0x100) as u8,
        check0,
        (bits / 0x100 % 0x100) as u8,
        (bits % 0x100) as u8,
        check1,
    ]
}

/// The frame that carries `m`, with `checks[0]` to `checks[5]` in the six
/// check positions, in the order of the frame.
pub open spec fn frame_of(m: Measurements, checks: Seq<u8>) -> Seq<u8>
    recommends
        checks.len() == 6,
{
    field_of(m.co2, checks[0], checks[1]) + field_of(m.temperature, checks[2], checks[3])
        + field_of(m.humidity, checks[4], checks[5])
}

/// Reads the word of the field that starts at `start`. The field must lie
/// within `reading` up to its last data byte; otherwise nothing is read.
pub fn get_reading_from_bytes(reading: &[u8], start: usize) -> (result: Result<
    u32,
    ByteConversionError,
>)
    ensures
        start + 5 <= reading@.len() ==> result == Ok::<u32, ByteConversionError>(
            reading_bits(reading@, start as int),
        ),
        start + 5 > reading@.len() ==> result is Err,
{
    if reading.len() < 5 || start > reading.len() - 5 {
        return Err(ByteConversionError);
    }
    let b0: u32 = reading[start] as u32;
    let b1: u32 = reading[start + 1] as u32;
    let b2: u32 = reading[start + 3] as u32;
    let b3: u32 = reading[start + 4] as u32;
    Ok(b0 * 0x100_0000 + b1 * 0x1_0000 + b2 * 0x100 + b3)
}

/// The names under which the three measurements are handed on, in the order
/// of the frame.
pub open spec fn measurement_names() -> Seq<Seq<char>> {
    seq!["co2"@, "temperature"@, "humidity"@]
}

impl Measurements {
    /// The three bit patterns in the order of the frame.
    pub open spec fn values(self) -> Seq<u32> {
        seq![self.co2, self.temperature, self.humidity]
    }

    /// The measurements by name: always the same three names, each with the
    /// bit pattern of its value.
    pub fn entries(&self) -> (entries: Vec<(&'static str, u32)>)
        ensures
            entries@.len() == 3,
            forall|i: int|
                0 <= i < 3 ==> (#[trigger] entries@[i]).0@ == measurement_names()[i]
                    && entries@[i].1 == self.values()[i],
    {
        let mut entries: Vec<(&'static str, u32)> = Vec::new();
        entries.push(("co2", self.co2));
        entries.push(("temperature", self.temperature));
        entries.push(("humidity", self.humidity));
        entries
    }

    /// Decodes a frame. It must be 18 bytes long; the check bytes may hold
    /// anything.
    pub fn decode(frame: &[u8]) -> (result: Result<Measurements, ByteConversionError>)
        ensures
            frame@.len() == 18 ==> result == Ok::<Measurements, ByteConversionError>(
                decoded(frame@),
            ),
            frame@.len() != 18 ==> result is Err,
    {
        if frame.len() != FRAME_LEN {
            return Err(ByteConversionError);
        }
        let co2 = get_reading_from_bytes(frame, CO2_OFFSET);
        let temperature = get_reading_from_bytes(frame, TEMPERATURE_OFFSET);
        let humidity = get_reading_from_bytes(frame, HUMIDITY_OFFSET);
        match (co2, temperature, humidity) {
            (Ok(co2), Ok(temperature), Ok(humidity)) => Ok(
                Measurements { co2, temperature, humidity },
            ),
            _ => Err(ByteConversionError),
        }
    }
}

/// No two measurements go by the same name.
pub proof fn lemma_names_are_distinct()
    ensures
        measurement_names().len() == 3,
        forall|i: int, j: int|
            0 <= i < j < 3 ==> measurement_names()[i] != measurement_names()[j],
{
    reveal_strlit("co2");
    reveal_strlit("temperature");
    reveal_strlit("humidity");
    assert("co2"@.len() == 3);
    assert("temperature"@.len() == 11);
    assert("humidity"@.len() == 8);
}

/// A field gives back the word that it was made of, whatever its check bytes.
pub proof fn lemma_field_round_trip(bits: u32, check0: u8, check1: u8)
    ensures
        field_of(bits, check0, check1).len() == 6,
        reading_bits(field_of(bits, check0, check1), 0) == bits,
{
}

/// Decoding inverts framing: the frame that carries three words decodes to
/// those three words, whatever stands in its check positions.
pub proof fn lemma_decode_frame_of(m: Measurements, checks: Seq<u8>)
    requires
        checks.len() == 6,
    ensures
        frame_of(m, checks).len() == 18,
        decoded(frame_of(m, checks)) == m,
{
    let frame = frame_of(m, checks);
    lemma_field_round_trip(m.co2, checks[0], checks[1]);
    lemma_field_round_trip(m.temperature, checks[2], checks[3]);
    lemma_field_round_trip(m.humidity, checks[4], checks[5]);
    assert(frame.subrange(0, 6) =~= field_of(m.co2, checks[0], checks[1]));
    assert(frame.subrange(6, 12) =~= field_of(m.temperature, checks[2], checks[3]));
    assert(frame.subrange(12, 18) =~= field_of(m.humidity, checks[4], checks[5]));
}

/// The check bytes never bear on the result: two frames with the same data
/// bytes decode alike.
pub proof fn lemma_check_bytes_ignored(frame: Seq<u8>, other: Seq<u8>)
    requires
        same_data(frame, other),
    ensures
        decoded(frame) == decoded(other),
{
    assert(!is_check_position(0) && !is_check_position(1) && !is_check_position(3)
        && !is_check_position(4));
    assert(!is_check_position(6) && !is_check_position(7) && !is_check_position(9)
        && !is_check_position(10));
    assert(!is_check_position(12) && !is_check_position(13) && !is_check_position(15)
        && !is_check_position(16));
}

} // verus!
