use ptcrab::data::{FromRead, FromReadVar, WriteTo, WriteVarTo};
use ptcrab::ptvoice::{PtvEnvelope, PtvError, PtvUnit, PtvWave, Ptvoice};
use ptcrab::voice::VoiceFlags;
use ptcrab::{Key, PanVolume, Tuning, Volume};

fn encode<T: WriteTo>(value: &T) -> Vec<u8> {
    let mut out = Vec::new();
    assert_eq!(value.write_to(&mut out), Ok(0));
    out
}

fn decode<T: FromRead>(bytes: &[u8]) -> Result<T, PtvError> {
    let mut pos = 0usize;
    T::from_read(bytes, &mut pos)
}

fn var(v: u32) -> Vec<u8> {
    let mut out = Vec::new();
    v.write_var_to(&mut out).unwrap();
    out
}

fn unit_with(wave: Option<PtvWave>, envelope: Option<PtvEnvelope>) -> PtvUnit {
    PtvUnit { wave, envelope, ..Default::default() }
}

fn voice_of(units: Vec<PtvUnit>) -> Ptvoice {
    Ptvoice { legacy_basic_key: 0, units }
}

/// Byte offset of the first unit in an encoded voice whose body fields are
/// all single-byte var-ints.
const FIRST_UNIT: usize = 8 + 4 + 4 + 4;

#[test]
fn coordinate_wave_without_envelope_round_trips() {
    let wave = PtvWave::Coordinate { points: vec![(0, 0)], x_width: 256 };
    let voice = voice_of(vec![unit_with(Some(wave.clone()), None)]);
    let bytes = encode(&voice);

    // The unit's fields: key 0x2D00 (2 bytes), volume, pan, tuning (5 bytes), flags, data flags.
    let data_flags_at = FIRST_UNIT + 2 + 1 + 1 + 5 + 1;
    assert_eq!(bytes[data_flags_at], 0b01);

    let back: Ptvoice = decode(&bytes).unwrap();
    assert_eq!(back.units.len(), 1);
    assert_eq!(back.units[0].wave, Some(wave));
    assert_eq!(back.units[0].envelope, None);
    assert_eq!(back, voice);
}

#[test]
fn single_point_envelope_wire_bytes() {
    let envelope = PtvEnvelope { points: vec![(0, 96)], release: 1, ticks_per_second: 1000 };
    let bytes = encode(&envelope);
    assert_eq!(bytes, vec![0xE8, 0x07, 1, 0, 1, 0, 96, 1, 0]);

    let back: PtvEnvelope = decode(&bytes).unwrap();
    assert_eq!(back.points, vec![(0, 96)]);
    assert_eq!(back.release, 1);
    assert_eq!(back.ticks_per_second, 1000);
}

#[test]
fn envelope_default_is_single_point() {
    let envelope = PtvEnvelope::default();
    assert_eq!(envelope, PtvEnvelope::new(vec![(0, 96)], 1));
    assert_eq!(envelope.ticks_per_second, 1000);
}

#[test]
fn envelope_points_are_deltas_on_the_wire() {
    let envelope = PtvEnvelope::new(vec![(0, 0), (16, 8), (32, 88), (48, 96)], 100);
    let bytes = encode(&envelope);
    assert_eq!(
        bytes,
        vec![0xE8, 0x07, 4, 0, 1, 0, 0, 16, 8, 16, 88, 16, 96, 100, 0]
    );
    assert_eq!(decode::<PtvEnvelope>(&bytes), Ok(envelope));
}

#[test]
fn envelope_release_y_is_ignored() {
    let bytes = vec![0xE8, 0x07, 1, 0, 1, 0, 96, 1, 55];
    let back: PtvEnvelope = decode(&bytes).unwrap();
    assert_eq!(back, PtvEnvelope::new(vec![(0, 96)], 1));
}

#[test]
fn envelope_with_decreasing_and_extreme_x_round_trips() {
    let envelope = PtvEnvelope {
        points: vec![(i32::MIN, -5), (i32::MAX, 7), (-3, 0)],
        release: -1,
        ticks_per_second: 44100,
    };
    assert_eq!(decode::<PtvEnvelope>(&encode(&envelope)), Ok(envelope));
}

#[test]
fn envelope_legacy_counts_must_be_zero_and_one() {
    for (sustain, release) in [(1u8, 1u8), (0, 0), (0, 2), (5, 1)] {
        let bytes = vec![0xE8, 0x07, 1, sustain, release, 0, 96, 1, 0];
        assert_eq!(decode::<PtvEnvelope>(&bytes), Err(PtvError::Invalid));
    }
}

#[test]
fn envelope_negative_point_count_is_invalid() {
    let mut bytes = vec![0xE8, 0x07];
    bytes.extend(var(-1i32 as u32));
    bytes.extend([0, 1, 1, 0]);
    assert_eq!(decode::<PtvEnvelope>(&bytes), Err(PtvError::Invalid));
}

#[test]
fn truncated_envelope_is_io_failure() {
    let bytes = vec![0xE8, 0x07, 2, 0, 1, 0, 96];
    assert_eq!(decode::<PtvEnvelope>(&bytes), Err(PtvError::IoFailure));
    assert_eq!(decode::<PtvEnvelope>(&[]), Err(PtvError::IoFailure));
}

#[test]
fn coordinate_wave_wire_bytes() {
    let wave = PtvWave::coordinate_from_points(vec![(0, 0), (64, 64), (128, 0), (192, -64)]);
    let bytes = encode(&wave);
    assert_eq!(
        bytes,
        vec![0, 4, 0x80, 0x02, 0, 0, 64, 64, 128, 0, 192, 0xC0]
    );
    assert_eq!(decode::<PtvWave>(&bytes), Ok(wave));
}

#[test]
fn oscillator_wave_round_trips() {
    let wave = PtvWave::oscillator_from_pairs(vec![(1, 128), (2, -64), (4, -32)]);
    let bytes = encode(&wave);
    assert_eq!(&bytes[..3], &[1, 3, 1]);
    assert_eq!(decode::<PtvWave>(&bytes), Ok(wave));
}

#[test]
fn wave_default_is_single_point_coordinate() {
    assert_eq!(
        PtvWave::default(),
        PtvWave::Coordinate { points: vec![(0, 0)], x_width: 256 }
    );
}

#[test]
fn unknown_wave_tag_is_invalid() {
    assert_eq!(decode::<PtvWave>(&[2, 0, 0]), Err(PtvError::Invalid));
    let mut bytes = var(-1i32 as u32);
    bytes.extend([0, 0]);
    assert_eq!(decode::<PtvWave>(&bytes), Err(PtvError::Invalid));
}

#[test]
fn negative_wave_count_is_invalid() {
    let mut bytes = vec![1];
    bytes.extend(var(-2i32 as u32));
    assert_eq!(decode::<PtvWave>(&bytes), Err(PtvError::Invalid));
}

fn unit_bytes(flags: u32, data_flags: u32) -> Vec<u8> {
    let mut bytes = Vec::new();
    bytes.extend(var(0x2D00));
    bytes.extend(var(64));
    bytes.extend(var(64));
    bytes.extend(var(0x3f80_0000));
    bytes.extend(var(flags));
    bytes.extend(var(data_flags));
    bytes
}

#[test]
fn unit_reserved_flag_bits_are_invalid() {
    for flags in [8u32, 0x10, 0x8000_0000, 0xffff_ffff, 0b1011] {
        assert_eq!(decode::<PtvUnit>(&unit_bytes(flags, 0)), Err(PtvError::Invalid));
    }
}

#[test]
fn unit_reserved_data_flag_bits_are_invalid() {
    for data_flags in [4u32, 0b101, 0x100, 0xffff_ffff] {
        assert_eq!(decode::<PtvUnit>(&unit_bytes(0, data_flags)), Err(PtvError::Invalid));
    }
}

#[test]
fn unit_without_parts_decodes() {
    let unit: PtvUnit = decode(&unit_bytes(0b111, 0)).unwrap();
    assert_eq!(unit.inherent_key, Key::a6());
    assert_eq!(unit.volume, Volume::from(64));
    assert_eq!(unit.pan_volume, PanVolume::center());
    assert_eq!(unit.tuning, Tuning::default());
    assert_eq!(unit.flags, VoiceFlags { wave_loop: true, smooth: true, beat_fit: true });
    assert_eq!(unit.wave, None);
    assert_eq!(unit.envelope, None);
}

#[test]
fn unit_data_flags_follow_parts() {
    let wave = PtvWave::default();
    let envelope = PtvEnvelope::default();
    let cases = [
        (None, None, 0u8),
        (Some(wave.clone()), None, 1),
        (None, Some(envelope.clone()), 2),
        (Some(wave), Some(envelope), 3),
    ];
    for (wave, envelope, expected) in cases {
        let unit = unit_with(wave, envelope);
        let bytes = encode(&unit);
        assert_eq!(bytes[2 + 1 + 1 + 5 + 1], expected);
        assert_eq!(decode::<PtvUnit>(&bytes), Ok(unit));
    }
}

fn rich_voice() -> Ptvoice {
    let unit_1 = PtvUnit {
        inherent_key: Key::a6(),
        wave: Some(PtvWave::coordinate_from_points(vec![(0, 0), (64, 64), (128, 0), (192, -64)])),
        envelope: Some(PtvEnvelope::new(vec![(0, 96), (1000, 0)], 1)),
        ..Default::default()
    };
    let unit_2 = PtvUnit {
        inherent_key: Key::from_a4_offset(31 * 256),
        volume: Volume::from(40),
        pan_volume: PanVolume::from_separate(64, 20),
        tuning: Tuning::from_bits(0xBF00_0000),
        flags: VoiceFlags { wave_loop: false, smooth: false, beat_fit: true },
        wave: Some(PtvWave::oscillator_from_pairs(vec![(1, 128), (2, -64), (4, -32)])),
        envelope: Some(PtvEnvelope::new(vec![(0, 0), (16, 8), (32, 88), (48, 96)], 100)),
    };
    Ptvoice { legacy_basic_key: -7, units: vec![unit_1, unit_2, unit_with(None, None)] }
}

#[test]
fn voice_round_trip() {
    let voice = rich_voice();
    let bytes = encode(&voice);
    let mut pos = 0usize;
    assert_eq!(Ptvoice::from_read(&bytes, &mut pos), Ok(voice));
    assert_eq!(pos, bytes.len());
}

#[test]
fn voice_default_round_trips() {
    let voice = Ptvoice::default();
    assert_eq!(voice.units.len(), 1);
    assert_eq!(decode::<Ptvoice>(&encode(&voice)), Ok(voice));
}

#[test]
fn voice_without_units_round_trips() {
    let voice = voice_of(vec![]);
    let bytes = encode(&voice);
    assert_eq!(decode::<Ptvoice>(&bytes), Ok(voice));
}

#[test]
fn voice_header_layout() {
    let voice = rich_voice();
    let bytes = encode(&voice);
    assert_eq!(&bytes[..8], b"PTVOICE-");
    assert_eq!(&bytes[8..12], &20060111i32.to_le_bytes());
    let data_len = i32::from_le_bytes([bytes[12], bytes[13], bytes[14], bytes[15]]);
    assert_eq!(data_len as usize, bytes.len() - 16);
}

#[test]
fn voice_encoding_appends_after_existing_bytes() {
    let voice = rich_voice();
    let alone = encode(&voice);
    let mut out = vec![9, 9, 9];
    assert_eq!(voice.write_to(&mut out), Ok(3));
    assert_eq!(&out[..3], &[9, 9, 9]);
    assert_eq!(&out[3..], &alone[..]);
    let mut pos = 3usize;
    assert_eq!(Ptvoice::from_read(&out, &mut pos), Ok(voice));
}

#[test]
fn voice_bad_signature_is_invalid() {
    let mut bytes = encode(&rich_voice());
    bytes[0] = b'X';
    assert_eq!(decode::<Ptvoice>(&bytes), Err(PtvError::Invalid));
    let mut bytes = encode(&rich_voice());
    bytes[7] = b'_';
    assert_eq!(decode::<Ptvoice>(&bytes), Err(PtvError::Invalid));
}

#[test]
fn voice_newer_version_is_unsupported() {
    let mut bytes = encode(&rich_voice());
    bytes[8..12].copy_from_slice(&20060112i32.to_le_bytes());
    assert_eq!(decode::<Ptvoice>(&bytes), Err(PtvError::Unsupported));
    // Checked before anything that follows the version.
    assert_eq!(decode::<Ptvoice>(&bytes[..12]), Err(PtvError::Unsupported));
}

#[test]
fn voice_older_version_is_accepted() {
    let voice = rich_voice();
    let mut bytes = encode(&voice);
    bytes[8..12].copy_from_slice(&20050101i32.to_le_bytes());
    assert_eq!(decode::<Ptvoice>(&bytes), Ok(voice));
}

#[test]
fn voice_length_field_is_not_checked() {
    let voice = rich_voice();
    for data_len in [0i32, 1, -1, i32::MAX, 12345] {
        let mut bytes = encode(&voice);
        bytes[12..16].copy_from_slice(&data_len.to_le_bytes());
        assert_eq!(decode::<Ptvoice>(&bytes), Ok(voice.clone()));
    }
}

#[test]
fn voice_reserved_fields_must_be_zero() {
    let voice = voice_of(vec![]);
    let mut bytes = encode(&voice);
    assert_eq!(bytes.len(), 20);
    bytes[17] = 1;
    assert_eq!(decode::<Ptvoice>(&bytes), Err(PtvError::Invalid));
    let mut bytes = encode(&voice);
    bytes[18] = 3;
    assert_eq!(decode::<Ptvoice>(&bytes), Err(PtvError::Invalid));
}

#[test]
fn voice_negative_unit_count_is_invalid() {
    let mut bytes = encode(&voice_of(vec![]));
    bytes.truncate(19);
    bytes.extend(var(-1i32 as u32));
    assert_eq!(decode::<Ptvoice>(&bytes), Err(PtvError::Invalid));
}

#[test]
fn truncated_voice_is_io_failure() {
    let bytes = encode(&rich_voice());
    for cut in [0usize, 5, 8, 11, 12, 15, 16, 30, bytes.len() - 1] {
        assert_eq!(decode::<Ptvoice>(&bytes[..cut]), Err(PtvError::IoFailure));
    }
}

#[test]
fn var_int_lengths_and_bytes() {
    let cases: [(u32, Vec<u8>); 8] = [
        (0, vec![0]),
        (127, vec![0x7f]),
        (128, vec![0x80, 0x01]),
        (300, vec![0xAC, 0x02]),
        (16383, vec![0xff, 0x7f]),
        (16384, vec![0x80, 0x80, 0x01]),
        (0x0fff_ffff, vec![0xff, 0xff, 0xff, 0x7f]),
        (u32::MAX, vec![0xff, 0xff, 0xff, 0xff, 0x0f]),
    ];
    for (v, expected) in cases {
        assert_eq!(var(v), expected);
        let mut pos = 0usize;
        assert_eq!(u32::from_read_var(&expected, &mut pos), Ok(v));
        assert_eq!(pos, expected.len());
    }
}

#[test]
fn var_int_round_trips_every_scalar_kind() {
    let unsigned = [0u32, 1, 0x7f, 0x80, 0x3fff, 0x4000, 0x1f_ffff, 0x20_0000, 0x0fff_ffff,
        0x1000_0000, 0x8000_0000, u32::MAX];
    for v in unsigned {
        let bytes = var(v);
        assert!((1..=5).contains(&bytes.len()));
        let mut pos = 0usize;
        assert_eq!(u32::from_read_var(&bytes, &mut pos), Ok(v));
    }
    for v in [0i32, -1, 1, i32::MIN, i32::MAX, -64, 0x2D00] {
        let mut bytes = Vec::new();
        v.write_var_to(&mut bytes).unwrap();
        assert!((1..=5).contains(&bytes.len()));
        let mut pos = 0usize;
        assert_eq!(i32::from_read_var(&bytes, &mut pos), Ok(v));
    }
    for f in [1.0f32, -0.5, 0.0, -0.0, f32::MAX, f32::MIN_POSITIVE, f32::INFINITY] {
        let bytes = var(f.to_bits());
        let mut pos = 0usize;
        let bits = u32::from_read_var(&bytes, &mut pos).unwrap();
        assert_eq!(f32::from_bits(bits).to_bits(), f.to_bits());
    }
}

#[test]
fn var_int_stops_after_five_bytes() {
    let bytes = [0xff, 0xff, 0xff, 0xff, 0xff, 0x7f];
    let mut pos = 0usize;
    assert_eq!(u32::from_read_var(&bytes, &mut pos), Ok(u32::MAX));
    assert_eq!(pos, 5);
}

#[test]
fn var_int_short_input_is_io_failure() {
    let mut pos = 0usize;
    assert_eq!(u32::from_read_var(&[0x80, 0x80], &mut pos), Err(PtvError::IoFailure));
}

#[test]
fn var_int_pair_round_trips() {
    let mut bytes = Vec::new();
    assert_eq!((300i32, -2i32).write_var_to(&mut bytes), Ok(0));
    let mut pos = 0usize;
    assert_eq!(<(i32, i32)>::from_read_var(&bytes, &mut pos), Ok((300, -2)));
    assert_eq!(pos, bytes.len());
}

#[test]
fn fixed_width_little_endian() {
    let mut bytes = Vec::new();
    assert_eq!(0x0403_0201u32.write_to(&mut bytes), Ok(0));
    assert_eq!(bytes, vec![1, 2, 3, 4]);
    assert_eq!((-2i32).write_to(&mut bytes), Ok(4));
    assert_eq!(7u8.write_to(&mut bytes), Ok(8));
    assert_eq!((-1i8).write_to(&mut bytes), Ok(9));
    assert_eq!(&bytes[4..], &[0xfe, 0xff, 0xff, 0xff, 7, 0xff]);
    let mut pos = 0usize;
    assert_eq!(u32::from_read(&bytes, &mut pos), Ok(0x0403_0201));
    assert_eq!(i32::from_read(&bytes, &mut pos), Ok(-2));
    assert_eq!(<(u8, i8)>::from_read(&bytes, &mut pos), Ok((7, -1)));
    assert_eq!(pos, 10);
    assert_eq!(i32::from_read(&bytes, &mut pos), Err(PtvError::IoFailure));
}
