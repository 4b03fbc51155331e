use super::{
    envelope_fits, envelope_wire, lemma_envelope_round_trip, lemma_wave_round_trip, parse_envelope,
    parse_wave, wave_fits, wave_wire, EnvelopeModel, PtvEnvelope, PtvError, PtvWave, WaveModel,
};
use crate::data::{
    bytes_at, lemma_bytes_at_split, lemma_var_round_trip, lemma_var_round_trip_i32, var_bytes,
    var_bytes_i32, var_read, var_read_i32, FromRead, FromReadVar, WriteTo, WriteVarTo,
};
use crate::value::{basic_of_key, key_of_basic, lemma_key_basic_round_trip};
use crate::voice::{flags_bits, flags_of_bits, lemma_flags_round_trip, VoiceFlags};
use crate::{Key, PanVolume, Tuning, Volume};
use vstd::prelude::*;

verus! {

/// Data-flags bit of a unit that holds a waveform.
pub const HAS_WAVE: u32 = 1;
/// Data-flags bit of a unit that holds an envelope.
pub const HAS_ENVELOPE: u32 = 2;
/// Data-flags bits that no optional field uses.
pub const DATA_RESERVED: u32 = 0xffff_fffc;

/// Single ptvoice "channel" with its own waveform, envelope, and parameters.
#[derive(Clone, Debug, PartialEq)]
pub struct PtvUnit {
    /// Since ptvoices don't really have an inherent pitch (as opposed to
    /// samples), this is just set to A6 (basic key `0x2D00`) by default. This
    /// can be changed to create harmonic intervals between units in a single
    /// ptvoice.
    pub inherent_key: Key,
    /// Overall volume for this unit.
    pub volume: Volume,
    /// Relative stereo channel volumes for this unit.
    pub pan_volume: PanVolume,
    /// Tuning value for this unit.
    pub tuning: Tuning,
    /// Unit voice flags.
    pub flags: VoiceFlags,
    /// Unit waveform. pxtone technically allows this to be absent, but tends
    /// to crash or behave unexpectedly. Omit with caution.
    pub wave: Option<PtvWave>,
    /// Unit envelope. If absent, volume will remain constant throughout a
    /// note's duration.
    pub envelope: Option<PtvEnvelope>,
}

/// The content of a [`PtvUnit`]: the key, volume and panning values, the bit
/// pattern of the tuning, the flags and the optional parts.
pub struct UnitModel {
    pub inherent_key: i32,
    pub volume: i32,
    pub pan_volume: i32,
    pub tuning: u32,
    pub flags: VoiceFlags,
    pub wave: Option<WaveModel>,
    pub envelope: Option<EnvelopeModel>,
}

impl View for PtvUnit {
    type V = UnitModel;

    open spec fn view(&self) -> UnitModel {
        UnitModel {
            inherent_key: self.inherent_key@,
            volume: self.volume@,
            pan_volume: self.pan_volume@,
            tuning: self.tuning@,
            flags: self.flags,
            wave: match self.wave {
                Some(w) => Some(w@),
                None => None,
            },
            envelope: match self.envelope {
                Some(e) => Some(e@),
                None => None,
            },
        }
    }
}

/// The four leading scalars of a unit at `pos` of `s`: basic key, volume,
/// panning and the tuning's bits.
pub open spec fn parse_unit_scalars(s: Seq<u8>, pos: int) -> Result<
    ((i32, i32, i32, u32), int),
    PtvError,
> {
    match var_read_i32(s, pos) {
        Err(e) => Err(e),
        Ok((basic, at1)) => match var_read_i32(s, at1) {
            Err(e) => Err(e),
            Ok((volume, at2)) => match var_read_i32(s, at2) {
                Err(e) => Err(e),
                Ok((pan_volume, at3)) => match var_read(s, at3) {
                    Err(e) => Err(e),
                    Ok((tuning, at4)) => Ok(((basic, volume, pan_volume, tuning), at4)),
                },
            },
        },
    }
}

/// A waveform at `pos` of `s` where `present`, else nothing.
pub open spec fn parse_opt_wave(s: Seq<u8>, pos: int, present: bool) -> Result<
    (Option<WaveModel>, int),
    PtvError,
> {
    if present {
        match parse_wave(s, pos) {
            Ok((w, end)) => Ok((Some(w), end)),
            Err(e) => Err(e),
        }
    } else {
        Ok((None, pos))
    }
}

/// An envelope at `pos` of `s` where `present`, else nothing.
pub open spec fn parse_opt_envelope(s: Seq<u8>, pos: int, present: bool) -> Result<
    (Option<EnvelopeModel>, int),
    PtvError,
> {
    if present {
        match parse_envelope(s, pos) {
            Ok((e, end)) => Ok((Some(e), end)),
            Err(e) => Err(e),
        }
    } else {
        Ok((None, pos))
    }
}

/// The unit at `pos` of `s`: its scalars, a flag set (a reserved bit is
/// invalid), a data-flags set (a reserved bit is invalid), then a waveform
/// where bit 0 is set and an envelope where bit 1 is set.
#[verifier::opaque]
pub open spec fn parse_unit(s: Seq<u8>, pos: int) -> Result<(UnitModel, int), PtvError> {
    match parse_unit_scalars(s, pos) {
        Err(e) => Err(e),
        Ok(((basic, volume, pan_volume, tuning), at4)) => match var_read(s, at4) {
            Err(e) => Err(e),
            Ok((flag_bits, at5)) => match flags_of_bits(flag_bits) {
                None => Err(PtvError::Invalid),
                Some(flags) => match var_read(s, at5) {
                    Err(e) => Err(e),
                    Ok((data_flags, at6)) => if data_flags & DATA_RESERVED != 0 {
                        Err(PtvError::Invalid)
                    } else {
                        match parse_opt_wave(s, at6, data_flags & HAS_WAVE != 0) {
                            Err(e) => Err(e),
                            Ok((wave, at7)) => match parse_opt_envelope(
                                s,
                                at7,
                                data_flags & HAS_ENVELOPE != 0,
                            ) {
                                Err(e) => Err(e),
                                Ok((envelope, end)) => Ok(
                                    (
                                        UnitModel {
                                            inherent_key: key_of_basic(basic),
                                            volume,
                                            pan_volume,
                                            tuning,
                                            flags,
                                            wave,
                                            envelope,
                                        },
                                        end,
                                    ),
                                ),
                            },
                        }
                    },
                },
            },
        },
    }
}

/// The data-flags set of a unit: which optional parts it holds.
pub open spec fn data_flags_of(m: UnitModel) -> u32 {
    (if m.wave is Some { HAS_WAVE } else { 0 }) | (if m.envelope is Some { HAS_ENVELOPE } else { 0 })
}

/// Whether a unit can be encoded: its waveform and envelope can.
pub open spec fn unit_fits(m: UnitModel) -> bool {
    (m.wave is Some ==> wave_fits(m.wave->Some_0)) && (m.envelope is Some ==> envelope_fits(
        m.envelope->Some_0,
    ))
}

/// The encoding of an optional waveform.
pub open spec fn opt_wave_wire(w: Option<WaveModel>) -> Seq<u8> {
    match w {
        Some(w) => wave_wire(w),
        None => Seq::empty(),
    }
}

/// The encoding of an optional envelope.
pub open spec fn opt_envelope_wire(e: Option<EnvelopeModel>) -> Seq<u8> {
    match e {
        Some(e) => envelope_wire(e),
        None => Seq::empty(),
    }
}

/// The encoding of a unit.
pub open spec fn unit_wire(m: UnitModel) -> Seq<u8> {
    var_bytes_i32(basic_of_key(m.inherent_key)) + var_bytes_i32(m.volume) + var_bytes_i32(
        m.pan_volume,
    ) + var_bytes(m.tuning) + var_bytes(flags_bits(m.flags)) + var_bytes(data_flags_of(m))
        + opt_wave_wire(m.wave) + opt_envelope_wire(m.envelope)
}

impl FromRead for PtvUnit {
    open spec fn parse(s: Seq<u8>, pos: int) -> Result<(UnitModel, int), PtvError> {
        parse_unit(s, pos)
    }

    fn from_read(source: &[u8], pos: &mut usize) -> (r: Result<PtvUnit, PtvError>) {
        proof {
            reveal(parse_unit);
        }
        let inherent_key = match i32::from_read_var(source, pos) {
            Ok(v) => Key::from_basic(v),
            Err(e) => return Err(e),
        };
        let volume = match i32::from_read_var(source, pos) {
            Ok(v) => Volume::from(v),
            Err(e) => return Err(e),
        };
        let pan_volume = match i32::from_read_var(source, pos) {
            Ok(v) => PanVolume::from(v),
            Err(e) => return Err(e),
        };
        let tuning = match u32::from_read_var(source, pos) {
            Ok(v) => Tuning::from_bits(v),
            Err(e) => return Err(e),
        };
        let flags = match u32::from_read_var(source, pos) {
            Ok(v) => match VoiceFlags::from_u32(v) {
                Some(flags) => flags,
                None => return Err(PtvError::Invalid),
            },
            Err(e) => return Err(e),
        };
        // Wave & envelope data if present.
        let data_flags = match u32::from_read_var(source, pos) {
            Ok(v) => v,
            Err(e) => return Err(e),
        };
        if (data_flags & DATA_RESERVED) != 0 {
            return Err(PtvError::Invalid);
        }
        let wave = if (data_flags & HAS_WAVE) != 0 {
            match PtvWave::from_read(source, pos) {
                Ok(w) => Some(w),
                Err(e) => return Err(e),
            }
        } else {
            None
        };
        let envelope = if (data_flags & HAS_ENVELOPE) != 0 {
            match PtvEnvelope::from_read(source, pos) {
                Ok(e) => Some(e),
                Err(e) => return Err(e),
            }
        } else {
            None
        };
        Ok(PtvUnit { inherent_key, volume, pan_volume, tuning, flags, wave, envelope })
    }
}

impl WriteTo for PtvUnit {
    open spec fn fits(m: UnitModel) -> bool {
        unit_fits(m)
    }

    open spec fn wire(m: UnitModel) -> Seq<u8> {
        unit_wire(m)
    }

    fn write_to(&self, sink: &mut Vec<u8>) -> (r: Result<usize, PtvError>) {
        let start_pos = sink.len();
        let _ = self.inherent_key.as_basic().write_var_to(sink);
        let _ = self.volume.as_value().write_var_to(sink);
        let _ = self.pan_volume.as_value().write_var_to(sink);
        let _ = self.tuning.to_bits().write_var_to(sink);
        let _ = self.flags.write_var_to(sink);
        // Wave & envelope data if present.
        let data_flags: u32 = (if self.wave.is_some() {
            HAS_WAVE
        } else {
            0
        }) | (if self.envelope.is_some() {
            HAS_ENVELOPE
        } else {
            0
        });
        let _ = data_flags.write_var_to(sink);
        let ghost before_parts = sink@;
        assert(before_parts =~= old(sink)@ + var_bytes_i32(basic_of_key(self@.inherent_key))
            + var_bytes_i32(self@.volume) + var_bytes_i32(self@.pan_volume) + var_bytes(self@.tuning)
            + var_bytes(flags_bits(self@.flags)) + var_bytes(data_flags_of(self@)));
        match &self.wave {
            Some(wave) => match wave.write_to(sink) {
                Ok(_) => {},
                Err(e) => return Err(e),
            },
            None => {},
        }
        let ghost after_wave = sink@;
        match &self.envelope {
            Some(envelope) => match envelope.write_to(sink) {
                Ok(_) => {},
                Err(e) => return Err(e),
            },
            None => {},
        }
        assert(after_wave == before_parts + opt_wave_wire(self@.wave));
        assert(sink@ == after_wave + opt_envelope_wire(self@.envelope));
        assert(sink@ =~= old(sink)@ + unit_wire(self@));
        Ok(start_pos)
    }
}

/// The unit that [`PtvUnit::default`] gives: key A6, half volume, centered,
/// untuned, looping and smoothed, with a one-point coordinate waveform and no
/// envelope.
pub open spec fn default_unit() -> UnitModel {
    UnitModel {
        inherent_key: 0x7800,
        volume: 64,
        pan_volume: 64,
        tuning: Tuning::ONE_BITS,
        flags: VoiceFlags { wave_loop: true, smooth: true, beat_fit: false },
        wave: Some(WaveModel::Coordinate { points: seq![(0u8, 0i8)], x_width: 256 }),
        envelope: None,
    }
}

impl Default for PtvUnit {
    fn default() -> (r: Self)
        ensures
            r@ == default_unit(),
    {
        PtvUnit {
            inherent_key: Key::a6(),
            volume: Volume::from(64),
            pan_volume: PanVolume::center(),
            tuning: Tuning::default(),
            flags: VoiceFlags { wave_loop: true, smooth: true, beat_fit: false },
            wave: Some(PtvWave::default()),
            envelope: None,
        }
    }
}

/// A unit whose flag field holds a bit outside the three known flags decodes
/// as invalid, whatever follows.
pub proof fn lemma_unit_reserved_flags_rejected(s: Seq<u8>, pos: int, at4: int, bits: u32, at5: int)
    requires
        parse_unit_scalars(s, pos) is Ok,
        parse_unit_scalars(s, pos)->Ok_0.1 == at4,
        var_read(s, at4) == Ok::<(u32, int), PtvError>((bits, at5)),
        bits & (!(1u32 | 2u32 | 4u32)) != 0,
    ensures
        parse_unit(s, pos) == Err::<(UnitModel, int), PtvError>(PtvError::Invalid),
{
    reveal(parse_unit);
    assert(!(1u32 | 2u32 | 4u32) == 0xffff_fff8u32) by (bit_vector);
}

/// A unit whose data-flags field holds a bit other than the waveform and
/// envelope bits decodes as invalid, whatever follows.
pub proof fn lemma_unit_reserved_data_flags_rejected(
    s: Seq<u8>,
    pos: int,
    at4: int,
    bits: u32,
    at5: int,
    data_flags: u32,
    at6: int,
)
    requires
        parse_unit_scalars(s, pos) is Ok,
        parse_unit_scalars(s, pos)->Ok_0.1 == at4,
        var_read(s, at4) == Ok::<(u32, int), PtvError>((bits, at5)),
        var_read(s, at5) == Ok::<(u32, int), PtvError>((data_flags, at6)),
        data_flags & (!(HAS_WAVE | HAS_ENVELOPE)) != 0,
    ensures
        parse_unit(s, pos) == Err::<(UnitModel, int), PtvError>(PtvError::Invalid),
{
    reveal(parse_unit);
    assert(!(1u32 | 2u32) == 0xffff_fffcu32) by (bit_vector);
}

/// The leading scalars of an encoded unit read back as written.
proof fn lemma_unit_scalars_round_trip(m: UnitModel, s: Seq<u8>, pos: int)
    requires
        bytes_at(
            s,
            pos,
            var_bytes_i32(basic_of_key(m.inherent_key)) + var_bytes_i32(m.volume) + var_bytes_i32(
                m.pan_volume,
            ) + var_bytes(m.tuning),
        ),
    ensures
        parse_unit_scalars(s, pos) == Ok::<((i32, i32, i32, u32), int), PtvError>(
            (
                (basic_of_key(m.inherent_key), m.volume, m.pan_volume, m.tuning),
                pos + (var_bytes_i32(basic_of_key(m.inherent_key)) + var_bytes_i32(m.volume)
                    + var_bytes_i32(m.pan_volume) + var_bytes(m.tuning)).len(),
            ),
        ),
{
    let basic = basic_of_key(m.inherent_key);
    let a = var_bytes_i32(basic);
    let b = var_bytes_i32(m.volume);
    let c = var_bytes_i32(m.pan_volume);
    let d = var_bytes(m.tuning);
    lemma_bytes_at_split(s, pos, a + b + c, d);
    lemma_bytes_at_split(s, pos, a + b, c);
    lemma_bytes_at_split(s, pos, a, b);
    lemma_var_round_trip_i32(basic, s, pos);
    lemma_var_round_trip_i32(m.volume, s, pos + a.len());
    lemma_var_round_trip_i32(m.pan_volume, s, pos + a.len() + b.len());
    lemma_var_round_trip(m.tuning, s, pos + a.len() + b.len() + c.len());
}

/// Decoding the encoding of a unit gives the same unit back, with its
/// optional parts present exactly where they were, whatever follows it.
pub proof fn lemma_unit_round_trip(m: UnitModel, s: Seq<u8>, pos: int)
    requires
        unit_fits(m),
        bytes_at(s, pos, unit_wire(m)),
    ensures
        parse_unit(s, pos) == Ok::<(UnitModel, int), PtvError>((m, pos + unit_wire(m).len())),
{
    reveal(parse_unit);
    let basic = basic_of_key(m.inherent_key);
    let head = var_bytes_i32(basic) + var_bytes_i32(m.volume) + var_bytes_i32(m.pan_volume)
        + var_bytes(m.tuning);
    let e = var_bytes(flags_bits(m.flags));
    let df = data_flags_of(m);
    let f = var_bytes(df);
    let g = opt_wave_wire(m.wave);
    let h = opt_envelope_wire(m.envelope);
    lemma_bytes_at_split(s, pos, head + e + f + g, h);
    lemma_bytes_at_split(s, pos, head + e + f, g);
    lemma_bytes_at_split(s, pos, head + e, f);
    lemma_bytes_at_split(s, pos, head, e);
    let at4 = pos + head.len();
    let at5 = at4 + e.len();
    let at6 = at5 + f.len();
    let at7 = at6 + g.len();
    lemma_unit_scalars_round_trip(m, s, pos);
    lemma_var_round_trip(flags_bits(m.flags), s, at4);
    lemma_var_round_trip(df, s, at5);
    lemma_key_basic_round_trip(m.inherent_key);
    lemma_flags_round_trip(m.flags);
    let w: u32 = if m.wave is Some { 1 } else { 0 };
    let v: u32 = if m.envelope is Some { 2 } else { 0 };
    assert((w == 0 || w == 1) && (v == 0 || v == 2) ==> ((w | v) & 0xffff_fffc == 0 && ((w | v)
        & 1 != 0) == (w == 1) && ((w | v) & 2 != 0) == (v == 2))) by (bit_vector);
    if m.wave is Some {
        lemma_wave_round_trip(m.wave->Some_0, s, at6);
    }
    if m.envelope is Some {
        lemma_envelope_round_trip(m.envelope->Some_0, s, at7);
    }
    assert(unit_wire(m) =~= head + e + f + g + h);
}

} // verus!
