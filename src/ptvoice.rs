//! pxtone voice (ptvoice) functionality.
//!
//! Not to be confused with a "project voice", which includes ptvoices,
//! ptnoises, and PCM/Vorbis samples.

mod envelope;
mod error;
mod unit;
mod wave;

pub use self::envelope::{
    env_points_wire, envelope_fits, envelope_wire, last_x, lemma_env_points_err_extends,
    lemma_env_points_round_trip, lemma_envelope_round_trip, parse_env_points, parse_envelope,
    parse_envelope_tail, EnvelopeModel, PtvEnvelope,
};
pub use self::error::PtvError;
pub use self::unit::{
    data_flags_of, default_unit, lemma_unit_reserved_data_flags_rejected,
    lemma_unit_reserved_flags_rejected, lemma_unit_round_trip, opt_envelope_wire, opt_wave_wire, parse_opt_envelope, parse_opt_wave,
    parse_unit, parse_unit_scalars, unit_fits, unit_wire, PtvUnit, UnitModel, DATA_RESERVED,
    HAS_ENVELOPE, HAS_WAVE,
};
pub use self::wave::{
    coord_points_wire, harmonics_wire, lemma_coord_points_err_extends,
    lemma_coord_points_round_trip, lemma_harmonics_err_extends, lemma_harmonics_round_trip,
    lemma_wave_round_trip, parse_coord_points, parse_harmonics, parse_wave, wave_fits, wave_wire,
    PtvWave, WaveModel, COORDINATE, OSCILLATOR,
};

use crate::data::{
    bytes_at, le_i32, le_u32_bytes, lemma_bytes_at_split, lemma_le_round_trip,
    lemma_var_round_trip_i32, var_bytes_i32, var_read_i32, FromRead, FromReadVar, WriteTo,
    WriteVarTo,
};
use vstd::prelude::*;

verus! {

/// Maximum supported format version.
pub const VERSION: i32 = 20060111;

/// The 8 bytes present at the start of ptvoice data: ASCII `PTVOICE-`.
pub open spec fn signature() -> Seq<u8> {
    seq![0x50u8, 0x54u8, 0x56u8, 0x4fu8, 0x49u8, 0x43u8, 0x45u8, 0x2du8]
}

/// Synthesized instrument made up of sine overtones and drawn waveforms.
#[derive(Clone, Debug, PartialEq)]
pub struct Ptvoice {
    /// Basic key applied to the entire project voice in old pxtone versions.
    /// Each voice-unit has its own basic key in newer versions, so this is set
    /// to 0 and goes unused.
    pub legacy_basic_key: i32,
    /// ptvoices can contain multiple units, each with its own waveform,
    /// parameters, and envelope.
    ///
    /// The official ptvoice editor will refuse to open a ptvoice containing >2
    /// units, and pxtone Collage will usually crash when attempting to preview
    /// such a ptvoice. However, playback actually seems to work and will
    /// properly render all voice-units. Use with caution.
    pub units: Vec<PtvUnit>,
}

/// The content of a [`Ptvoice`].
pub struct VoiceModel {
    pub legacy_basic_key: i32,
    pub units: Seq<UnitModel>,
}

/// The contents of a list of units.
pub open spec fn units_view(units: Seq<PtvUnit>) -> Seq<UnitModel> {
    units.map_values(|u: PtvUnit| u@)
}

impl View for Ptvoice {
    type V = VoiceModel;

    open spec fn view(&self) -> VoiceModel {
        VoiceModel { legacy_basic_key: self.legacy_basic_key, units: units_view(self.units@) }
    }
}

/// Decodes `n` units in a row at `pos` of `s`.
pub open spec fn parse_units(s: Seq<u8>, pos: int, n: nat) -> Result<
    (Seq<UnitModel>, int),
    PtvError,
>
    decreases n,
{
    if n == 0 {
        Ok((Seq::empty(), pos))
    } else {
        match parse_units(s, pos, (n - 1) as nat) {
            Ok((units, p)) => match parse_unit(s, p) {
                Ok((unit, end)) => Ok((units.push(unit), end)),
                Err(e) => Err(e),
            },
            Err(e) => Err(e),
        }
    }
}

/// The part of a ptvoice after its data-length field, at `pos` of `s`: the
/// legacy basic key, two reserved fields that must be 0, the unit count
/// (negative is invalid) and the units.
pub open spec fn parse_voice_body(s: Seq<u8>, pos: int) -> Result<(VoiceModel, int), PtvError> {
    match var_read_i32(s, pos) {
        Err(e) => Err(e),
        Ok((legacy_basic_key, at1)) => match var_read_i32(s, at1) {
            Err(e) => Err(e),
            Ok((reserved1, at2)) => if reserved1 != 0 {
                Err(PtvError::Invalid)
            } else {
                match var_read_i32(s, at2) {
                    Err(e) => Err(e),
                    Ok((reserved2, at3)) => if reserved2 != 0 {
                        Err(PtvError::Invalid)
                    } else {
                        match var_read_i32(s, at3) {
                            Err(e) => Err(e),
                            Ok((count, at4)) => if count < 0 {
                                Err(PtvError::Invalid)
                            } else {
                                match parse_units(s, at4, count as nat) {
                                    Err(e) => Err(e),
                                    Ok((units, end)) => Ok(
                                        (VoiceModel { legacy_basic_key, units }, end),
                                    ),
                                }
                            },
                        }
                    },
                }
            },
        },
    }
}

/// The ptvoice at `pos` of `s`: the signature (invalid if it differs), the
/// format version (unsupported if above [`VERSION`]), a data-length field
/// that is read but never checked, then the body.
#[verifier::opaque]
pub open spec fn parse_voice(s: Seq<u8>, pos: int) -> Result<(VoiceModel, int), PtvError> {
    if !(0 <= pos && pos + 8 <= s.len()) {
        Err(PtvError::IoFailure)
    } else if s.subrange(pos, pos + 8) != signature() {
        Err(PtvError::Invalid)
    } else if pos + 12 > s.len() {
        Err(PtvError::IoFailure)
    } else if le_i32(s, pos + 8) > VERSION {
        Err(PtvError::Unsupported)
    } else if pos + 16 > s.len() {
        Err(PtvError::IoFailure)
    } else {
        parse_voice_body(s, pos + 16)
    }
}

/// Units in a row.
pub open spec fn units_wire(units: Seq<UnitModel>) -> Seq<u8>
    decreases units.len(),
{
    if units.len() == 0 {
        Seq::empty()
    } else {
        units_wire(units.drop_last()) + unit_wire(units.last())
    }
}

/// The part of an encoded ptvoice that its data-length field measures.
pub open spec fn voice_body(m: VoiceModel) -> Seq<u8> {
    var_bytes_i32(m.legacy_basic_key) + var_bytes_i32(0) + var_bytes_i32(0) + var_bytes_i32(
        m.units.len() as i32,
    ) + units_wire(m.units)
}

/// An encoded ptvoice whose data-length field holds `data_len`.
pub open spec fn voice_frame(m: VoiceModel, data_len: i32) -> Seq<u8> {
    signature() + le_u32_bytes(VERSION as u32) + le_u32_bytes(data_len as u32) + voice_body(m)
}

/// The encoding of a ptvoice: its data-length field holds the body's length.
pub open spec fn voice_wire(m: VoiceModel) -> Seq<u8> {
    voice_frame(m, voice_body(m).len() as i32)
}

/// Whether every unit of a list can be encoded.
pub open spec fn all_units_fit(units: Seq<UnitModel>) -> bool {
    forall|i: int| 0 <= i < units.len() ==> #[trigger] unit_fits(units[i])
}

/// Whether the units of a ptvoice can be encoded: their count fits a 32-bit
/// signed length and each unit can be encoded.
pub open spec fn voice_units_fit(m: VoiceModel) -> bool {
    m.units.len() <= i32::MAX && all_units_fit(m.units)
}

/// Whether a ptvoice can be encoded: its units can, and the length of its
/// body fits the data-length field.
pub open spec fn voice_fits(m: VoiceModel) -> bool {
    voice_units_fit(m) && voice_body(m).len() <= i32::MAX
}

/// Once a prefix of the units fails to decode, every longer list fails the
/// same way.
pub proof fn lemma_units_err_extends(s: Seq<u8>, pos: int, k: nat, n: nat)
    requires
        k <= n,
        parse_units(s, pos, k) is Err,
    ensures
        parse_units(s, pos, n) == parse_units(s, pos, k),
    decreases n - k,
{
    if k < n {
        lemma_units_err_extends(s, pos, k, (n - 1) as nat);
    }
}

/// Reads `n` units at `*pos` of `source`.
fn read_units(source: &[u8], pos: &mut usize, n: usize) -> (r: Result<Vec<PtvUnit>, PtvError>)
    ensures
        match parse_units(source@, *old(pos) as int, n as nat) {
            Ok((units, end)) => r is Ok && units_view(r->Ok_0@) == units && *final(pos) as int
                == end,
            Err(e) => r is Err && r->Err_0 == e,
        },
{
    let ghost start = *pos as int;
    let mut units: Vec<PtvUnit> = Vec::new();
    let mut i: usize = 0;
    assert(units_view(units@) =~= Seq::empty());
    while i < n
        invariant
            i <= n,
            start == *old(pos) as int,
            parse_units(source@, start, i as nat) == Ok::<(Seq<UnitModel>, int), PtvError>(
                (units_view(units@), *pos as int),
            ),
        decreases n - i,
    {
        let unit = match PtvUnit::from_read(source, pos) {
            Ok(unit) => unit,
            Err(e) => {
                proof {
                    lemma_units_err_extends(source@, start, (i + 1) as nat, n as nat);
                }
                return Err(e);
            },
        };
        let ghost before = units@;
        units.push(unit);
        assert(units_view(units@) =~= units_view(before).push(unit@));
        i = i + 1;
    }
    Ok(units)
}

/// Appends the units in a row, or fails with `OverMax` where one of them
/// cannot be encoded.
fn write_units(units: &Vec<PtvUnit>, sink: &mut Vec<u8>) -> (r: Result<(), PtvError>)
    ensures
        all_units_fit(units_view(units@)) ==> r is Ok && final(sink)@ == old(sink)@ + units_wire(
            units_view(units@),
        ),
        !all_units_fit(units_view(units@)) ==> r == Err::<(), PtvError>(PtvError::OverMax),
{
    let ghost all = units_view(units@);
    let mut i: usize = 0;
    while i < units.len()
        invariant
            i <= units@.len(),
            all == units_view(units@),
            sink@ == old(sink)@ + units_wire(all.take(i as int)),
            forall|j: int| 0 <= j < i ==> #[trigger] unit_fits(all[j]),
        decreases units@.len() - i,
    {
        assert(all[i as int] == units@[i as int]@);
        match units[i].write_to(sink) {
            Ok(_) => {},
            Err(e) => {
                assert(!unit_fits(all[i as int]));
                return Err(e);
            },
        }
        assert(all.take(i + 1).drop_last() =~= all.take(i as int));
        i = i + 1;
    }
    assert(all.take(all.len() as int) =~= all);
    Ok(())
}

/// Whether the 8 bytes at `p` of `source` are the signature.
fn has_signature(source: &[u8], p: usize) -> (r: bool)
    requires
        p + 8 <= source@.len(),
    ensures
        r == (source@.subrange(p as int, p + 8) == signature()),
{
    let r = source[p] == 0x50 && source[p + 1] == 0x54 && source[p + 2] == 0x56 && source[p + 3]
        == 0x4f && source[p + 4] == 0x49 && source[p + 5] == 0x43 && source[p + 6] == 0x45
        && source[p + 7] == 0x2d;
    proof {
        let sub = source@.subrange(p as int, p + 8);
        if r {
            assert(sub =~= signature());
        } else if sub == signature() {
            assert(sub[0] == source@[p as int] && sub[1] == source@[p + 1] && sub[2] == source@[p
                + 2] && sub[3] == source@[p + 3] && sub[4] == source@[p + 4] && sub[5] == source@[p
                + 5] && sub[6] == source@[p + 6] && sub[7] == source@[p + 7]);
        }
    }
    r
}

/// Appends the signature.
fn push_signature(sink: &mut Vec<u8>)
    ensures
        final(sink)@ == old(sink)@ + signature(),
{
    sink.push(0x50);
    sink.push(0x54);
    sink.push(0x56);
    sink.push(0x4f);
    sink.push(0x49);
    sink.push(0x43);
    sink.push(0x45);
    sink.push(0x2d);
    assert(sink@ =~= old(sink)@ + signature());
}

impl FromRead for Ptvoice {
    open spec fn parse(s: Seq<u8>, pos: int) -> Result<(VoiceModel, int), PtvError> {
        parse_voice(s, pos)
    }

    fn from_read(source: &[u8], pos: &mut usize) -> (r: Result<Ptvoice, PtvError>) {
        proof {
            reveal(parse_voice);
        }
        // Check signature at start of data.
        if source.len() < 8 || *pos > source.len() - 8 {
            return Err(PtvError::IoFailure);
        }
        if !has_signature(source, *pos) {
            return Err(PtvError::Invalid);
        }
        *pos = *pos + 8;
        // Check that format version is supported.
        match i32::from_read(source, pos) {
            Ok(version) => if VERSION < version {
                return Err(PtvError::Unsupported);
            },
            Err(e) => return Err(e),
        }
        // Length of remaining data. pxtone doesn't actually verify this.
        let _data_len = match i32::from_read(source, pos) {
            Ok(v) => v,
            Err(e) => return Err(e),
        };
        let legacy_basic_key = match i32::from_read_var(source, pos) {
            Ok(v) => v,
            Err(e) => return Err(e),
        };
        // Reserved two zeroes.
        match i32::from_read_var(source, pos) {
            Ok(v) => if v != 0 {
                return Err(PtvError::Invalid);
            },
            Err(e) => return Err(e),
        }
        match i32::from_read_var(source, pos) {
            Ok(v) => if v != 0 {
                return Err(PtvError::Invalid);
            },
            Err(e) => return Err(e),
        }
        // Read units...
        let unit_count = match i32::from_read_var(source, pos) {
            Ok(v) => v,
            Err(e) => return Err(e),
        };
        if unit_count < 0 {
            return Err(PtvError::Invalid);
        }
        match read_units(source, pos, unit_count as usize) {
            Ok(units) => Ok(Ptvoice { legacy_basic_key, units }),
            Err(e) => Err(e),
        }
    }
}

impl WriteTo for Ptvoice {
    open spec fn fits(m: VoiceModel) -> bool {
        voice_fits(m)
    }

    open spec fn wire(m: VoiceModel) -> Seq<u8> {
        voice_wire(m)
    }

    fn write_to(&self, sink: &mut Vec<u8>) -> (r: Result<usize, PtvError>) {
        // ptvoice signature and format version.
        let start_pos = sink.len();
        push_signature(sink);
        let _ = VERSION.write_to(sink);
        // Placeholder for remaining data length (to be written later).
        let data_len_pos = sink.len();
        let _ = 0i32.write_to(sink);
        let ghost frame = sink@;
        // Legacy basic-key.
        let data_start = sink.len();
        let _ = self.legacy_basic_key.write_var_to(sink);
        // Reserved data.
        let _ = 0i32.write_var_to(sink);
        let _ = 0i32.write_var_to(sink);
        // Units...
        if self.units.len() > 0x7fff_ffff {
            return Err(PtvError::OverMax);
        }
        let _ = (self.units.len() as i32).write_var_to(sink);
        match write_units(&self.units, sink) {
            Ok(()) => {},
            Err(e) => return Err(e),
        }
        assert(sink@ =~= frame + voice_body(self@));
        // Go back to update data length.
        let data_end = sink.len();
        if data_end - data_start > 0x7fff_ffff {
            return Err(PtvError::OverMax);
        }
        let data_len = (data_end - data_start) as u32;
        let ghost body_done = sink@;
        sink[data_len_pos] = (data_len & 0xff) as u8;
        sink[data_len_pos + 1] = ((data_len >> 8) & 0xff) as u8;
        sink[data_len_pos + 2] = ((data_len >> 16) & 0xff) as u8;
        sink[data_len_pos + 3] = ((data_len >> 24) & 0xff) as u8;
        assert((voice_body(self@).len() as i32) as u32 == data_len);
        assert(sink@ =~= old(sink)@ + voice_wire(self@));
        Ok(start_pos)
    }
}

impl Default for Ptvoice {
    fn default() -> (r: Self)
        ensures
            r@.legacy_basic_key == 0,
            r@.units == seq![default_unit()],
    {
        let mut units = Vec::new();
        units.push(PtvUnit::default());
        assert(units_view(units@) =~= seq![default_unit()]);
        Ptvoice { legacy_basic_key: 0, units }
    }
}

/// Decoding the encoding of a list of units gives the same units back, in
/// the same order.
pub proof fn lemma_units_round_trip(units: Seq<UnitModel>, s: Seq<u8>, pos: int)
    requires
        all_units_fit(units),
        bytes_at(s, pos, units_wire(units)),
    ensures
        parse_units(s, pos, units.len()) == Ok::<(Seq<UnitModel>, int), PtvError>(
            (units, pos + units_wire(units).len()),
        ),
    decreases units.len(),
{
    if units.len() == 0 {
        assert(units =~= Seq::empty());
    } else {
        let init = units.drop_last();
        let head = units_wire(init);
        lemma_bytes_at_split(s, pos, head, unit_wire(units.last()));
        assert(unit_fits(units[units.len() - 1]));
        assert forall|i: int| 0 <= i < init.len() implies #[trigger] unit_fits(init[i]) by {
            assert(init[i] == units[i]);
            assert(unit_fits(units[i]));
        }
        lemma_units_round_trip(init, s, pos);
        lemma_unit_round_trip(units.last(), s, pos + head.len());
        assert(init.push(units.last()) =~= units);
        assert(init.len() == (units.len() - 1) as nat);
    }
}

/// The data-length field is never checked: whatever value it holds, the
/// ptvoice decodes to the same content.
pub proof fn lemma_voice_length_field_ignored(m: VoiceModel, data_len: i32, s: Seq<u8>, pos: int)
    requires
        voice_units_fit(m),
        bytes_at(s, pos, voice_frame(m, data_len)),
    ensures
        parse_voice(s, pos) == Ok::<(VoiceModel, int), PtvError>(
            (m, pos + voice_frame(m, data_len).len()),
        ),
{
    reveal(parse_voice);
    let sig = signature();
    let ver = le_u32_bytes(VERSION as u32);
    let len = le_u32_bytes(data_len as u32);
    let a = var_bytes_i32(m.legacy_basic_key);
    let b = var_bytes_i32(0);
    let c = var_bytes_i32(0);
    let d = var_bytes_i32(m.units.len() as i32);
    let e = units_wire(m.units);
    lemma_bytes_at_split(s, pos, sig + ver + len, voice_body(m));
    lemma_bytes_at_split(s, pos, sig + ver, len);
    lemma_bytes_at_split(s, pos, sig, ver);
    let p = pos + 16;
    lemma_bytes_at_split(s, p, a + b + c + d, e);
    lemma_bytes_at_split(s, p, a + b + c, d);
    lemma_bytes_at_split(s, p, a + b, c);
    lemma_bytes_at_split(s, p, a, b);
    lemma_le_round_trip(VERSION as u32, s, pos + 8);
    lemma_var_round_trip_i32(m.legacy_basic_key, s, p);
    lemma_var_round_trip_i32(0, s, p + a.len());
    lemma_var_round_trip_i32(0, s, p + a.len() + b.len());
    lemma_var_round_trip_i32(m.units.len() as i32, s, p + a.len() + b.len() + c.len());
    lemma_units_round_trip(m.units, s, p + a.len() + b.len() + c.len() + d.len());
}

/// Decoding the encoding of a ptvoice gives the same ptvoice back: the same
/// units in the same order, each with the same waveform variant and points
/// and the same absolute envelope points.
pub proof fn lemma_voice_round_trip(m: VoiceModel, s: Seq<u8>, pos: int)
    requires
        voice_fits(m),
        bytes_at(s, pos, voice_wire(m)),
    ensures
        parse_voice(s, pos) == Ok::<(VoiceModel, int), PtvError>((m, pos + voice_wire(m).len())),
{
    lemma_voice_length_field_ignored(m, voice_body(m).len() as i32, s, pos);
}

/// Data that does not start with the signature is invalid, whatever follows.
pub proof fn lemma_voice_signature_gate(s: Seq<u8>, pos: int)
    requires
        0 <= pos,
        pos + 8 <= s.len(),
        s.subrange(pos, pos + 8) != signature(),
    ensures
        parse_voice(s, pos) == Err::<(VoiceModel, int), PtvError>(PtvError::Invalid),
{
    reveal(parse_voice);
}

/// Data with the signature and a version above [`VERSION`] is unsupported,
/// whatever follows the version.
pub proof fn lemma_voice_version_gate(s: Seq<u8>, pos: int)
    requires
        0 <= pos,
        pos + 12 <= s.len(),
        s.subrange(pos, pos + 8) == signature(),
        le_i32(s, pos + 8) > VERSION,
    ensures
        parse_voice(s, pos) == Err::<(VoiceModel, int), PtvError>(PtvError::Unsupported),
{
    reveal(parse_voice);
}

/// An envelope whose two legacy counts are not exactly (0, 1) is invalid,
/// whatever follows them.
pub proof fn lemma_envelope_legacy_counts_rejected(
    s: Seq<u8>,
    pos: int,
    ticks: i32,
    at1: int,
    count: i32,
    at2: int,
    sustain_count: i32,
    at3: int,
    release_count: i32,
    at4: int,
)
    requires
        var_read_i32(s, pos) == Ok::<(i32, int), PtvError>((ticks, at1)),
        var_read_i32(s, at1) == Ok::<(i32, int), PtvError>((count, at2)),
        count >= 0,
        var_read_i32(s, at2) == Ok::<(i32, int), PtvError>((sustain_count, at3)),
        var_read_i32(s, at3) == Ok::<(i32, int), PtvError>((release_count, at4)),
        (sustain_count, release_count) != (0i32, 1i32),
    ensures
        parse_envelope(s, pos) == Err::<(EnvelopeModel, int), PtvError>(PtvError::Invalid),
{
    reveal(parse_envelope);
}

} // verus!
