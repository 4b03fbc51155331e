use super::PtvError;
use crate::data::{
    bytes_at, lemma_bytes_at_split, lemma_var_round_trip_i32, var_bytes_i32, var_read_i32,
    FromRead, FromReadVar, WriteTo, WriteVarTo,
};
use vstd::prelude::*;

verus! {

/// Wave type tag of a coordinate waveform.
pub const COORDINATE: i32 = 0;
/// Wave type tag of an oscillator waveform.
pub const OSCILLATOR: i32 = 1;

/// Ptvoice waveform composed of either coordinate points or sine-wave
/// harmonics.
#[derive(Clone, Debug, PartialEq)]
pub enum PtvWave {
    Coordinate {
        /// Points `(x, y)` that make up the waveform.
        ///
        /// The official ptvoice editor will refuse to open waveforms with more
        /// than 31 points, though pxtone seems to be able to handle as many as
        /// 254 points.
        points: Vec<(u8, i8)>,
        /// x-width of the waveform. Usually 256.
        x_width: i32,
    },
    Oscillator {
        /// Harmonic numbers and corresponding amplitudes that make up the
        /// waveform.
        ///
        /// The "0th" harmonic is always silent, and negative harmonic numbers
        /// will crash pxtone.
        harmonics: Vec<(i32, i32)>,
    },
}

/// The content of a [`PtvWave`].
pub enum WaveModel {
    Coordinate { points: Seq<(u8, i8)>, x_width: i32 },
    Oscillator { harmonics: Seq<(i32, i32)> },
}

impl View for PtvWave {
    type V = WaveModel;

    open spec fn view(&self) -> WaveModel {
        match self {
            PtvWave::Coordinate { points, x_width } => WaveModel::Coordinate {
                points: points@,
                x_width: *x_width,
            },
            PtvWave::Oscillator { harmonics } => WaveModel::Oscillator { harmonics: harmonics@ },
        }
    }
}

/// Decodes `n` coordinate points, each a byte `x` and a signed byte `y`.
pub open spec fn parse_coord_points(s: Seq<u8>, pos: int, n: nat) -> Result<
    (Seq<(u8, i8)>, int),
    PtvError,
>
    decreases n,
{
    if n == 0 {
        Ok((Seq::empty(), pos))
    } else {
        match parse_coord_points(s, pos, (n - 1) as nat) {
            Ok((points, p)) => match <(u8, i8) as FromRead>::parse(s, p) {
                Ok((point, end)) => Ok((points.push(point), end)),
                Err(e) => Err(e),
            },
            Err(e) => Err(e),
        }
    }
}

/// Decodes `n` harmonics, each a var-int pair `(harmonic_num, amplitude)`.
pub open spec fn parse_harmonics(s: Seq<u8>, pos: int, n: nat) -> Result<
    (Seq<(i32, i32)>, int),
    PtvError,
>
    decreases n,
{
    if n == 0 {
        Ok((Seq::empty(), pos))
    } else {
        match parse_harmonics(s, pos, (n - 1) as nat) {
            Ok((harmonics, p)) => match <(i32, i32) as FromReadVar>::var_parse(s, p) {
                Ok((pair, end)) => Ok((harmonics.push(pair), end)),
                Err(e) => Err(e),
            },
            Err(e) => Err(e),
        }
    }
}

/// The waveform at `pos` of `s`: a var-int tag, 0 for coordinate points and 1
/// for oscillator harmonics (any other tag is invalid), then the variant's
/// count (negative is invalid) and fields.
#[verifier::opaque]
pub open spec fn parse_wave(s: Seq<u8>, pos: int) -> Result<(WaveModel, int), PtvError> {
    match var_read_i32(s, pos) {
        Err(e) => Err(e),
        Ok((kind, at1)) => if kind == COORDINATE {
            match var_read_i32(s, at1) {
                Err(e) => Err(e),
                Ok((count, at2)) => if count < 0 {
                    Err(PtvError::Invalid)
                } else {
                    match var_read_i32(s, at2) {
                        Err(e) => Err(e),
                        Ok((x_width, at3)) => match parse_coord_points(s, at3, count as nat) {
                            Err(e) => Err(e),
                            Ok((points, end)) => Ok((WaveModel::Coordinate { points, x_width }, end)),
                        },
                    }
                },
            }
        } else if kind == OSCILLATOR {
            match var_read_i32(s, at1) {
                Err(e) => Err(e),
                Ok((count, at2)) => if count < 0 {
                    Err(PtvError::Invalid)
                } else {
                    match parse_harmonics(s, at2, count as nat) {
                        Err(e) => Err(e),
                        Ok((harmonics, end)) => Ok((WaveModel::Oscillator { harmonics }, end)),
                    }
                },
            }
        } else {
            Err(PtvError::Invalid)
        },
    }
}

/// Coordinate points as raw bytes, `x` then `y`.
pub open spec fn coord_points_wire(points: Seq<(u8, i8)>) -> Seq<u8>
    decreases points.len(),
{
    if points.len() == 0 {
        Seq::empty()
    } else {
        coord_points_wire(points.drop_last()) + seq![points.last().0, points.last().1 as u8]
    }
}

/// Harmonics as var-int pairs.
pub open spec fn harmonics_wire(harmonics: Seq<(i32, i32)>) -> Seq<u8>
    decreases harmonics.len(),
{
    if harmonics.len() == 0 {
        Seq::empty()
    } else {
        harmonics_wire(harmonics.drop_last()) + var_bytes_i32(harmonics.last().0) + var_bytes_i32(
            harmonics.last().1,
        )
    }
}

/// Whether a waveform can be encoded: its count fits a 32-bit signed length.
pub open spec fn wave_fits(m: WaveModel) -> bool {
    match m {
        WaveModel::Coordinate { points, .. } => points.len() <= i32::MAX,
        WaveModel::Oscillator { harmonics } => harmonics.len() <= i32::MAX,
    }
}

/// The encoding of a waveform.
pub open spec fn wave_wire(m: WaveModel) -> Seq<u8> {
    match m {
        WaveModel::Coordinate { points, x_width } => var_bytes_i32(COORDINATE) + var_bytes_i32(
            points.len() as i32,
        ) + var_bytes_i32(x_width) + coord_points_wire(points),
        WaveModel::Oscillator { harmonics } => var_bytes_i32(OSCILLATOR) + var_bytes_i32(
            harmonics.len() as i32,
        ) + harmonics_wire(harmonics),
    }
}

impl PtvWave {
    /// Creates a coordinate waveform from the given points `(x, y)` using the
    /// default x-width of 256.
    pub fn coordinate_from_points(points: Vec<(u8, i8)>) -> (r: Self)
        ensures
            r@ == (WaveModel::Coordinate { points: points@, x_width: 256 }),
    {
        PtvWave::Coordinate { points, x_width: 256 }
    }

    /// Creates an oscillator waveform from the given
    /// `(harmonic_num, amplitude)` pairs.
    ///
    /// The "0th" harmonic is always silent, and negative harmonic numbers will
    /// crash pxtone.
    pub fn oscillator_from_pairs(harmonics: Vec<(i32, i32)>) -> (r: Self)
        ensures
            r@ == (WaveModel::Oscillator { harmonics: harmonics@ }),
    {
        PtvWave::Oscillator { harmonics }
    }
}

/// Once a prefix of the coordinate points fails to decode, every longer list
/// fails the same way.
pub proof fn lemma_coord_points_err_extends(s: Seq<u8>, pos: int, k: nat, n: nat)
    requires
        k <= n,
        parse_coord_points(s, pos, k) is Err,
    ensures
        parse_coord_points(s, pos, n) == parse_coord_points(s, pos, k),
    decreases n - k,
{
    if k < n {
        lemma_coord_points_err_extends(s, pos, k, (n - 1) as nat);
    }
}

/// Once a prefix of the harmonics fails to decode, every longer list fails
/// the same way.
pub proof fn lemma_harmonics_err_extends(s: Seq<u8>, pos: int, k: nat, n: nat)
    requires
        k <= n,
        parse_harmonics(s, pos, k) is Err,
    ensures
        parse_harmonics(s, pos, n) == parse_harmonics(s, pos, k),
    decreases n - k,
{
    if k < n {
        lemma_harmonics_err_extends(s, pos, k, (n - 1) as nat);
    }
}

/// Reads `n` coordinate points at `*pos` of `source`.
fn read_coord_points(source: &[u8], pos: &mut usize, n: usize) -> (r: Result<
    Vec<(u8, i8)>,
    PtvError,
>)
    ensures
        match parse_coord_points(source@, *old(pos) as int, n as nat) {
            Ok((points, end)) => r is Ok && r->Ok_0@ == points && *final(pos) as int == end,
            Err(e) => r is Err && r->Err_0 == e,
        },
{
    let ghost start = *pos as int;
    let mut points: Vec<(u8, i8)> = Vec::new();
    let mut i: usize = 0;
    while i < n
        invariant
            i <= n,
            start == *old(pos) as int,
            parse_coord_points(source@, start, i as nat) == Ok::<(Seq<(u8, i8)>, int), PtvError>(
                (points@, *pos as int),
            ),
        decreases n - i,
    {
        let point = match <(u8, i8)>::from_read(source, pos) {
            Ok(point) => point,
            Err(e) => {
                proof {
                    lemma_coord_points_err_extends(source@, start, (i + 1) as nat, n as nat);
                }
                return Err(e);
            },
        };
        points.push(point);
        i = i + 1;
    }
    Ok(points)
}

/// Reads `n` harmonics at `*pos` of `source`.
fn read_harmonics(source: &[u8], pos: &mut usize, n: usize) -> (r: Result<
    Vec<(i32, i32)>,
    PtvError,
>)
    ensures
        match parse_harmonics(source@, *old(pos) as int, n as nat) {
            Ok((harmonics, end)) => r is Ok && r->Ok_0@ == harmonics && *final(pos) as int == end,
            Err(e) => r is Err && r->Err_0 == e,
        },
{
    let ghost start = *pos as int;
    let mut harmonics: Vec<(i32, i32)> = Vec::new();
    let mut i: usize = 0;
    while i < n
        invariant
            i <= n,
            start == *old(pos) as int,
            parse_harmonics(source@, start, i as nat) == Ok::<(Seq<(i32, i32)>, int), PtvError>(
                (harmonics@, *pos as int),
            ),
        decreases n - i,
    {
        let pair = match <(i32, i32)>::from_read_var(source, pos) {
            Ok(pair) => pair,
            Err(e) => {
                proof {
                    lemma_harmonics_err_extends(source@, start, (i + 1) as nat, n as nat);
                }
                return Err(e);
            },
        };
        harmonics.push(pair);
        i = i + 1;
    }
    Ok(harmonics)
}

/// Appends the coordinate points as raw bytes.
fn write_coord_points(points: &Vec<(u8, i8)>, sink: &mut Vec<u8>)
    ensures
        final(sink)@ == old(sink)@ + coord_points_wire(points@),
{
    let mut i: usize = 0;
    while i < points.len()
        invariant
            i <= points@.len(),
            sink@ == old(sink)@ + coord_points_wire(points@.take(i as int)),
        decreases points@.len() - i,
    {
        let (x, y) = points[i];
        let _ = x.write_to(sink);
        let _ = y.write_to(sink);
        assert(points@.take(i + 1).drop_last() =~= points@.take(i as int));
        assert(seq![x] + seq![y as u8] =~= seq![x, y as u8]);
        i = i + 1;
    }
    assert(points@.take(points@.len() as int) =~= points@);
}

/// Appends the harmonics as var-int pairs.
fn write_harmonics(harmonics: &Vec<(i32, i32)>, sink: &mut Vec<u8>)
    ensures
        final(sink)@ == old(sink)@ + harmonics_wire(harmonics@),
{
    let mut i: usize = 0;
    while i < harmonics.len()
        invariant
            i <= harmonics@.len(),
            sink@ == old(sink)@ + harmonics_wire(harmonics@.take(i as int)),
        decreases harmonics@.len() - i,
    {
        let (harmonic_num, amplitude) = harmonics[i];
        let _ = harmonic_num.write_var_to(sink);
        let _ = amplitude.write_var_to(sink);
        assert(harmonics@.take(i + 1).drop_last() =~= harmonics@.take(i as int));
        i = i + 1;
    }
    assert(harmonics@.take(harmonics@.len() as int) =~= harmonics@);
}

impl FromRead for PtvWave {
    open spec fn parse(s: Seq<u8>, pos: int) -> Result<(WaveModel, int), PtvError> {
        parse_wave(s, pos)
    }

    fn from_read(source: &[u8], pos: &mut usize) -> (r: Result<PtvWave, PtvError>) {
        proof {
            reveal(parse_wave);
        }
        let kind = match i32::from_read_var(source, pos) {
            Ok(v) => v,
            Err(e) => return Err(e),
        };
        if kind == COORDINATE {
            let point_count = match i32::from_read_var(source, pos) {
                Ok(v) => v,
                Err(e) => return Err(e),
            };
            if point_count < 0 {
                return Err(PtvError::Invalid);
            }
            let x_width = match i32::from_read_var(source, pos) {
                Ok(v) => v,
                Err(e) => return Err(e),
            };
            match read_coord_points(source, pos, point_count as usize) {
                Ok(points) => Ok(PtvWave::Coordinate { points, x_width }),
                Err(e) => Err(e),
            }
        } else if kind == OSCILLATOR {
            let harmonic_count = match i32::from_read_var(source, pos) {
                Ok(v) => v,
                Err(e) => return Err(e),
            };
            if harmonic_count < 0 {
                return Err(PtvError::Invalid);
            }
            match read_harmonics(source, pos, harmonic_count as usize) {
                Ok(harmonics) => Ok(PtvWave::Oscillator { harmonics }),
                Err(e) => Err(e),
            }
        } else {
            // Unknown wave type.
            Err(PtvError::Invalid)
        }
    }
}

impl WriteTo for PtvWave {
    open spec fn fits(m: WaveModel) -> bool {
        wave_fits(m)
    }

    open spec fn wire(m: WaveModel) -> Seq<u8> {
        wave_wire(m)
    }

    fn write_to(&self, sink: &mut Vec<u8>) -> (r: Result<usize, PtvError>) {
        let start_pos = sink.len();
        match self {
            PtvWave::Coordinate { points, x_width } => {
                if points.len() > 0x7fff_ffff {
                    return Err(PtvError::OverMax);
                }
                let _ = COORDINATE.write_var_to(sink);
                let _ = (points.len() as i32).write_var_to(sink);
                let _ = x_width.write_var_to(sink);
                write_coord_points(points, sink);
            },
            PtvWave::Oscillator { harmonics } => {
                if harmonics.len() > 0x7fff_ffff {
                    return Err(PtvError::OverMax);
                }
                let _ = OSCILLATOR.write_var_to(sink);
                let _ = (harmonics.len() as i32).write_var_to(sink);
                write_harmonics(harmonics, sink);
            },
        }
        Ok(start_pos)
    }
}

impl Default for PtvWave {
    fn default() -> (r: Self)
        ensures
            r@ == (WaveModel::Coordinate { points: seq![(0u8, 0i8)], x_width: 256 }),
    {
        let mut points = Vec::new();
        points.push((0u8, 0i8));
        Self::coordinate_from_points(points)
    }
}

/// Decoding the encoding of a list of coordinate points gives the same points
/// back.
pub proof fn lemma_coord_points_round_trip(points: Seq<(u8, i8)>, s: Seq<u8>, pos: int)
    requires
        bytes_at(s, pos, coord_points_wire(points)),
    ensures
        parse_coord_points(s, pos, points.len()) == Ok::<(Seq<(u8, i8)>, int), PtvError>(
            (points, pos + coord_points_wire(points).len()),
        ),
    decreases points.len(),
{
    if points.len() == 0 {
        assert(points =~= Seq::empty());
    } else {
        let init = points.drop_last();
        let (x, y) = points.last();
        let head = coord_points_wire(init);
        let p = pos + head.len();
        lemma_bytes_at_split(s, pos, head, seq![x, y as u8]);
        lemma_coord_points_round_trip(init, s, pos);
        assert(s[p] == s.subrange(p, p + 2)[0]);
        assert(s[p + 1] == s.subrange(p, p + 2)[1]);
        assert((y as u8) as i8 == y) by (bit_vector);
        assert(init.push((x, y)) =~= points);
        assert(init.len() == (points.len() - 1) as nat);
    }
}

/// Decoding the encoding of a list of harmonics gives the same harmonics back.
pub proof fn lemma_harmonics_round_trip(harmonics: Seq<(i32, i32)>, s: Seq<u8>, pos: int)
    requires
        bytes_at(s, pos, harmonics_wire(harmonics)),
    ensures
        parse_harmonics(s, pos, harmonics.len()) == Ok::<(Seq<(i32, i32)>, int), PtvError>(
            (harmonics, pos + harmonics_wire(harmonics).len()),
        ),
    decreases harmonics.len(),
{
    if harmonics.len() == 0 {
        assert(harmonics =~= Seq::empty());
    } else {
        let init = harmonics.drop_last();
        let (n, a) = harmonics.last();
        let head = harmonics_wire(init);
        assert(harmonics_wire(harmonics) == head + var_bytes_i32(n) + var_bytes_i32(a));
        lemma_bytes_at_split(s, pos, head + var_bytes_i32(n), var_bytes_i32(a));
        lemma_bytes_at_split(s, pos, head, var_bytes_i32(n));
        lemma_harmonics_round_trip(init, s, pos);
        lemma_var_round_trip_i32(n, s, pos + head.len());
        lemma_var_round_trip_i32(a, s, pos + head.len() + var_bytes_i32(n).len());
        assert(init.push((n, a)) =~= harmonics);
        assert(init.len() == (harmonics.len() - 1) as nat);
    }
}

/// Decoding the encoding of a waveform gives the same waveform back, of the
/// same variant, whatever follows it.
pub proof fn lemma_wave_round_trip(m: WaveModel, s: Seq<u8>, pos: int)
    requires
        wave_fits(m),
        bytes_at(s, pos, wave_wire(m)),
    ensures
        parse_wave(s, pos) == Ok::<(WaveModel, int), PtvError>((m, pos + wave_wire(m).len())),
{
    reveal(parse_wave);
    match m {
        WaveModel::Coordinate { points, x_width } => {
            let a = var_bytes_i32(COORDINATE);
            let b = var_bytes_i32(points.len() as i32);
            let c = var_bytes_i32(x_width);
            let d = coord_points_wire(points);
            lemma_bytes_at_split(s, pos, a + b + c, d);
            lemma_bytes_at_split(s, pos, a + b, c);
            lemma_bytes_at_split(s, pos, a, b);
            lemma_var_round_trip_i32(COORDINATE, s, pos);
            lemma_var_round_trip_i32(points.len() as i32, s, pos + a.len());
            lemma_var_round_trip_i32(x_width, s, pos + a.len() + b.len());
            lemma_coord_points_round_trip(points, s, pos + a.len() + b.len() + c.len());
        },
        WaveModel::Oscillator { harmonics } => {
            let a = var_bytes_i32(OSCILLATOR);
            let b = var_bytes_i32(harmonics.len() as i32);
            let c = harmonics_wire(harmonics);
            lemma_bytes_at_split(s, pos, a + b, c);
            lemma_bytes_at_split(s, pos, a, b);
            lemma_var_round_trip_i32(OSCILLATOR, s, pos);
            lemma_var_round_trip_i32(harmonics.len() as i32, s, pos + a.len());
            lemma_harmonics_round_trip(harmonics, s, pos + a.len() + b.len());
        },
    }
}

} // verus!
