use super::PtvError;
use crate::data::{
    bytes_at, lemma_bytes_at_split, lemma_var_round_trip_i32, var_bytes_i32, var_read_i32,
    FromRead, FromReadVar, WriteTo, WriteVarTo,
};
use vstd::prelude::*;
use vstd::wrapping::i32_specs::{wrapping_add, wrapping_sub};

verus! {

/// Ptvoice envelope defined by a sequence of points `(x, y)`, where the x-axis
/// represents time (in "ticks") and the y-axis represents volume.
#[derive(Clone, Debug, PartialEq)]
pub struct PtvEnvelope {
    /// List of absolute points `(x, y)` in the envelope. The last point in
    /// this list will be sustained while a note is held.
    pub points: Vec<(i32, i32)>,
    /// Release duration in ticks.
    pub release: i32,
    /// Envelope tick rate. Usually set to 1000 so that 1 tick = 1 millisecond.
    pub ticks_per_second: i32,
}

/// The content of a [`PtvEnvelope`].
pub struct EnvelopeModel {
    pub points: Seq<(i32, i32)>,
    pub release: i32,
    pub ticks_per_second: i32,
}

impl View for PtvEnvelope {
    type V = EnvelopeModel;

    open spec fn view(&self) -> EnvelopeModel {
        EnvelopeModel {
            points: self.points@,
            release: self.release,
            ticks_per_second: self.ticks_per_second,
        }
    }
}

/// The absolute x of the last point, or 0 before the first one: where the
/// next point's delta starts from.
pub open spec fn last_x(points: Seq<(i32, i32)>) -> i32 {
    if points.len() == 0 {
        0
    } else {
        points.last().0
    }
}

/// Decodes `n` points stored as `(dx, y)` var-int pairs at `pos` of `s`, each
/// `dx` added (wrapping) to the x of the point before it.
pub open spec fn parse_env_points(s: Seq<u8>, pos: int, n: nat) -> Result<
    (Seq<(i32, i32)>, int),
    PtvError,
>
    decreases n,
{
    if n == 0 {
        Ok((Seq::empty(), pos))
    } else {
        match parse_env_points(s, pos, (n - 1) as nat) {
            Ok((points, p)) => match var_read_i32(s, p) {
                Ok((dx, q)) => match var_read_i32(s, q) {
                    Ok((y, end)) => Ok((points.push((wrapping_add(last_x(points), dx), y)), end)),
                    Err(e) => Err(e),
                },
                Err(e) => Err(e),
            },
            Err(e) => Err(e),
        }
    }
}

/// The envelope at `pos` of `s`: tick rate, point count (negative is
/// invalid), the legacy counts that must be exactly 0 and 1, the points, then
/// the release pair whose y is ignored.
#[verifier::opaque]
pub open spec fn parse_envelope(s: Seq<u8>, pos: int) -> Result<(EnvelopeModel, int), PtvError> {
    match var_read_i32(s, pos) {
        Err(e) => Err(e),
        Ok((ticks, at1)) => match var_read_i32(s, at1) {
            Err(e) => Err(e),
            Ok((count, at2)) => if count < 0 {
                Err(PtvError::Invalid)
            } else {
                match var_read_i32(s, at2) {
                    Err(e) => Err(e),
                    Ok((sustain_count, at3)) => if sustain_count != 0 {
                        Err(PtvError::Invalid)
                    } else {
                        match var_read_i32(s, at3) {
                            Err(e) => Err(e),
                            Ok((release_count, at4)) => if release_count != 1 {
                                Err(PtvError::Invalid)
                            } else {
                                parse_envelope_tail(s, at4, count as nat, ticks)
                            },
                        }
                    },
                }
            },
        },
    }
}

/// The points and the release pair of an envelope, at `pos` of `s`.
pub open spec fn parse_envelope_tail(s: Seq<u8>, pos: int, count: nat, ticks: i32) -> Result<
    (EnvelopeModel, int),
    PtvError,
> {
    match parse_env_points(s, pos, count) {
        Err(e) => Err(e),
        Ok((points, at5)) => match var_read_i32(s, at5) {
            Err(e) => Err(e),
            Ok((release, at6)) => match var_read_i32(s, at6) {
                Err(e) => Err(e),
                Ok((_release_y, end)) => Ok(
                    (EnvelopeModel { points, release, ticks_per_second: ticks }, end),
                ),
            },
        },
    }
}

/// The points as `(dx, y)` var-int pairs, each `dx` the (wrapping) difference
/// from the x of the point before.
pub open spec fn env_points_wire(points: Seq<(i32, i32)>) -> Seq<u8>
    decreases points.len(),
{
    if points.len() == 0 {
        Seq::empty()
    } else {
        let init = points.drop_last();
        env_points_wire(init) + var_bytes_i32(wrapping_sub(points.last().0, last_x(init)))
            + var_bytes_i32(points.last().1)
    }
}

/// Whether an envelope can be encoded: its point count fits a 32-bit signed
/// length.
pub open spec fn envelope_fits(m: EnvelopeModel) -> bool {
    m.points.len() <= i32::MAX
}

/// The encoding of an envelope.
pub open spec fn envelope_wire(m: EnvelopeModel) -> Seq<u8> {
    var_bytes_i32(m.ticks_per_second) + var_bytes_i32(m.points.len() as i32) + var_bytes_i32(0)
        + var_bytes_i32(1) + env_points_wire(m.points) + var_bytes_i32(m.release) + var_bytes_i32(
        0,
    )
}

impl PtvEnvelope {
    /// Creates a ptvoice envelope with the given points and release time,
    /// using the default tick rate per second of 1000.
    pub fn new(points: Vec<(i32, i32)>, release: i32) -> (r: Self)
        ensures
            r@ == (EnvelopeModel { points: points@, release, ticks_per_second: 1000 }),
    {
        Self { points, release, ticks_per_second: 1000 }
    }
}

/// Reads `n` envelope points at `*pos` of `source`.
fn read_env_points(source: &[u8], pos: &mut usize, n: usize) -> (r: Result<
    Vec<(i32, i32)>,
    PtvError,
>)
    ensures
        match parse_env_points(source@, *old(pos) as int, n as nat) {
            Ok((points, end)) => r is Ok && r->Ok_0@ == points && *final(pos) as int == end,
            Err(e) => r is Err && r->Err_0 == e,
        },
{
    let ghost start = *pos as int;
    let mut points: Vec<(i32, i32)> = Vec::new();
    // x-values are relative to the previous point, so also track absolute x-value.
    let mut prev_x: i32 = 0;
    let mut i: usize = 0;
    while i < n
        invariant
            i <= n,
            start == *old(pos) as int,
            parse_env_points(source@, start, i as nat) == Ok::<(Seq<(i32, i32)>, int), PtvError>(
                (points@, *pos as int),
            ),
            prev_x == last_x(points@),
        decreases n - i,
    {
        let (dx, y) = match <(i32, i32)>::from_read_var(source, pos) {
            Ok(pair) => pair,
            Err(e) => {
                proof {
                    lemma_env_points_err_extends(source@, start, (i + 1) as nat, n as nat);
                }
                return Err(e);
            },
        };
        prev_x = prev_x.wrapping_add(dx);
        points.push((prev_x, y));
        i = i + 1;
    }
    Ok(points)
}

/// Appends the points as `(dx, y)` var-int pairs.
fn write_env_points(points: &Vec<(i32, i32)>, sink: &mut Vec<u8>)
    ensures
        final(sink)@ == old(sink)@ + env_points_wire(points@),
{
    let mut prev_x: i32 = 0;
    let mut i: usize = 0;
    while i < points.len()
        invariant
            i <= points@.len(),
            sink@ == old(sink)@ + env_points_wire(points@.take(i as int)),
            prev_x == last_x(points@.take(i as int)),
        decreases points@.len() - i,
    {
        let (x, y) = points[i];
        let _ = (x.wrapping_sub(prev_x), y).write_var_to(sink);
        prev_x = x;
        assert(points@.take(i + 1).drop_last() =~= points@.take(i as int));
        i = i + 1;
    }
    assert(points@.take(points@.len() as int) =~= points@);
}

impl FromRead for PtvEnvelope {
    open spec fn parse(s: Seq<u8>, pos: int) -> Result<(EnvelopeModel, int), PtvError> {
        parse_envelope(s, pos)
    }

    fn from_read(source: &[u8], pos: &mut usize) -> (r: Result<PtvEnvelope, PtvError>) {
        proof {
            reveal(parse_envelope);
        }
        let ticks_per_second = match i32::from_read_var(source, pos) {
            Ok(v) => v,
            Err(e) => return Err(e),
        };
        let point_count = match i32::from_read_var(source, pos) {
            Ok(v) => v,
            Err(e) => return Err(e),
        };
        if point_count < 0 {
            return Err(PtvError::Invalid);
        }
        // Read unused point counts, verifying that their values are 0 and 1
        // respectively. These are leftovers from when pxtone was planned to
        // have separate attack, sustain, and release envelopes; now, there must
        // be exactly 0 sustain points and exactly 1 release point.
        match i32::from_read_var(source, pos) {
            Ok(v) => if v != 0 {
                return Err(PtvError::Invalid);
            },
            Err(e) => return Err(e),
        }
        match i32::from_read_var(source, pos) {
            Ok(v) => if v != 1 {
                return Err(PtvError::Invalid);
            },
            Err(e) => return Err(e),
        }
        let points = match read_env_points(source, pos, point_count as usize) {
            Ok(points) => points,
            Err(e) => return Err(e),
        };
        // Read single release point. pxtone hardcodes a 0 for the release
        // y-value, so the y-value obtained here goes unused.
        let (release, _release_y) = match <(i32, i32)>::from_read_var(source, pos) {
            Ok(pair) => pair,
            Err(e) => return Err(e),
        };
        Ok(PtvEnvelope { points, release, ticks_per_second })
    }
}

impl WriteTo for PtvEnvelope {
    open spec fn fits(m: EnvelopeModel) -> bool {
        envelope_fits(m)
    }

    open spec fn wire(m: EnvelopeModel) -> Seq<u8> {
        envelope_wire(m)
    }

    fn write_to(&self, sink: &mut Vec<u8>) -> (r: Result<usize, PtvError>) {
        let start_pos = sink.len();
        if self.points.len() > 0x7fff_ffff {
            return Err(PtvError::OverMax);
        }
        let _ = self.ticks_per_second.write_var_to(sink);
        let _ = (self.points.len() as i32).write_var_to(sink);
        // Unused sustain & release point counts, always expected to be 0 and 1.
        let _ = 0i32.write_var_to(sink);
        let _ = 1i32.write_var_to(sink);
        write_env_points(&self.points, sink);
        // Single release point.
        let _ = (self.release, 0i32).write_var_to(sink);
        Ok(start_pos)
    }
}

impl Default for PtvEnvelope {
    fn default() -> (r: Self)
        ensures
            r@ == (EnvelopeModel { points: seq![(0i32, 96i32)], release: 1, ticks_per_second: 1000 }),
    {
        let mut points = Vec::new();
        points.push((0, 96));
        Self::new(points, 1)
    }
}

/// Decoding the encoding of a list of envelope points gives the same absolute
/// points back.
pub proof fn lemma_env_points_round_trip(points: Seq<(i32, i32)>, s: Seq<u8>, pos: int)
    requires
        bytes_at(s, pos, env_points_wire(points)),
    ensures
        parse_env_points(s, pos, points.len()) == Ok::<(Seq<(i32, i32)>, int), PtvError>(
            (points, pos + env_points_wire(points).len()),
        ),
    decreases points.len(),
{
    if points.len() == 0 {
        assert(points =~= Seq::empty());
    } else {
        let init = points.drop_last();
        let (x, y) = points.last();
        let dx = wrapping_sub(x, last_x(init));
        let head = env_points_wire(init);
        assert(env_points_wire(points) == head + var_bytes_i32(dx) + var_bytes_i32(y));
        lemma_bytes_at_split(s, pos, head + var_bytes_i32(dx), var_bytes_i32(y));
        lemma_bytes_at_split(s, pos, head, var_bytes_i32(dx));
        lemma_env_points_round_trip(init, s, pos);
        lemma_var_round_trip_i32(dx, s, pos + head.len());
        lemma_var_round_trip_i32(y, s, pos + head.len() + var_bytes_i32(dx).len());
        assert(wrapping_add(last_x(init), dx) == x);
        assert(init.push((x, y)) =~= points);
        assert(init.len() == (points.len() - 1) as nat);
    }
}

/// Once a prefix of the points fails to decode, every longer list fails the
/// same way.
pub proof fn lemma_env_points_err_extends(s: Seq<u8>, pos: int, k: nat, n: nat)
    requires
        k <= n,
        parse_env_points(s, pos, k) is Err,
    ensures
        parse_env_points(s, pos, n) == parse_env_points(s, pos, k),
    decreases n - k,
{
    if k < n {
        lemma_env_points_err_extends(s, pos, k, (n - 1) as nat);
    }
}

/// Decoding the encoding of an envelope gives the same envelope back,
/// whatever follows it.
pub proof fn lemma_envelope_round_trip(m: EnvelopeModel, s: Seq<u8>, pos: int)
    requires
        envelope_fits(m),
        bytes_at(s, pos, envelope_wire(m)),
    ensures
        parse_envelope(s, pos) == Ok::<(EnvelopeModel, int), PtvError>(
            (m, pos + envelope_wire(m).len()),
        ),
{
    reveal(parse_envelope);
    let a = var_bytes_i32(m.ticks_per_second);
    let b = var_bytes_i32(m.points.len() as i32);
    let c = var_bytes_i32(0);
    let d = var_bytes_i32(1);
    let e = env_points_wire(m.points);
    let f = var_bytes_i32(m.release);
    let g = var_bytes_i32(0);
    lemma_bytes_at_split(s, pos, a + b + c + d + e + f, g);
    lemma_bytes_at_split(s, pos, a + b + c + d + e, f);
    lemma_bytes_at_split(s, pos, a + b + c + d, e);
    lemma_bytes_at_split(s, pos, a + b + c, d);
    lemma_bytes_at_split(s, pos, a + b, c);
    lemma_bytes_at_split(s, pos, a, b);
    let at1 = pos + a.len();
    let at2 = at1 + b.len();
    let at3 = at2 + c.len();
    let at4 = at3 + d.len();
    let at5 = at4 + e.len();
    let at6 = at5 + f.len();
    lemma_var_round_trip_i32(m.ticks_per_second, s, pos);
    lemma_var_round_trip_i32(m.points.len() as i32, s, at1);
    lemma_var_round_trip_i32(0, s, at2);
    lemma_var_round_trip_i32(1, s, at3);
    lemma_env_points_round_trip(m.points, s, at4);
    lemma_var_round_trip_i32(m.release, s, at5);
    lemma_var_round_trip_i32(0, s, at6);
}

} // verus!
