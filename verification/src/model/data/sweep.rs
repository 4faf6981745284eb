//! Sweeps: the radials of one rotation of the antenna at one elevation.
use vstd::prelude::*;
use crate::model::data::radial::Radial;
use crate::model::result::Error;
use crate::model::float_order::{f32_bits_key, sort_f32_bits};
use crate::model::sorting::{lemma_insert_stable, lemma_stable_sorted_empty, stable_sorted_by_key};

verus! {

/// A single radar sweep: a full rotation at one elevation, made of radials.
#[derive(Debug, Clone, PartialEq, Eq)]
pub struct Sweep {
    elevation_number: u8,
    radials: Vec<Radial>,
}

/// The radials of a list of sweeps, one sweep after the other.
pub open spec fn concat_radials(sweeps: Seq<Sweep>) -> Seq<Radial>
    decreases sweeps.len(),
{
    if sweeps.len() == 0 {
        Seq::empty()
    } else {
        concat_radials(sweeps.drop_last()) + sweeps.last().spec_radials()
    }
}

/// `sweeps` splits `radials` into maximal runs of equal elevation number:
/// the sweeps hold the radials in order, each sweep is non-empty and all its
/// radials have the sweep's elevation number, and consecutive sweeps have
/// different elevation numbers.
pub open spec fn splits_by_elevation(radials: Seq<Radial>, sweeps: Seq<Sweep>) -> bool {
    &&& concat_radials(sweeps) == radials
    &&& forall|k: int|
        0 <= k < sweeps.len() ==> (#[trigger] sweeps[k]).spec_radials().len() > 0 && forall|j: int|
            0 <= j < sweeps[k].spec_radials().len() ==> (#[trigger] sweeps[k].spec_radials()[j]).spec_elevation_number()
                == sweeps[k].spec_elevation_number()
    &&& forall|k: int|
        0 <= k < sweeps.len() - 1 ==> (#[trigger] sweeps[k]).spec_elevation_number()
            != sweeps[k + 1].spec_elevation_number()
}

/// The sort key of a radial in a sweep: its azimuth number.
pub open spec fn azimuth_number_key() -> spec_fn(Radial) -> int {
    |r: Radial| r.spec_azimuth_number() as int
}

/// `out` is the stable sort of `input` by azimuth number: sorted, and for
/// every azimuth number the radials with that number are those of the input,
/// in the input's order.
pub open spec fn stable_sorted_by_azimuth(out: Seq<Radial>, input: Seq<Radial>) -> bool {
    stable_sorted_by_key(out, input, azimuth_number_key())
}

/// Stable insertion sort of radials by azimuth number.
pub fn sort_by_azimuth_number(radials: Vec<Radial>) -> (r: Vec<Radial>)
    ensures
        stable_sorted_by_azimuth(r@, radials@),
{
    let ghost input = radials@;
    let ghost key = azimuth_number_key();
    let mut out: Vec<Radial> = Vec::new();
    proof {
        lemma_stable_sorted_empty(key);
        assert(input.take(0) =~= out@);
    }
    for radial in it: radials.into_iter()
        invariant
            it.seq() == input,
            key == azimuth_number_key(),
            stable_sorted_by_azimuth(out@, input.take(it.index() as int)),
    {
        let number = radial.azimuth_number();
        let mut p: usize = 0;
        while p < out.len() && out[p].azimuth_number() <= number
            invariant
                p <= out@.len(),
                key == azimuth_number_key(),
                forall|i: int| 0 <= i < p ==> key(#[trigger] out@[i]) <= number,
            decreases out@.len() - p,
        {
            p = p + 1;
        }
        proof {
            let s = out@;
            assert forall|i: int| p <= i < s.len() implies key(#[trigger] s[i]) > key(radial) by {
                assert(key(s[p as int]) > number);
                assert(key(s[p as int]) <= key(s[i]));
            }
            lemma_insert_stable(s, input.take(it.index() as int), radial, p as int, key);
            assert(input.take(it.index() + 1) =~= input.take(it.index() as int).push(radial));
        }
        out.insert(p, radial);
    }
    proof {
        assert(input.take(input.len() as int) =~= input);
    }
    out
}


/// Milliseconds since the UNIX epoch of the earliest UTC time that chrono
/// represents: January 1 of the year -262143, 00:00:00.000.
pub const EARLIEST_CHRONO_MILLIS: i64 = -8_334_601_228_800_000i64;

/// Milliseconds since the UNIX epoch of the latest UTC time that chrono
/// represents, to the millisecond: December 31 of the year 262142,
/// 23:59:59.999.
pub const LATEST_CHRONO_MILLIS: i64 = 8_210_266_876_799_999i64;

/// Whether a number of milliseconds since the UNIX epoch lies in the range
/// of times that chrono represents.
pub open spec fn chrono_millis_valid(millis: i64) -> bool {
    EARLIEST_CHRONO_MILLIS <= millis <= LATEST_CHRONO_MILLIS
}

/// Tells whether chrono can represent a UTC time given in milliseconds since
/// the UNIX epoch, with `chrono::DateTime::<Utc>::from_timestamp_millis`.
/// That function splits the milliseconds into whole days and the time of
/// day, and succeeds exactly when the day lies between `DateTime::MIN_UTC`
/// and `DateTime::MAX_UTC` (the years -262143 to 262142); every time of day
/// it forms is valid. The claim is that it succeeds exactly on that range.
#[verifier::external_body]
fn timestamp_is_representable(millis: i64) -> (r: bool)
    ensures
        r == chrono_millis_valid(millis),
{
    chrono::DateTime::from_timestamp_millis(millis).is_some()
}

/// `lo` and `hi` are the earliest and latest of the times that are kept.
pub open spec fn is_kept_range(times: Seq<i64>, keep: Seq<bool>, lo: i64, hi: i64) -> bool {
    &&& exists|i: int| 0 <= i < times.len() && keep[i] && times[i] == lo
    &&& exists|i: int| 0 <= i < times.len() && keep[i] && times[i] == hi
    &&& forall|i: int| 0 <= i < times.len() && keep[i] ==> lo <= times[i] <= hi
}

/// The earliest kept time is not after the latest.
pub proof fn lemma_kept_range_ordered(times: Seq<i64>, keep: Seq<bool>, lo: i64, hi: i64)
    requires
        is_kept_range(times, keep, lo, hi),
    ensures
        lo <= hi,
{
    let i = choose|i: int| 0 <= i < times.len() && keep[i] && times[i] == lo;
    assert(lo <= times[i] <= hi);
}

/// The earliest and latest of the times that are kept, if any is kept.
pub fn valid_time_range(times: &[i64], keep: &[bool]) -> (r: Option<(i64, i64)>)
    requires
        times@.len() == keep@.len(),
    ensures
        r is None <==> (forall|i: int| 0 <= i < keep@.len() ==> !keep@[i]),
        r matches Some((lo, hi)) ==> is_kept_range(times@, keep@, lo, hi),
{
    let mut range: Option<(i64, i64)> = None;
    let mut i: usize = 0;
    while i < times.len()
        invariant
            times@.len() == keep@.len(),
            i <= times@.len(),
            range is None <==> (forall|k: int| 0 <= k < i ==> !keep@[k]),
            range matches Some((lo, hi)) ==> {
                &&& exists|k: int| 0 <= k < i && keep@[k] && times@[k] == lo
                &&& exists|k: int| 0 <= k < i && keep@[k] && times@[k] == hi
                &&& forall|k: int| 0 <= k < i && keep@[k] ==> lo <= times@[k] <= hi
            },
        decreases times@.len() - i,
    {
        if keep[i] {
            let t = times[i];
            range = match range {
                None => Some((t, t)),
                Some((lo, hi)) => Some((if t < lo { t } else { lo }, if t > hi { t } else { hi })),
            };
        }
        i = i + 1;
    }
    range
}

/// The middle of a sorted, non-empty list of angles: the middle one for an
/// odd count, the two middle ones for an even count.
#[derive(Debug, Clone, Copy, PartialEq, Eq, Structural)]
pub enum MiddleAngles {
    /// The middle angle (an odd count), as an `f32` bit pattern.
    One(u32),
    /// The two middle angles (an even count), as `f32` bit patterns.
    Two(u32, u32),
}

/// The middle of a sorted, non-empty sequence.
pub open spec fn middle_of(s: Seq<u32>) -> MiddleAngles {
    if s.len() % 2 == 0 {
        MiddleAngles::Two(s[s.len() / 2 - 1], s[(s.len() / 2) as int])
    } else {
        MiddleAngles::One(s[(s.len() / 2) as int])
    }
}

impl Sweep {
    /// The elevation number of the sweep.
    pub closed spec fn spec_elevation_number(self) -> u8 {
        self.elevation_number
    }

    /// The radials of the sweep.
    pub closed spec fn spec_radials(self) -> Seq<Radial> {
        self.radials@
    }

    /// Creates a sweep with the given elevation number and radials.
    pub fn new(elevation_number: u8, radials: Vec<Radial>) -> (r: Self)
        ensures
            r.spec_elevation_number() == elevation_number,
            r.spec_radials() == radials@,
    {
        Sweep { elevation_number, radials }
    }

    /// The elevation number of this sweep in the volume scan.
    pub fn elevation_number(&self) -> (r: u8)
        ensures
            r == self.spec_elevation_number(),
    {
        self.elevation_number
    }

    /// The radials comprising this sweep.
    pub fn radials(&self) -> (r: &[Radial])
        ensures
            r@ == self.spec_radials(),
    {
        self.radials.as_slice()
    }

    /// Splits a list of radials into sweeps: each maximal run of consecutive
    /// radials with the same elevation number becomes one sweep.
    pub fn from_radials(radials: Vec<Radial>) -> (r: Vec<Sweep>)
        ensures
            splits_by_elevation(radials@, r@),
    {
        let ghost input = radials@;
        let mut sweeps: Vec<Sweep> = Vec::new();
        let mut current_elevation: Option<u8> = None;
        let mut current: Vec<Radial> = Vec::new();
        for radial in it: radials.into_iter()
            invariant
                it.seq() == input,
                concat_radials(sweeps@) + current@ == input.take(it.index() as int),
                forall|k: int|
                    0 <= k < sweeps@.len() ==> (#[trigger] sweeps@[k]).spec_radials().len() > 0
                        && forall|j: int|
                        0 <= j < sweeps@[k].spec_radials().len() ==> (
                        #[trigger] sweeps@[k].spec_radials()[j]).spec_elevation_number()
                            == sweeps@[k].spec_elevation_number(),
                forall|k: int|
                    0 <= k < sweeps@.len() - 1 ==> (#[trigger] sweeps@[k]).spec_elevation_number()
                        != sweeps@[k + 1].spec_elevation_number(),
                current_elevation is None ==> sweeps@.len() == 0 && current@.len() == 0,
                current_elevation matches Some(e) ==> current@.len() > 0 && (forall|j: int|
                    0 <= j < current@.len() ==> (#[trigger] current@[j]).spec_elevation_number()
                        == e) && (sweeps@.len() > 0 ==> sweeps@.last().spec_elevation_number()
                    != e),
        {
            let ghost before = input.take(it.index() as int);
            let e = radial.elevation_number();
            if let Some(ce) = current_elevation {
                if ce != e {
                    let finished = current;
                    current = Vec::new();
                    let ghost old_sweeps = sweeps@;
                    let sweep = Sweep::new(ce, finished);
                    sweeps.push(sweep);
                    proof {
                        assert(sweeps@.drop_last() =~= old_sweeps);
                        assert(concat_radials(sweeps@) =~= concat_radials(old_sweeps) + sweep.spec_radials());
                        assert(concat_radials(sweeps@) + current@ =~= before);
                        assert forall|k: int|
                            0 <= k < sweeps@.len() - 1 implies (#[trigger] sweeps@[k]).spec_elevation_number()
                                != sweeps@[k + 1].spec_elevation_number() by {
                            if k < sweeps@.len() - 2 {
                                assert(sweeps@[k] == old_sweeps[k] && sweeps@[k + 1] == old_sweeps[k + 1]);
                            } else {
                                assert(sweeps@[k] == old_sweeps.last());
                            }
                        }
                    }
                }
            }
            current_elevation = Some(e);
            let ghost cur_before = current@;
            current.push(radial);
            proof {
                assert(input.take(it.index() + 1) =~= before.push(radial));
                assert(concat_radials(sweeps@) + current@ =~= (concat_radials(sweeps@) + cur_before).push(radial));
            }
        }
        if let Some(ce) = current_elevation {
            if current.len() > 0 {
                let ghost old_sweeps = sweeps@;
                let sweep = Sweep::new(ce, current);
                sweeps.push(sweep);
                proof {
                    assert(sweeps@.drop_last() =~= old_sweeps);
                    assert forall|k: int|
                        0 <= k < sweeps@.len() - 1 implies (#[trigger] sweeps@[k]).spec_elevation_number()
                            != sweeps@[k + 1].spec_elevation_number() by {
                        if k < sweeps@.len() - 2 {
                            assert(sweeps@[k] == old_sweeps[k] && sweeps@[k + 1] == old_sweeps[k + 1]);
                        } else {
                            assert(sweeps@[k] == old_sweeps.last());
                        }
                    }
                }
            }
        }
        proof {
            assert(input.take(input.len() as int) =~= input);
            if current_elevation is None {
                assert(concat_radials(sweeps@) =~= Seq::<Radial>::empty());
            }
        }
        sweeps
    }

    /// The collection times of the radials, in milliseconds since the UNIX
    /// epoch.
    pub open spec fn collection_times(self) -> Seq<i64> {
        self.spec_radials().map_values(|r: Radial| r.spec_collection_timestamp())
    }

    /// The earliest and latest collection times of the radials, in
    /// milliseconds since the UNIX epoch, among the times that chrono can
    /// represent. `None` when the sweep has no radial with such a time.
    pub fn time_range_millis(&self) -> (r: Option<(i64, i64)>)
        ensures
            r is None <==> (forall|i: int|
                0 <= i < self.collection_times().len() ==> !chrono_millis_valid(
                    #[trigger] self.collection_times()[i],
                )),
            r matches Some((lo, hi)) ==> is_kept_range(
                self.collection_times(),
                self.collection_times().map_values(|t: i64| chrono_millis_valid(t)),
                lo,
                hi,
            ),
    {
        let mut times: Vec<i64> = Vec::new();
        let mut keep: Vec<bool> = Vec::new();
        let mut i: usize = 0;
        while i < self.radials.len()
            invariant
                i <= self.radials@.len(),
                times@ == self.collection_times().take(i as int),
                keep@ == self.collection_times().take(i as int).map_values(|t: i64| chrono_millis_valid(t)),
            decreases self.radials@.len() - i,
        {
            let t = self.radials[i].collection_timestamp();
            times.push(t);
            keep.push(timestamp_is_representable(t));
            i = i + 1;
            proof {
                assert(times@ =~= self.collection_times().take(i as int));
                assert(keep@ =~= self.collection_times().take(i as int).map_values(|t: i64| chrono_millis_valid(t)));
            }
        }
        proof {
            assert(times@ =~= self.collection_times());
            assert(self.collection_times().take(i as int) =~= self.collection_times());
        }
        let r = valid_time_range(times.as_slice(), keep.as_slice());
        proof {
            let t = self.collection_times();
            assert forall|k: int| 0 <= k < t.len() implies keep@[k] == chrono_millis_valid(#[trigger] t[k]) by {}
            if let Some((lo, hi)) = r {
                let a = choose|k: int| 0 <= k < times@.len() && keep@[k] && times@[k] == lo;
                assert(chrono_millis_valid(t[a]));
                let b = choose|k: int| 0 <= k < times@.len() && keep@[k] && times@[k] == hi;
                assert(chrono_millis_valid(t[b]));
            }
        }
        r
    }

    /// The elevation angles of the radials, as `f32` bit patterns.
    pub open spec fn elevation_angles(self) -> Seq<u32> {
        self.spec_radials().map_values(|r: Radial| r.spec_elevation_angle_bits())
    }

    /// The middle of the radials' elevation angles in ascending order, from
    /// which the sweep's median elevation is taken; `None` for a sweep
    /// without radials.
    pub fn middle_elevation_bits(&self) -> (r: Option<MiddleAngles>)
        ensures
            r is None <==> self.spec_radials().len() == 0,
            r is Some ==> exists|s: Seq<u32>|
                stable_sorted_by_key(s, self.elevation_angles(), f32_bits_key()) && r == Some(
                    middle_of(s),
                ),
    {
        if self.radials.len() == 0 {
            return None;
        }
        let mut angles: Vec<u32> = Vec::new();
        let mut i: usize = 0;
        while i < self.radials.len()
            invariant
                i <= self.radials@.len(),
                angles@ == self.elevation_angles().take(i as int),
            decreases self.radials@.len() - i,
        {
            angles.push(self.radials[i].elevation_angle_bits());
            i = i + 1;
            proof {
                assert(angles@ =~= self.elevation_angles().take(i as int));
            }
        }
        proof {
            assert(angles@ =~= self.elevation_angles());
        }
        let sorted = sort_f32_bits(angles);
        let n = sorted.len();
        let mid = n / 2;
        let m = if n % 2 == 0 {
            MiddleAngles::Two(sorted[mid - 1], sorted[mid])
        } else {
            MiddleAngles::One(sorted[mid])
        };
        assert(m == middle_of(sorted@));
        Some(m)
    }

    /// Merges this sweep with another at the same elevation: the radials of
    /// both, stably sorted by azimuth number. Fails with
    /// `ElevationMismatchError` when the elevation numbers differ.
    pub fn merge(self, other: Self) -> (r: Result<Self, Error>)
        ensures
            (self.spec_elevation_number() != other.spec_elevation_number()) <==> r is Err,
            r matches Err(e) ==> e == Error::ElevationMismatchError,
            r matches Ok(s) ==> s.spec_elevation_number() == self.spec_elevation_number()
                && stable_sorted_by_azimuth(
                s.spec_radials(),
                self.spec_radials() + other.spec_radials(),
            ),
    {
        if self.elevation_number != other.elevation_number {
            return Err(Error::ElevationMismatchError);
        }
        let mut radials = self.radials;
        let mut rest = other.radials;
        radials.append(&mut rest);
        let sorted = sort_by_azimuth_number(radials);
        Ok(Sweep { elevation_number: self.elevation_number, radials: sorted })
    }
}

} // verus!
