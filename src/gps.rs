//! GPS receiver on a serial line. Lines are read outside until one holds a
//! recommended-minimum sentence; this driver recognises and decodes it.
use vstd::prelude::*;
use vstd::string::StringSliceAdditionalSpecFns;
use crate::message::Exception;
use crate::sensor_data::{GpsData, SensorData};
use crate::text::{contains, contains_exec, find_from, find_from_exec, fixed_value, parse_fixed, copy_range};

verus! {

/// Tag of the sentence that carries time, position, speed and course.
pub const RMC_TAG: &'static str = "$GPRMC";

/// Read timeout for one line, in milliseconds.
pub const READ_TIMEOUT_MS: u64 = 1000;

/// Start of the `k`-th comma-separated field of `s`; past the end of `s` when
/// there is no such field.
pub open spec fn field_start(s: Seq<u8>, k: nat) -> int
    decreases k,
{
    if k == 0 {
        0
    } else {
        let p = field_start(s, (k - 1) as nat);
        if p > s.len() || p < 0 {
            s.len() as int + 1
        } else {
            find_from(s, p, 44u8) + 1
        }
    }
}

/// The `k`-th comma-separated field of `s`, if there is one.
pub open spec fn field(s: Seq<u8>, k: nat) -> Option<Seq<u8>> {
    let p = field_start(s, k);
    if 0 <= p <= s.len() {
        Some(s.subrange(p, find_from(s, p, 44u8)))
    } else {
        None
    }
}

/// A field read as a decimal with `scale` fractional digits.
pub open spec fn field_value(s: Seq<u8>, k: nat, scale: nat) -> Option<int> {
    match field(s, k) {
        Some(f) => fixed_value(f, scale),
        None => None,
    }
}

/// Millionths of a degree for an angle written `dddmm.mmmm`, given in
/// ten-thousandths; only non-negative angles are valid.
pub open spec fn degrees_of(v: int) -> Option<i64> {
    if v < 0 {
        None
    } else {
        Some((v / 1_000_000 * 1_000_000 + (v % 1_000_000) * 100 / 60) as i64)
    }
}

pub open spec fn as_i64(v: Option<int>) -> Option<i64> {
    match v {
        Some(x) => Some(x as i64),
        None => None,
    }
}

/// What a recommended-minimum sentence decodes to. Longitudes are taken as
/// west of Greenwich.
pub open spec fn rmc_data(s: Seq<u8>) -> GpsData {
    GpsData {
        nmea_time: as_i64(field_value(s, 1, 3)),
        speed_knots: as_i64(field_value(s, 7, 3)),
        course_angle: as_i64(field_value(s, 8, 3)),
        latitude_deg: match field_value(s, 3, 4) {
            Some(v) => degrees_of(v),
            None => None,
        },
        longitude_deg: match field_value(s, 5, 4) {
            Some(v) => match degrees_of(v) {
                Some(d) => Some((-d) as i64),
                None => None,
            },
            None => None,
        },
    }
}

/// Whether a line holds the recommended-minimum sentence.
pub fn is_rmc(line: &[u8]) -> (r: bool)
    ensures
        r == contains(line@, RMC_TAG.spec_bytes()),
{
    contains_exec(line, RMC_TAG.as_bytes())
}

/// Bounds of the `k`-th field, if there is one.
fn field_bounds(s: &[u8], k: usize) -> (r: Option<(usize, usize)>)
    ensures
        match r {
            Some((a, b)) => field(s@, k as nat) == Some(s@.subrange(a as int, b as int)) && a <= b <= s@.len(),
            None => field(s@, k as nat) is None,
        },
{
    let mut p: usize = 0;
    let mut i: usize = 0;
    while i < k
        invariant
            i <= k,
            p <= s@.len(),
            field_start(s@, i as nat) == p,
        decreases k - i,
    {
        let end = find_from_exec(s, p, 44u8);
        if end >= s.len() {
            proof {
                assert(field_start(s@, (i + 1) as nat) == s@.len() + 1);
                lemma_past_end_stays(s@, (i + 1) as nat, k as nat);
            }
            return None;
        }
        p = end + 1;
        i = i + 1;
    }
    let end = find_from_exec(s, p, 44u8);
    Some((p, end))
}

proof fn lemma_past_end_stays(s: Seq<u8>, i: nat, k: nat)
    requires
        i <= k,
        field_start(s, i) == s.len() + 1,
    ensures
        field_start(s, k) == s.len() + 1,
    decreases k - i,
{
    if i < k {
        lemma_past_end_stays(s, i + 1, k);
    }
}

fn field_value_exec(s: &[u8], k: usize, scale: usize) -> (r: Option<i64>)
    requires
        scale <= 6,
    ensures
        r == as_i64(field_value(s@, k as nat, scale as nat)),
        r matches Some(v) ==> field_value(s@, k as nat, scale as nat) == Some(v as int),
        r matches Some(v) ==> v <= 2_000_000_000_000_000_000,
{
    match field_bounds(s, k) {
        Some((a, b)) => {
            let f = copy_range(s, a, b);
            parse_fixed(f.as_slice(), scale)
        },
        None => None,
    }
}

/// Converts an angle `dddmm.mmmm` given in ten-thousandths to millionths of a degree.
pub fn to_degrees(v: i64) -> (r: Option<i64>)
    requires
        v <= 2_000_000_000_000_000_000,
    ensures
        r == degrees_of(v as int),
{
    if v < 0 {
        return None;
    }
    Some(v / 1_000_000 * 1_000_000 + (v % 1_000_000) * 100 / 60)
}

/// Decodes a recommended-minimum sentence; see `rmc_data`. A sentence cut
/// short of its course field (the ninth) is bad data.
pub fn try_read(line: &[u8]) -> (r: Result<GpsData, Exception>)
    ensures
        field(line@, 8) is None ==> r == Err::<GpsData, Exception>(Exception::InfoBadData),
        field(line@, 8) is Some ==> r == Ok::<GpsData, Exception>(rmc_data(line@)),
{
    if field_bounds(line, 8).is_none() {
        return Err(Exception::InfoBadData);
    }
    let latitude = match field_value_exec(line, 3, 4) {
        Some(v) => to_degrees(v),
        None => None,
    };
    let longitude = match field_value_exec(line, 5, 4) {
        Some(v) => match to_degrees(v) {
            Some(d) => Some(-d),
            None => None,
        },
        None => None,
    };
    Ok(
        GpsData {
            nmea_time: field_value_exec(line, 1, 3),
            speed_knots: field_value_exec(line, 7, 3),
            course_angle: field_value_exec(line, 8, 3),
            latitude_deg: latitude,
            longitude_deg: longitude,
        },
    )
}

/// A reading from a recommended-minimum sentence, or from the fault that
/// ended the read or the decoding.
pub fn read(line: Result<&[u8], Exception>) -> (r: (SensorData, Option<Exception>))
    ensures
        match line {
            Ok(s) => if field(s@, 8) is None {
                r == (SensorData::Gps(None), Some(Exception::InfoBadData))
            } else {
                r == (SensorData::Gps(Some(rmc_data(s@))), None::<Exception>)
            },
            Err(e) => r == (SensorData::Gps(None), Some(e)),
        },
{
    match line {
        Ok(s) => match try_read(s) {
            Ok(d) => (SensorData::Gps(Some(d)), None),
            Err(e) => (SensorData::Gps(None), Some(e)),
        },
        Err(e) => (SensorData::Gps(None), Some(e)),
    }
}

} // verus!
