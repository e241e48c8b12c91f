//! Fan profiles from curve definitions outside the program: compiling a
//! parsed curve into a profile, and naming its cached table.
//!
//! A compiled table is cached under the curve's signature, so a curve whose
//! table is already cached is not compiled again.
use vstd::prelude::*;

use crate::fan_curve::{FanProfile, try_generate_fan_curve_lut_dyn};
use crate::spline::{CurveError, curve_error, spec_lut};
use crate::text::{hex, pad_front, push_hex, push_str};

verus! {

/// A curve as its definition file describes it.
pub struct ParsedCurve {
    /// The curve's name.
    pub name: String,
    /// Its knots: temperature and fan speed.
    pub points: Vec<(u8, u8)>,
    /// The XXH3 signature of its knots.
    pub signature: u64,
}

/// The name of the cache file for the table of the curve with `signature`:
/// the signature as sixteen hex digits, then `.lut`.
pub open spec fn cache_file_text(signature: u64) -> Seq<char> {
    pad_front(hex(signature as nat), 16, '0') + ".lut"@
}

/// The name of the cache file for the table of the curve with `signature`.
pub fn cache_file_name(signature: u64) -> (r: String)
    ensures
        r@ == cache_file_text(signature),
{
    proof {
        reveal_strlit("0");
        reveal_strlit(".lut");
    }
    let mut digits = String::new();
    push_hex(&mut digits, signature);
    assert(digits@ =~= hex(signature as nat));
    let mut s = String::new();
    let len = digits.unicode_len();
    let mut k: usize = len;
    while k < 16
        invariant
            len == hex(signature as nat).len(),
            len <= k <= 16 || (k == len && len > 16),
            s@ == Seq::new((k - len) as nat, |i: int| '0'),
        decreases 16 - k,
    {
        proof {
            reveal_strlit("0");
        }
        push_str(&mut s, "0");
        k = k + 1;
        assert(s@ =~= Seq::new((k - len) as nat, |i: int| '0'));
    }
    push_str(&mut s, digits.as_str());
    push_str(&mut s, ".lut");
    assert(s@ =~= cache_file_text(signature));
    s
}

/// The first and last knot temperatures stay on the EC's temperature scale
/// once moved onto it (`+73`), where there are knots.
pub open spec fn ends_on_ec_scale(points: Seq<(u8, u8)>) -> bool {
    points.len() >= 1 ==> points[0].0 <= 182 && points[points.len() - 1].0 <= 182
}

/// `p` is the profile of a parsed curve with table `lut`: named after it,
/// spanning its first to its last knot's temperature in EC units (the knots
/// are in degrees Celsius, EC readings are 73 higher), with its signature.
pub open spec fn profile_of(parsed: ParsedCurve, lut: Seq<u8>, p: FanProfile) -> bool {
    &&& p.name@ == parsed.name@
    &&& p.start == parsed.points@[0].0 + 73
    &&& p.end == parsed.points@[parsed.points@.len() - 1].0 + 73
    &&& p.lut@ == lut
    &&& p.signature == parsed.signature
}

/// The profile of a parsed curve whose table came from the cache.
pub fn profile_from_cached(parsed: ParsedCurve, lut: Vec<u8>) -> (p: FanProfile)
    requires
        parsed.points.len() >= 1,
        ends_on_ec_scale(parsed.points@),
    ensures
        profile_of(parsed, lut@, p),
{
    let start = parsed.points[0].0 + 73;
    let end = parsed.points[parsed.points.len() - 1].0 + 73;
    FanProfile { name: parsed.name, start, end, lut, signature: parsed.signature }
}

/// Compile a parsed curve into a profile, generating its table.
///
/// # Errors
///
/// The [`CurveError`] of the knots when they do not describe a curve.
pub fn compile_curve(parsed: ParsedCurve) -> (r: Result<FanProfile, CurveError>)
    requires
        ends_on_ec_scale(parsed.points@),
    ensures
        curve_error(parsed.points@) matches Some(e) ==> r == Err::<FanProfile, CurveError>(e),
        curve_error(parsed.points@) is None ==> (r matches Ok(p) && profile_of(
            parsed,
            spec_lut(parsed.points@),
            p,
        )),
{
    let lut = match try_generate_fan_curve_lut_dyn(parsed.points.as_slice()) {
        Ok(lut) => lut,
        Err(e) => {
            return Err(e);
        },
    };
    proof {
        crate::spline::lemma_valid_bounds(parsed.points@);
    }
    Ok(profile_from_cached(parsed, lut))
}

} // verus!
