use vstd::prelude::*;
use crate::strings::str_eq;
use vstd::arithmetic::power::pow;

verus! {

/// Separator used by the agent when it flattens a path into a single file name.
pub const PATH_DELIMITER: &'static str = "__SEP__";

/// `x` clamped to the range of `i64`.
pub open spec fn clamp_i64(x: int) -> int {
    if x > i64::MAX {
        i64::MAX as int
    } else if x < i64::MIN {
        i64::MIN as int
    } else {
        x
    }
}

/// The exponential backoff `base * growth_factor^exp`, both steps saturating at the
/// bounds of `i64`, capped at `max`.
pub open spec fn spec_exp_backoff(base: int, growth_factor: int, exp: nat, max: int) -> int {
    let grown = clamp_i64(base * clamp_i64(pow(growth_factor, exp)));
    if grown <= max {
        grown
    } else {
        max
    }
}

/// The exact product `a * b` clamped to the bounds of `i64` (what `i64::saturating_mul`
/// computes): a product that overflows saturates towards its sign.
fn i64_saturating_mul(a: i64, b: i64) -> (r: i64)
    ensures
        r == clamp_i64(a * b),
{
    match a.checked_mul(b) {
        Some(p) => p,
        None => {
            if (a < 0) == (b < 0) {
                assert(a * b >= 0) by (nonlinear_arith)
                    requires
                        (a < 0) == (b < 0),
                ;
                i64::MAX
            } else {
                assert(a * b <= 0) by (nonlinear_arith)
                    requires
                        (a < 0) != (b < 0),
                ;
                i64::MIN
            }
        },
    }
}

/// Calls `i64::saturating_pow`, which std documents as `a.pow(exp)` computed exactly and
/// clamped to the bounds of `i64`.
#[verifier::external_body]
fn i64_saturating_pow(a: i64, exp: u32) -> (r: i64)
    ensures
        r == clamp_i64(pow(a as int, exp as nat)),
{
    a.saturating_pow(exp)
}

/// Exponential backoff: `base * growth_factor^exp`, saturating, and never above `max`.
pub fn calc_exp_backoff(base: i64, growth_factor: i64, exp: u32, max: i64) -> (r: i64)
    ensures
        r == spec_exp_backoff(base as int, growth_factor as int, exp as nat, max as int),
{
    let grown = i64_saturating_mul(base, i64_saturating_pow(growth_factor, exp));
    if grown <= max {
        grown
    } else {
        max
    }
}

/// The backoff never exceeds its cap.
pub proof fn lemma_exp_backoff_capped(base: i64, growth_factor: i64, exp: u32, max: i64)
    ensures
        spec_exp_backoff(base as int, growth_factor as int, exp as nat, max as int) <= max,
{
}

/// With a non-negative base and a growth factor of at least one, the backoff never
/// shrinks as the exponent grows.
pub proof fn lemma_exp_backoff_monotonic(base: i64, growth_factor: i64, e1: u32, e2: u32, max: i64)
    requires
        base >= 0,
        growth_factor >= 1,
        e1 <= e2,
    ensures
        spec_exp_backoff(base as int, growth_factor as int, e1 as nat, max as int)
            <= spec_exp_backoff(base as int, growth_factor as int, e2 as nat, max as int),
{
    vstd::arithmetic::power::lemma_pow_increases(growth_factor as nat, e1 as nat, e2 as nat);
    vstd::arithmetic::power::lemma_pow_positive(growth_factor as int, e1 as nat);
    let p1 = clamp_i64(pow(growth_factor as int, e1 as nat));
    let p2 = clamp_i64(pow(growth_factor as int, e2 as nat));
    assert(0 <= p1 <= p2);
    assert(base * p1 <= base * p2) by (nonlinear_arith)
        requires
            base >= 0,
            p1 <= p2,
    ;
}

/// Settings of the exponential backoff applied between failed syncs.
#[derive(Debug, Clone, Copy)]
pub struct CooldownOptions {
    pub base_secs: i64,
    pub growth_factor: i64,
    pub max_secs: i64,
}

impl Default for CooldownOptions {
    fn default() -> (r: Self)
        ensures
            r.base_secs == 15,
            r.growth_factor == 2,
            r.max_secs == 12 * 60 * 60,
    {
        CooldownOptions { base_secs: 15, growth_factor: 2, max_secs: 12 * 60 * 60 }
    }
}

/// A span in milliseconds as a duration: a span that is not positive is empty.
pub fn as_duration(time_delta_ms: i64) -> (r: u64)
    ensures
        time_delta_ms <= 0 ==> r == 0,
        time_delta_ms > 0 ==> r == time_delta_ms,
{
    if time_delta_ms <= 0 {
        0
    } else {
        time_delta_ms as u64
    }
}

/// One of the arguments that ask for the version.
pub open spec fn is_version_arg(arg: Seq<char>) -> bool {
    arg == "version"@ || arg == "--version"@ || arg == "-v"@
}

/// Whether any of the command line arguments asks for the version.
pub fn has_version_flag(args: &Vec<String>) -> (r: bool)
    ensures
        r == exists|i: int| 0 <= i < args@.len() && is_version_arg(#[trigger] args@[i]@),
{
    let mut i: usize = 0;
    while i < args.len()
        invariant
            0 <= i <= args@.len(),
            forall|j: int| 0 <= j < i ==> !is_version_arg(#[trigger] args@[j]@),
        decreases args@.len() - i,
    {
        let arg = args[i].as_str();
        if str_eq(arg, "version") || str_eq(arg, "--version") || str_eq(arg, "-v") {
            return true;
        }
        i = i + 1;
    }
    false
}

} // verus!
