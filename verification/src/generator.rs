//! The random-value generator backend: a bounded-range integer draw and a
//! typed-charset string draw, each behind the validation the service
//! performs before sampling.

use vstd::prelude::*;

use crate::charset::charset_for;
use crate::charset::spec_charset;
use crate::messages::NumberRequest;
use crate::messages::NumberResponse;
use crate::messages::StringRequest;
use crate::messages::StringResponse;
use crate::messages::UpstreamStatus;

verus! {

/// Relies on rand's `Rng::gen_range` over `min..=max`: the sample lies in
/// the inclusive range, and the range is non-empty, so the call does not
/// panic. Which value comes back is left open.
#[verifier::external_body]
fn sample_inclusive(min: i32, max: i32) -> (r: i32)
    requires
        min <= max,
    ensures
        min <= r <= max,
{
    rand::Rng::gen_range(&mut rand::thread_rng(), min..=max)
}

/// The generator service. It holds no state: each request is validated and
/// answered on its own.
#[derive(Debug)]
pub struct RandomGeneratorService {}

impl Default for RandomGeneratorService {
    fn default() -> (r: Self)
        ensures
            r == (RandomGeneratorService {}),
    {
        RandomGeneratorService {}
    }
}

impl RandomGeneratorService {
    /// Draws a random integer from the inclusive range `[min, max]`.
    /// A request with `min > max` is rejected before any sampling; a valid
    /// request always succeeds, and with `min == max` the answer can only be
    /// `min`.
    pub fn get_random_number(&self, req: &NumberRequest) -> (r: Result<
        NumberResponse,
        UpstreamStatus,
    >)
        ensures
            req.min <= req.max ==> (r matches Ok(resp) && req.min <= resp.number <= req.max),
            req.min == req.max ==> (r matches Ok(resp) && resp.number == req.min),
            req.min > req.max ==> (r matches Err(e) && e.kind is InvalidArgument && e.message@
                == "min must be less than or equal to max"@),
    {
        if req.min > req.max {
            return Err(UpstreamStatus::invalid_range());
        }
        let number = sample_inclusive(req.min, req.max);
        Ok(NumberResponse { number })
    }

    /// Draws a random string of exactly `length` characters, each taken from
    /// the character set selected by `char_type` (unrecognized tags fall back
    /// to the alphanumeric set). A request with `length <= 0` is rejected
    /// before any sampling; a valid request always succeeds.
    pub fn get_random_string(&self, req: &StringRequest) -> (r: Result<
        StringResponse,
        UpstreamStatus,
    >)
        ensures
            req.length > 0 ==> (r matches Ok(resp) && resp.value@.len() == req.length as int && (
            forall|j: int|
                0 <= j < resp.value@.len() ==> spec_charset(req.char_type as int).contains(
                    #[trigger] resp.value@[j],
                ))),
            req.length <= 0 ==> (r matches Err(e) && e.kind is InvalidArgument && e.message@
                == "length must be greater than 0"@),
    {
        if req.length <= 0 {
            return Err(UpstreamStatus::invalid_length());
        }
        let cs = charset_for(req.char_type);
        let n = cs.unicode_len();
        let len = req.length as usize;
        let mut value = String::new();
        let mut i: usize = 0;
        while i < len
            invariant
                i <= len,
                value@.len() == i,
                cs@ == spec_charset(req.char_type as int),
                n == cs@.len(),
                0 < n <= 62,
                forall|j: int|
                    0 <= j < i ==> spec_charset(req.char_type as int).contains(
                        #[trigger] value@[j],
                    ),
            decreases len - i,
        {
            let idx = sample_inclusive(0, (n - 1) as i32) as usize;
            let piece = cs.substring_char(idx, idx + 1);
            value.append(piece);
            proof {
                assert(value@[i as int] == cs@[idx as int]);
                assert(spec_charset(req.char_type as int).contains(cs@[idx as int])) by {
                    assert(spec_charset(req.char_type as int)[idx as int] == cs@[idx as int]);
                }
            }
            i = i + 1;
        }
        Ok(StringResponse { value })
    }
}

} // verus!
