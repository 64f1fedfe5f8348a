//! The eight macro parameters of the effect, addressed by index:
//! time, vibe, age, tone, pitch mode, feedback, saturation, dry/wet.
//! Each holds a raw control value in fixed point, nominally in `[0, 1]`.
//! An index outside `0..8` reads as zero and writes as a no-op: the control
//! surface has fixed cardinality, and a stray index is ignored, not an error.
use vstd::prelude::*;

verus! {

/// Default raw control values: time 0.25, tone 0.8, pitch mode 0.5,
/// dry/wet 0.5, all others zero.
pub open spec fn spec_default_params() -> Seq<i64> {
    seq![250_000i64, 0i64, 0i64, 800_000i64, 500_000i64, 0i64, 0i64, 500_000i64]
}

/// The parameter name shown for an index; empty outside the fixed set.
pub open spec fn spec_param_name(i: int) -> Seq<char> {
    if i == 0 {
        "time"@
    } else if i == 1 {
        "vibe"@
    } else if i == 2 {
        "age"@
    } else if i == 3 {
        "tone"@
    } else if i == 4 {
        "pitch mode"@
    } else if i == 5 {
        "feedback"@
    } else if i == 6 {
        "sat"@
    } else if i == 7 {
        "dry / wet"@
    } else {
        ""@
    }
}

/// The eight shared macro controls, as the audio thread sees them.  The
/// concurrent cell mechanism lives with the host; this struct is the
/// audio-thread snapshot the engine reads.
pub struct EffectParameters {
    vals: [i64; 8],
}

impl View for EffectParameters {
    type V = Seq<i64>;

    closed spec fn view(&self) -> Seq<i64> {
        self.vals@
    }
}

impl Default for EffectParameters {
    /// Fresh parameters carry the fixed default control values.
    fn default() -> (r: Self)
        ensures
            r@ == spec_default_params(),
    {
        let r = EffectParameters { vals: [250_000, 0, 0, 800_000, 500_000, 0, 0, 500_000] };
        proof {
            assert(r.vals@ =~= spec_default_params());
        }
        r
    }
}

impl EffectParameters {
    /// Read the value of a parameter; a stray index reads as zero.
    pub fn get_parameter(&self, index: i32) -> (r: i64)
        ensures
            0 <= index < 8 ==> r == self@[index as int],
            !(0 <= index < 8) ==> r == 0,
    {
        if 0 <= index && index < 8 {
            self.vals[index as usize]
        } else {
            0
        }
    }

    /// Set the value of a parameter; a stray index is ignored.
    pub fn set_parameter(&mut self, index: i32, val: i64)
        ensures
            0 <= index < 8 ==> final(self)@ == old(self)@.update(index as int, val),
            !(0 <= index < 8) ==> final(self)@ == old(self)@,
    {
        if 0 <= index && index < 8 {
            self.vals[index as usize] = val;
            proof {
                assert(self.vals@ =~= old(self).vals@.update(index as int, val));
            }
        }
    }

    /// The display name of a parameter.
    pub fn get_parameter_name(&self, index: i32) -> (r: String)
        ensures
            r@ == spec_param_name(index as int),
    {
        match index {
            0 => "time".to_owned(),
            1 => "vibe".to_owned(),
            2 => "age".to_owned(),
            3 => "tone".to_owned(),
            4 => "pitch mode".to_owned(),
            5 => "feedback".to_owned(),
            6 => "sat".to_owned(),
            7 => "dry / wet".to_owned(),
            _ => "".to_owned(),
        }
    }
}

} // verus!
