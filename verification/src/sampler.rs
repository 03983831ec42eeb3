//! Uniform sampling over a range of gestures: explicit bounds validation in
//! verified code, with the draw itself delegated to `rand`.

use vstd::prelude::*;

use crate::gesture::Gesture;

verus! {

/// Relies on `rand::rngs::ThreadRng` as an opaque generator handle: nothing
/// is assumed of a value of it.
#[verifier::external_type_specification]
#[verifier::external_body]
pub struct ExThreadRng(rand::rngs::ThreadRng);

/// Relies on `rand::thread_rng`: a handle to the thread-local generator.
#[verifier::external_body]
pub(crate) fn fresh_rng() -> rand::rngs::ThreadRng {
    rand::thread_rng()
}

/// Relies on `rand::Rng::gen_range` over a non-empty inclusive integer
/// range: the draw lies within the bounds. Nothing more is assumed of a
/// random result.
#[verifier::external_body]
fn sample_ordinal(rng: &mut rand::rngs::ThreadRng, low: i8, high: i8) -> (r: i8)
    requires
        low <= high,
    ensures
        low <= r <= high,
{
    rand::Rng::gen_range(rng, low..=high)
}

/// Why a sampler construction was rejected.
#[derive(Clone, Copy, Debug, PartialEq, Eq, Structural)]
pub enum SamplerError {
    /// The exclusive constructor was given `low >= high`.
    LowNotBelowHigh,
    /// The inclusive constructor was given `low > high`.
    LowAboveHigh,
}

impl SamplerError {
    /// The message a failed construction describes itself with.
    pub open spec fn message_spec(self) -> Seq<char> {
        match self {
            SamplerError::LowNotBelowHigh => "gesture range is empty: low >= high"@,
            SamplerError::LowAboveHigh => "gesture range is empty: low > high"@,
        }
    }

    /// A descriptive message naming the bound check that failed.
    pub fn message(&self) -> (r: String)
        ensures
            r@ == self.message_spec(),
    {
        match self {
            SamplerError::LowNotBelowHigh => String::from_str("gesture range is empty: low >= high"),
            SamplerError::LowAboveHigh => String::from_str("gesture range is empty: low > high"),
        }
    }
}

/// A uniform distribution over a non-empty range of gestures, held as the
/// inclusive ordinal bounds it was validated with.
#[derive(Clone, Copy, Debug, PartialEq, Eq, Structural)]
pub struct UniformGesture {
    low: i8,
    high: i8,
}

impl UniformGesture {
    /// The inclusive lower ordinal bound.
    pub closed spec fn low_ord(self) -> int {
        self.low as int
    }

    /// The inclusive upper ordinal bound.
    pub closed spec fn high_ord(self) -> int {
        self.high as int
    }

    /// A well-formed sampler covers a non-empty range of valid ordinals.
    pub open spec fn wf(self) -> bool {
        0 <= self.low_ord() <= self.high_ord() <= 2
    }

    /// Whether a gesture lies within the sampler's range.
    pub open spec fn contains(self, g: Gesture) -> bool {
        self.low_ord() <= g.ordinal_spec() <= self.high_ord()
    }

    /// A sampler over `[low, high)`: rejects `low >= high` in ordinal order.
    pub fn new(low: Gesture, high: Gesture) -> (r: Result<UniformGesture, SamplerError>)
        ensures
            r is Ok <==> low.ordinal_spec() < high.ordinal_spec(),
            r is Ok ==> r->Ok_0.wf(),
            r is Ok ==> forall|g: Gesture|
                #[trigger] r->Ok_0.contains(g)
                    <==> low.ordinal_spec() <= g.ordinal_spec() < high.ordinal_spec(),
            r is Err ==> r->Err_0 == SamplerError::LowNotBelowHigh,
    {
        let low_ord = low.ordinal();
        let high_ord = high.ordinal();
        if low_ord >= high_ord {
            Err(SamplerError::LowNotBelowHigh)
        } else {
            Ok(UniformGesture { low: low_ord, high: high_ord - 1 })
        }
    }

    /// A sampler over `[low, high]`: rejects `low > high` in ordinal order.
    pub fn new_inclusive(low: Gesture, high: Gesture) -> (r: Result<UniformGesture, SamplerError>)
        ensures
            r is Ok <==> low.ordinal_spec() <= high.ordinal_spec(),
            r is Ok ==> r->Ok_0.wf(),
            r is Ok ==> forall|g: Gesture|
                #[trigger] r->Ok_0.contains(g)
                    <==> low.ordinal_spec() <= g.ordinal_spec() <= high.ordinal_spec(),
            r is Err ==> r->Err_0 == SamplerError::LowAboveHigh,
    {
        let low_ord = low.ordinal();
        let high_ord = high.ordinal();
        if low_ord > high_ord {
            Err(SamplerError::LowAboveHigh)
        } else {
            Ok(UniformGesture { low: low_ord, high: high_ord })
        }
    }

    /// Draw one gesture; it always lies within the sampler's range.
    pub fn sample(&self, rng: &mut rand::rngs::ThreadRng) -> (g: Gesture)
        requires
            self.wf(),
        ensures
            self.contains(g),
    {
        let ordinal = sample_ordinal(rng, self.low, self.high);
        match Gesture::from_ordinal(ordinal) {
            Some(g) => g,
            None => vstd::pervasive::unreached(),
        }
    }
}

} // verus!
