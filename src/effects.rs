use vstd::prelude::*;
use vstd::string::StringExecFns;

verus! {

/// A signal transform applied to a textual signal representation; effects
/// compose by applying one after another.
pub trait Effect {
    fn process(&self, input: &str) -> String;
}

/// The distortion effect.
pub struct Distortion;

/// The prefix that marks a distorted signal.
pub open spec fn distorted(input: Seq<char>) -> Seq<char> {
    "Distorted: "@ + input
}

impl Distortion {
    /// The input marked as distorted.
    pub fn distort(&self, input: &str) -> (r: String)
        ensures
            r@ == distorted(input@),
    {
        String::from_str("Distorted: ").concat(input)
    }
}

impl Effect for Distortion {
    fn process(&self, input: &str) -> (r: String)
        ensures
            r@ == distorted(input@),
    {
        self.distort(input)
    }
}

/// Passes text through unchanged; a seam for effects driven by text.
pub fn process(text: &str) -> (r: String)
    ensures
        r@ == text@,
{
    text.to_owned()
}

} // verus!
