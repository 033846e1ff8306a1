//! Estimating how many tokens a prompt takes.
use vstd::prelude::*;

verus! {

/// Estimates the number of prompt tokens before a call is made.
///
/// Nothing is promised of an estimate here. An estimator that underestimates is
/// caught when the provider reports the usage of the call.
pub trait TokenEstimator {
    fn estimate(&self, prompt: &str) -> u64;
}

/// Counts one token for each byte of the prompt's UTF-8 encoding.
#[derive(Clone, Copy, Debug)]
pub struct ByteLength;

impl TokenEstimator for ByteLength {
    fn estimate(&self, prompt: &str) -> (tokens: u64)
        ensures
            tokens == vstd::utf8::encode_utf8(prompt@).len(),
    {
        prompt.as_bytes().len() as u64
    }
}

} // verus!
