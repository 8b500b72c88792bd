//! Decoding options: the integer, flag and token knobs of one generation
//! call, their defaults, and the invariants a call checks before it runs.
use vstd::prelude::*;
use crate::buffer::{NestedSeq, VecVecString};

verus! {

/// Default bound on the length of a generated sequence.
pub const DEFAULT_MAX_LENGTH: usize = 512;

/// Decoding options of one generation call. Real-valued knobs (patience,
/// penalties, nucleus mass, temperature, alternative expansion
/// probability) travel beside these, with the engine call.
pub struct GenerationOptions {
    /// Beam width; 1 runs greedy search.
    pub beam_size: usize,
    /// Size of the n-grams that may not repeat; 0 disables the rule.
    pub no_repeat_ngram_size: usize,
    /// Forbid the unknown token.
    pub disable_unk: bool,
    /// Token sequences that may not be generated.
    pub suppress_sequences: VecVecString,
    /// Tokens that end decoding.
    pub end_token: Vec<String>,
    /// With no end token given, stop on the model's end-of-sequence token.
    pub empty_end_token_means_stop_on_eos_token: bool,
    /// Keep the end token in the output.
    pub return_end_token: bool,
    pub max_length: usize,
    pub min_length: usize,
    /// Sample among the K most likely tokens; 0 samples from all.
    pub sampling_topk: usize,
    /// Hypotheses returned per input.
    pub num_hypotheses: usize,
    pub return_scores: bool,
    /// Return alternatives at the first unconstrained position.
    pub return_alternatives: bool,
    /// Prefix shared by every input of the batch.
    pub static_prompt: Vec<String>,
    /// Keep the engine state after the static prompt for later calls.
    pub cache_static_prompt: bool,
    /// Include the input tokens in each result.
    pub include_prompt_in_result: bool,
}

/// The option that a configuration breaks.
#[derive(Clone, Copy, Debug, PartialEq, Eq, Structural)]
pub enum OptionField {
    MinLength,
    NumHypotheses,
    Sampling,
    NoRepeatNgramSize,
}

/// The options as `default` builds them: greedy search for one hypothesis.
pub open spec fn is_default_options(o: GenerationOptions) -> bool {
    &&& o.beam_size == 1
    &&& o.no_repeat_ngram_size == 0
    &&& !o.disable_unk
    &&& o.suppress_sequences@.len() == 0
    &&& o.end_token@.len() == 0
    &&& o.empty_end_token_means_stop_on_eos_token
    &&& !o.return_end_token
    &&& o.max_length == DEFAULT_MAX_LENGTH
    &&& o.min_length == 0
    &&& o.sampling_topk == 1
    &&& o.num_hypotheses == 1
    &&& !o.return_scores
    &&& !o.return_alternatives
    &&& o.static_prompt@.len() == 0
    &&& o.cache_static_prompt
    &&& o.include_prompt_in_result
}

/// Top-K sampling narrows the candidates: more than one, but not all.
pub open spec fn topk_restrictive(o: GenerationOptions) -> bool {
    o.sampling_topk > 1
}

/// The first option, in a fixed order, that `o` breaks; `nucleus_restricted`
/// says whether the nucleus mass is set below one.
pub open spec fn first_violation(o: GenerationOptions, nucleus_restricted: bool) -> Option<
    OptionField,
> {
    if o.min_length > o.max_length {
        Some(OptionField::MinLength)
    } else if o.num_hypotheses == 0 {
        Some(OptionField::NumHypotheses)
    } else if o.beam_size > 1 && topk_restrictive(o) && nucleus_restricted {
        Some(OptionField::Sampling)
    } else if o.no_repeat_ngram_size > o.max_length {
        Some(OptionField::NoRepeatNgramSize)
    } else {
        None
    }
}

impl Default for GenerationOptions {
    fn default() -> (r: GenerationOptions)
        ensures
            is_default_options(r),
    {
        GenerationOptions {
            beam_size: 1,
            no_repeat_ngram_size: 0,
            disable_unk: false,
            suppress_sequences: NestedSeq::new(),
            end_token: Vec::new(),
            empty_end_token_means_stop_on_eos_token: true,
            return_end_token: false,
            max_length: DEFAULT_MAX_LENGTH,
            min_length: 0,
            sampling_topk: 1,
            num_hypotheses: 1,
            return_scores: false,
            return_alternatives: false,
            static_prompt: Vec::new(),
            cache_static_prompt: true,
            include_prompt_in_result: true,
        }
    }
}

impl GenerationOptions {
    /// Checks the invariants of a configuration. Beam search (`beam_size >
    /// 1`) ignores the sampling knobs, so restricting both top-K and the
    /// nucleus mass together with a beam is refused rather than dropped.
    pub fn validate(&self, nucleus_restricted: bool) -> (r: Result<(), OptionField>)
        ensures
            r is Ok <==> first_violation(*self, nucleus_restricted) is None,
            first_violation(*self, nucleus_restricted) matches Some(f) ==> r == Err::<(), OptionField>(f),
    {
        if self.min_length > self.max_length {
            Err(OptionField::MinLength)
        } else if self.num_hypotheses == 0 {
            Err(OptionField::NumHypotheses)
        } else if self.beam_size > 1 && self.sampling_topk > 1 && nucleus_restricted {
            Err(OptionField::Sampling)
        } else if self.no_repeat_ngram_size > self.max_length {
            Err(OptionField::NoRepeatNgramSize)
        } else {
            Ok(())
        }
    }
}

} // verus!
