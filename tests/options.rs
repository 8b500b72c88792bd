use ctranslate2_rs::options::{GenerationOptions, OptionField, DEFAULT_MAX_LENGTH};

#[test]
fn default_options_are_greedy() {
    let o = GenerationOptions::default();
    assert_eq!(o.beam_size, 1);
    assert_eq!(o.max_length, 512);
    assert_eq!(DEFAULT_MAX_LENGTH, 512);
    assert_eq!(o.min_length, 0);
    assert_eq!(o.sampling_topk, 1);
    assert_eq!(o.num_hypotheses, 1);
    assert_eq!(o.no_repeat_ngram_size, 0);
    assert!(o.include_prompt_in_result);
    assert!(o.empty_end_token_means_stop_on_eos_token);
    assert!(!o.return_scores);
    assert!(!o.return_alternatives);
    assert!(o.cache_static_prompt);
    assert!(o.end_token.is_empty());
    assert!(o.suppress_sequences.empty());
    assert_eq!(o.validate(false), Ok(()));
}

#[test]
fn min_length_above_max_length_is_refused() {
    let mut o = GenerationOptions::default();
    o.min_length = 10;
    o.max_length = 9;
    assert_eq!(o.validate(false), Err(OptionField::MinLength));
    o.max_length = 10;
    assert_eq!(o.validate(false), Ok(()));
}

#[test]
fn zero_hypotheses_is_refused() {
    let mut o = GenerationOptions::default();
    o.num_hypotheses = 0;
    assert_eq!(o.validate(false), Err(OptionField::NumHypotheses));
}

#[test]
fn sampling_with_beam_is_refused() {
    let mut o = GenerationOptions::default();
    o.beam_size = 4;
    o.sampling_topk = 10;
    assert_eq!(o.validate(true), Err(OptionField::Sampling));
    assert_eq!(o.validate(false), Ok(()));
    o.beam_size = 1;
    assert_eq!(o.validate(true), Ok(()));
}

#[test]
fn long_ngram_is_refused() {
    let mut o = GenerationOptions::default();
    o.max_length = 4;
    o.no_repeat_ngram_size = 5;
    assert_eq!(o.validate(false), Err(OptionField::NoRepeatNgramSize));
}

#[test]
fn first_violation_wins() {
    let mut o = GenerationOptions::default();
    o.min_length = 20;
    o.max_length = 3;
    o.num_hypotheses = 0;
    o.no_repeat_ngram_size = 5;
    assert_eq!(o.validate(false), Err(OptionField::MinLength));
}
