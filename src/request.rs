//! Packaging a batch for the engine, and checking the shape of what the
//! engine hands back.
use vstd::prelude::*;
use crate::buffer::{NestedSeq, VecVecString};
use crate::error::EngineError;
use crate::names::BatchType;
use crate::options::{first_violation, GenerationOptions};

verus! {

/// A validated batch, ready for the engine.
pub struct BatchRequest {
    pub tokens: VecVecString,
    /// Bound on an internal sub-batch; what it counts is `batch_type`.
    pub max_batch_size: usize,
    pub batch_type: BatchType,
    pub options: GenerationOptions,
}

/// Validates the options of a call and packs its inputs, unchanged and in
/// order, for the engine. An empty batch is a valid request.
pub fn prepare_batch(
    tokens: Vec<Vec<String>>,
    max_batch_size: usize,
    batch_type: BatchType,
    options: GenerationOptions,
    nucleus_restricted: bool,
) -> (r: Result<BatchRequest, EngineError>)
    ensures
        first_violation(options, nucleus_restricted) matches Some(f) ==> r
            == Err::<BatchRequest, EngineError>(EngineError::InvalidConfiguration(f)),
        first_violation(options, nucleus_restricted) is None ==> (r matches Ok(q) && q.tokens@
            == tokens@.map_values(|v: Vec<String>| v@) && q.max_batch_size == max_batch_size
            && q.batch_type == batch_type && q.options == options),
{
    match options.validate(nucleus_restricted) {
        Err(f) => Err(EngineError::InvalidConfiguration(f)),
        Ok(()) => Ok(
            BatchRequest {
                tokens: NestedSeq::new_unique_from(tokens),
                max_batch_size,
                batch_type,
                options,
            },
        ),
    }
}

/// How many sequences, token-id sequences and scores the engine returned
/// for one input.
#[derive(Clone, Copy, Debug, PartialEq, Eq, Structural)]
pub struct ResultShape {
    pub num_sequences: usize,
    pub num_sequence_ids: usize,
    pub num_scores: usize,
}

/// What one input's result owes: `num_hypotheses` sequences (unless
/// alternatives were asked for, whose count the engine decides), one id
/// sequence per sequence, and one score per sequence exactly when scores
/// were asked for.
pub open spec fn shape_conforms(s: ResultShape, o: GenerationOptions) -> bool {
    &&& !o.return_alternatives ==> s.num_sequences == o.num_hypotheses
    &&& s.num_sequence_ids == s.num_sequences
    &&& s.num_scores == if o.return_scores {
        s.num_sequences
    } else {
        0
    }
}

/// One result per input, each shaped as the options ask.
pub open spec fn results_conform(num_inputs: nat, o: GenerationOptions, shapes: Seq<ResultShape>) -> bool {
    &&& shapes.len() == num_inputs
    &&& forall|i: int| 0 <= i < shapes.len() ==> shape_conforms(#[trigger] shapes[i], o)
}

/// Checks that the engine answered a batch of `num_inputs` inputs with one
/// result per input, each shaped as `options` asks.
pub fn check_results(num_inputs: usize, options: &GenerationOptions, shapes: &Vec<ResultShape>) -> (r:
    Result<(), EngineError>)
    ensures
        r is Ok <==> results_conform(num_inputs as nat, *options, shapes@),
        r matches Err(e) ==> e is Failure,
{
    if shapes.len() != num_inputs {
        return Err(EngineError::Failure("result count differs from input count".to_owned()));
    }
    let mut i: usize = 0;
    while i < shapes.len()
        invariant
            i <= shapes@.len(),
            forall|j: int| 0 <= j < i ==> shape_conforms(#[trigger] shapes@[j], *options),
        decreases shapes@.len() - i,
    {
        let s = shapes[i];
        let sequences_ok = options.return_alternatives || s.num_sequences == options.num_hypotheses;
        let scores_ok = if options.return_scores {
            s.num_scores == s.num_sequences
        } else {
            s.num_scores == 0
        };
        if !(sequences_ok && s.num_sequence_ids == s.num_sequences && scores_ok) {
            return Err(EngineError::Failure("result shape differs from the options".to_owned()));
        }
        i = i + 1;
    }
    Ok(())
}

/// The number of hypotheses over all results.
pub open spec fn total_records(shapes: Seq<ResultShape>) -> nat
    decreases shapes.len(),
{
    if shapes.len() == 0 {
        0
    } else {
        total_records(shapes.drop_last()) + shapes.last().num_sequences as nat
    }
}

/// A conforming answer, without alternatives, holds `num_hypotheses`
/// records per input: `num_inputs * num_hypotheses` in all.
pub proof fn lemma_record_count(num_inputs: nat, o: GenerationOptions, shapes: Seq<ResultShape>)
    requires
        results_conform(num_inputs, o, shapes),
        !o.return_alternatives,
    ensures
        total_records(shapes) == num_inputs * o.num_hypotheses,
    decreases shapes.len(),
{
    if shapes.len() > 0 {
        let rest = shapes.drop_last();
        assert(shape_conforms(shapes[shapes.len() - 1], o));
        assert forall|i: int| 0 <= i < rest.len() implies shape_conforms(#[trigger] rest[i], o) by {
            assert(rest[i] == shapes[i]);
        }
        lemma_record_count((num_inputs - 1) as nat, o, rest);
        assert(num_inputs * o.num_hypotheses == (num_inputs - 1) as nat * o.num_hypotheses
            + o.num_hypotheses) by (nonlinear_arith)
            requires
                num_inputs >= 1,
        ;
        assert(total_records(shapes) == total_records(rest) + shapes.last().num_sequences as nat);
    } else {
        assert(num_inputs * o.num_hypotheses == 0) by (nonlinear_arith)
            requires
                num_inputs == 0,
        ;
    }
}

} // verus!
