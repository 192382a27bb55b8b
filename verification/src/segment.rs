//! Sentence segmentation: the tokenizer splits the input into sentence
//! spans, and every span handed onwards is trimmed of leading and
//! trailing whitespace. Empty or whitespace-only input yields no spans.

use vstd::prelude::*;

use crate::text::{
    is_substring, is_trimmed, lemma_trim_spec_identity, lemma_trim_spec_trimmed,
    lemma_trim_substring, trim_all, trim_spec, trimmed,
};

verus! {

/// The normalization pass over the input: a single logical unit passes
/// through unchanged; the pass is kept as a seam for multi-segment input.
pub fn normalize(text: &str) -> (r: String)
    ensures
        r@ == text@,
{
    text.to_owned()
}

#[verifier::external_type_specification]
#[verifier::external_body]
pub struct ExTokenizer(nlprule::Tokenizer);

/// Relies on `nlprule::Tokenizer::pipe`: runs the tokenization pipeline
/// and yields the sentences of the text, in order of appearance; each
/// element of the result is the text of one sentence, always a contiguous
/// slice of the input. The splitter's ranges cover the text from the
/// start and whitespace-only ranges are merged into their successors, so
/// input with any non-whitespace content yields at least one sentence,
/// and every yielded sentence has non-whitespace content. Where the
/// splits fall depends on the rules loaded into the tokenizer, so nothing
/// more is stated of them.
#[verifier::external_body]
fn pipe_sentences(tokenizer: &nlprule::Tokenizer, text: &str) -> (spans: Vec<String>)
    ensures
        forall|i: int| 0 <= i < spans@.len() ==> is_substring(#[trigger] spans@[i]@, text@),
        forall|i: int| 0 <= i < spans@.len() ==> trim_spec(#[trigger] spans@[i]@).len() > 0,
        trim_spec(text@).len() > 0 ==> spans@.len() > 0,
{
    tokenizer.pipe(text).map(|sentence| sentence.text().to_owned()).collect()
}

/// Segments the input into its ordered sentence spans: every span is a
/// non-empty trimmed substring of the input, input that is empty or
/// nothing but whitespace yields no spans at all, and input with any
/// non-whitespace content yields at least one.
pub fn segment(tokenizer: &nlprule::Tokenizer, text: &str) -> (spans: Vec<String>)
    ensures
        forall|i: int| 0 <= i < spans@.len() ==> is_trimmed(#[trigger] spans@[i]@),
        forall|i: int| 0 <= i < spans@.len() ==> trim_spec(#[trigger] spans@[i]@) == spans@[i]@,
        forall|i: int| 0 <= i < spans@.len() ==> is_substring(#[trigger] spans@[i]@, text@),
        forall|i: int| 0 <= i < spans@.len() ==> (#[trigger] spans@[i]@).len() > 0,
        trim_spec(text@).len() == 0 ==> spans@.len() == 0,
        trim_spec(text@).len() > 0 ==> spans@.len() > 0,
{
    let input = normalize(text);
    let core = trimmed(input.as_str());
    if core.as_str().is_empty() {
        Vec::new()
    } else {
        let raw = pipe_sentences(tokenizer, input.as_str());
        let spans = trim_all(raw);
        proof {
            assert forall|i: int| 0 <= i < spans@.len() implies is_trimmed(
                #[trigger] spans@[i]@,
            ) && trim_spec(spans@[i]@) == spans@[i]@ && is_substring(spans@[i]@, text@)
                && spans@[i]@.len() > 0 by {
                lemma_trim_spec_trimmed(raw@[i]@);
                lemma_trim_spec_identity(spans@[i]@);
                lemma_trim_substring(raw@[i]@, text@);
            }
        }
        spans
    }
}

} // verus!
