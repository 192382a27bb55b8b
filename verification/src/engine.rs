//! The analysis engine: pairing sentence spans with classifier results,
//! signing each magnitude by its polarity, and summing the scores.
//!
//! Scores are held in fixed point: a magnitude is a count of
//! `SCORE_SCALE`-ths, so a classifier confidence in `[0, 1]` maps to an
//! integer in `[0, SCORE_SCALE]` and every sum is exact.

use vstd::prelude::*;

verus! {

/// One whole unit of magnitude, in fixed-point steps: a confidence of 1.0
/// is `SCORE_SCALE` steps.
pub const SCORE_SCALE: u32 = 1_000_000;

/// The classification outcome for one sentence.
#[derive(Clone, Copy, Debug, PartialEq, Eq, Structural)]
pub enum Polarity {
    Positive,
    Negative,
}

/// What the classifier says of one sentence: a polarity and a magnitude,
/// the magnitude in fixed-point steps of a unit.
#[derive(Clone, Copy, Debug, PartialEq, Eq, Structural)]
pub struct SentimentResult {
    pub polarity: Polarity,
    pub magnitude: u32,
}

/// A magnitude never exceeds one whole unit.
pub open spec fn result_wf(r: SentimentResult) -> bool {
    r.magnitude <= SCORE_SCALE
}

/// The signed score of one result: positive polarity keeps the magnitude,
/// negative polarity negates it.
pub open spec fn signed_score(r: SentimentResult) -> int {
    match r.polarity {
        Polarity::Positive => r.magnitude as int,
        Polarity::Negative => -(r.magnitude as int),
    }
}

/// The sum of the signed scores of a batch of results.
pub open spec fn sum_scores(rs: Seq<SentimentResult>) -> int
    decreases rs.len(),
{
    if rs.len() == 0 {
        0
    } else {
        sum_scores(rs.drop_last()) + signed_score(rs.last())
    }
}

/// One analysed sentence: its trimmed text and its signed score, in
/// fixed-point steps.
#[derive(Clone, Debug)]
pub struct SentenceAnalysis {
    pub text: String,
    pub score: i64,
}

/// The analysis of one input: the sentences in input order and the
/// unnormalized sum of their scores.
#[derive(Clone, Debug)]
pub struct Analysis {
    pub sentences: Vec<SentenceAnalysis>,
    pub total_score: i64,
}

/// The sum of the per-sentence scores an analysis carries.
pub open spec fn sum_sentence_scores(s: Seq<SentenceAnalysis>) -> int
    decreases s.len(),
{
    if s.len() == 0 {
        0
    } else {
        sum_sentence_scores(s.drop_last()) + s.last().score as int
    }
}

/// The invariant of an analysis: its total is exactly the sum of its
/// per-sentence scores.
pub open spec fn analysis_wf(a: Analysis) -> bool {
    a.total_score as int == sum_sentence_scores(a.sentences@)
}

/// The views of a batch of sentence texts.
pub open spec fn views_of(ss: Seq<String>) -> Seq<Seq<char>> {
    ss.map_values(|s: String| s@)
}

/// What an analysis of the given sentence texts and classifier results
/// must look like: one analysed sentence per span, in order, each scored
/// by the order-parallel result, and the total the sum of all scores.
pub open spec fn analysis_matches(
    a: Analysis,
    texts: Seq<Seq<char>>,
    results: Seq<SentimentResult>,
) -> bool {
    &&& a.sentences@.len() == texts.len()
    &&& texts.len() == results.len()
    &&& (forall|i: int| 0 <= i < texts.len() ==> #[trigger] a.sentences@[i].text@ == texts[i])
    &&& (forall|i: int|
        0 <= i < results.len() ==> #[trigger] a.sentences@[i].score as int == signed_score(
            results[i],
        ))
    &&& a.total_score as int == sum_scores(results)
}

/// A sum of `n` scores, each within one unit, lies within `n` units.
pub proof fn lemma_sum_scores_bound(rs: Seq<SentimentResult>)
    requires
        forall|i: int| 0 <= i < rs.len() ==> result_wf(#[trigger] rs[i]),
    ensures
        -(rs.len() as int * SCORE_SCALE as int) <= sum_scores(rs) <= rs.len() as int
            * SCORE_SCALE as int,
    decreases rs.len(),
{
    if rs.len() > 0 {
        let t = rs.drop_last();
        assert(forall|i: int| 0 <= i < t.len() ==> result_wf(#[trigger] t[i]));
        lemma_sum_scores_bound(t);
        assert(result_wf(rs.last()));
    }
}

/// The exact signed score of one classifier result.
pub fn score_of(r: &SentimentResult) -> (s: i64)
    ensures
        s as int == signed_score(*r),
{
    match r.polarity {
        Polarity::Positive => r.magnitude as i64,
        Polarity::Negative => -(r.magnitude as i64),
    }
}

/// Builds the analysis of one input from its sentence spans and the
/// order-parallel classifier results: sentence `i` of the output carries
/// the text of span `i` and the signed score of result `i`, and the total
/// is the exact, unnormalized sum of all signed scores. Zero spans give an
/// empty sentence list and a total of zero.
pub fn analyse_text(sentences: Vec<String>, results: Vec<SentimentResult>) -> (a: Analysis)
    requires
        sentences@.len() == results@.len(),
        forall|i: int| 0 <= i < results@.len() ==> result_wf(#[trigger] results@[i]),
        results@.len() * SCORE_SCALE as int <= i64::MAX as int,
    ensures
        analysis_matches(a, views_of(sentences@), results@),
        analysis_wf(a),
{
    let n = results.len();
    let mut out: Vec<SentenceAnalysis> = Vec::new();
    let mut total: i64 = 0;
    let mut i: usize = 0;
    while i < n
        invariant
            0 <= i <= n,
            n == results@.len(),
            sentences@.len() == results@.len(),
            forall|k: int| 0 <= k < results@.len() ==> result_wf(#[trigger] results@[k]),
            results@.len() * SCORE_SCALE as int <= i64::MAX as int,
            out@.len() == i,
            forall|j: int| 0 <= j < i ==> #[trigger] out@[j].text@ == sentences@[j]@,
            forall|j: int| 0 <= j < i ==> #[trigger] out@[j].score as int == signed_score(
                results@[j],
            ),
            total as int == sum_scores(results@.subrange(0, i as int)),
            sum_sentence_scores(out@) == total as int,
        decreases n - i,
    {
        let r = results[i];
        let score = score_of(&r);
        proof {
            let prefix = results@.subrange(0, i as int);
            lemma_sum_scores_bound(prefix);
            assert(prefix.len() * SCORE_SCALE as int + SCORE_SCALE as int <= results@.len()
                * SCORE_SCALE as int);
            assert(results@.subrange(0, i + 1).drop_last() =~= prefix);
            assert(results@.subrange(0, i + 1).last() == results@[i as int]);
        }
        total = total + score;
        let sentence = SentenceAnalysis { text: sentences[i].clone(), score };
        proof {
            assert(out@.push(sentence).drop_last() =~= out@);
        }
        out.push(sentence);
        i = i + 1;
    }
    proof {
        assert(results@.subrange(0, n as int) =~= results@);
    }
    Analysis { sentences: out, total_score: total }
}

/// Determinism: two analyses that fit the same sentence texts and the
/// same classifier results agree on every sentence text, every score and
/// the total.
pub proof fn lemma_analyse_deterministic(
    texts: Seq<Seq<char>>,
    results: Seq<SentimentResult>,
    a1: Analysis,
    a2: Analysis,
)
    requires
        analysis_matches(a1, texts, results),
        analysis_matches(a2, texts, results),
    ensures
        a1.total_score == a2.total_score,
        a1.sentences@.len() == a2.sentences@.len(),
        forall|i: int|
            0 <= i < a1.sentences@.len() ==> #[trigger] a1.sentences@[i].text@
                == a2.sentences@[i].text@ && a1.sentences@[i].score == a2.sentences@[i].score,
{
}

/// An empty input analyses to no sentences and a total of zero.
pub proof fn lemma_empty_analysis(a: Analysis, results: Seq<SentimentResult>)
    requires
        analysis_matches(a, Seq::empty(), results),
    ensures
        a.sentences@.len() == 0,
        a.total_score == 0,
{
}

} // verus!
