use prick::engine::{analyse_text, score_of, Polarity, SentenceAnalysis, SentimentResult, SCORE_SCALE};

fn pos(magnitude: u32) -> SentimentResult {
    SentimentResult { polarity: Polarity::Positive, magnitude }
}

fn neg(magnitude: u32) -> SentimentResult {
    SentimentResult { polarity: Polarity::Negative, magnitude }
}

fn texts(ts: &[&str]) -> Vec<String> {
    ts.iter().map(|t| t.to_string()).collect()
}

#[test]
fn example_two_sentences() {
    let a = analyse_text(
        texts(&["I love this.", "I hate that."]),
        vec![pos(950_000), neg(870_000)],
    );
    assert_eq!(a.sentences.len(), 2);
    assert_eq!(a.sentences[0].text, "I love this.");
    assert_eq!(a.sentences[0].score, 950_000);
    assert_eq!(a.sentences[1].text, "I hate that.");
    assert_eq!(a.sentences[1].score, -870_000);
    assert_eq!(a.total_score, 80_000);
}

#[test]
fn empty_input_gives_empty_analysis() {
    let a = analyse_text(Vec::new(), Vec::new());
    assert_eq!(a.sentences.len(), 0);
    assert_eq!(a.total_score, 0);
}

#[test]
fn single_positive_sentence() {
    let a = analyse_text(texts(&["Nice."]), vec![pos(500_000)]);
    assert_eq!(a.sentences.len(), 1);
    assert_eq!(a.sentences[0].score, 500_000);
    assert_eq!(a.total_score, 500_000);
}

#[test]
fn single_negative_sentence() {
    let a = analyse_text(texts(&["Bad."]), vec![neg(250_000)]);
    assert_eq!(a.sentences[0].score, -250_000);
    assert_eq!(a.total_score, -250_000);
}

#[test]
fn magnitude_bounds() {
    let a = analyse_text(texts(&["a", "b"]), vec![pos(0), neg(SCORE_SCALE)]);
    assert_eq!(a.sentences[0].score, 0);
    assert_eq!(a.sentences[1].score, -(SCORE_SCALE as i64));
    assert_eq!(a.total_score, -(SCORE_SCALE as i64));
}

#[test]
fn total_is_sum_of_scores() {
    let a = analyse_text(
        texts(&["a", "b", "c", "d"]),
        vec![pos(100_000), neg(300_000), pos(700_000), neg(50_000)],
    );
    let by_hand: i64 = a.sentences.iter().map(|s: &SentenceAnalysis| s.score).sum();
    assert_eq!(a.total_score, by_hand);
    assert_eq!(a.total_score, 100_000 - 300_000 + 700_000 - 50_000);
}

#[test]
fn order_is_preserved() {
    let a = analyse_text(
        texts(&["first", "second", "third"]),
        vec![pos(1), pos(2), pos(3)],
    );
    assert_eq!(a.sentences[0].text, "first");
    assert_eq!(a.sentences[1].text, "second");
    assert_eq!(a.sentences[2].text, "third");
    assert_eq!(a.sentences[0].score, 1);
    assert_eq!(a.sentences[1].score, 2);
    assert_eq!(a.sentences[2].score, 3);
}

#[test]
fn repeated_calls_agree() {
    let run = || {
        analyse_text(
            texts(&["I love this.", "I hate that."]),
            vec![pos(950_000), neg(870_000)],
        )
    };
    let a1 = run();
    let a2 = run();
    assert_eq!(a1.total_score, a2.total_score);
    assert_eq!(a1.sentences.len(), a2.sentences.len());
    for (s1, s2) in a1.sentences.iter().zip(a2.sentences.iter()) {
        assert_eq!(s1.text, s2.text);
        assert_eq!(s1.score, s2.score);
    }
}

#[test]
fn score_of_signs_by_polarity() {
    assert_eq!(score_of(&pos(123_456)), 123_456);
    assert_eq!(score_of(&neg(123_456)), -123_456);
    assert_eq!(score_of(&pos(0)), 0);
}
