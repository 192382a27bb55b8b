use prick::engine::Analysis;
use prick::gateway::{
    body_within_limit, root_message, route, settle_dispatch, status_of, HttpMethod, PrickErr,
    Query, RequestOutcome, Route, MAX_BODY_BYTES,
};

#[test]
fn body_limit_is_128_kib() {
    assert_eq!(MAX_BODY_BYTES, 131_072);
    assert!(body_within_limit(0));
    assert!(body_within_limit(131_072));
    assert!(!body_within_limit(131_073));
}

#[test]
fn oversized_body_is_rejected_before_analysis() {
    // The gateway asks this question before any model work is dispatched;
    // an oversized body never reaches the engine.
    let content_length: u64 = 200 * 1024;
    assert!(!body_within_limit(content_length));
}

#[test]
fn routing_table() {
    assert_eq!(route(HttpMethod::Post, "/analyze"), Route::Analyze);
    assert_eq!(route(HttpMethod::Get, "/"), Route::Root);
    assert_eq!(route(HttpMethod::Get, "/analyze"), Route::NotFound);
    assert_eq!(route(HttpMethod::Post, "/"), Route::NotFound);
    assert_eq!(route(HttpMethod::Post, "/analyze/extra"), Route::NotFound);
    assert_eq!(route(HttpMethod::Other, "/analyze"), Route::NotFound);
    assert_eq!(route(HttpMethod::Other, "/"), Route::NotFound);
}

#[test]
fn status_mapping() {
    let done = RequestOutcome::Done(Analysis { sentences: Vec::new(), total_score: 0 });
    assert_eq!(status_of(&done), 200);
    assert_eq!(status_of(&RequestOutcome::Placeholder), 200);
    assert_eq!(status_of(&RequestOutcome::TooLarge), 413);
    assert_eq!(status_of(&RequestOutcome::BadBody), 400);
    assert_eq!(status_of(&RequestOutcome::UnknownRoute), 404);
    let failed = RequestOutcome::Failed(PrickErr::Analysis("boom".to_string()));
    assert_eq!(status_of(&failed), 500);
    let failed_async = RequestOutcome::Failed(PrickErr::InternalAsync("gone".to_string()));
    assert_eq!(status_of(&failed_async), 500);
}

#[test]
fn settle_passes_an_analysis_through() {
    let analysis = Analysis { sentences: Vec::new(), total_score: 7 };
    let settled = settle_dispatch(Ok(Ok(analysis)));
    match settled {
        Ok(a) => assert_eq!(a.total_score, 7),
        Err(_) => panic!("a finished job must settle as a success"),
    }
}

#[test]
fn settle_keeps_job_failures_as_analysis_errors() {
    let settled = settle_dispatch(Ok(Err("model choked".to_string())));
    match settled {
        Ok(_) => panic!("a failed job must settle as an error"),
        Err(PrickErr::Analysis(m)) => assert_eq!(m, "model choked"),
        Err(PrickErr::InternalAsync(_)) => panic!("a job failure is not a bridge failure"),
    }
}

#[test]
fn settle_keeps_bridge_failures_distinct() {
    let settled = settle_dispatch(Err("worker panicked".to_string()));
    match settled {
        Ok(_) => panic!("a lost job must settle as an error"),
        Err(PrickErr::Analysis(_)) => panic!("a bridge failure is not a job failure"),
        Err(PrickErr::InternalAsync(m)) => assert_eq!(m, "worker panicked"),
    }
}

#[test]
fn error_payload_parts() {
    let analysis_err = PrickErr::Analysis("no verb".to_string());
    assert_eq!(analysis_err.kind(), "Analysis");
    assert_eq!(analysis_err.message(), "no verb");
    let bridge_err = PrickErr::InternalAsync("pool down".to_string());
    assert_eq!(bridge_err.kind(), "InternalAsync");
    assert_eq!(bridge_err.message(), "pool down");
}

#[test]
fn root_placeholder_text() {
    assert_eq!(root_message(), "its dark and I am lost ▪ chaos");
}

#[test]
fn query_carries_its_text() {
    let q = Query { text: "I love this.".to_string() };
    assert_eq!(q.text, "I love this.");
}
