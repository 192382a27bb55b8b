//! Gateway decisions: routing, request validation, the dispatch-outcome
//! mapping, and the error-to-status mapping.

use vstd::prelude::*;

use crate::engine::Analysis;

verus! {

/// A request body as the caller sends it: the text to analyse.
#[derive(Clone, Debug)]
pub struct Query {
    pub text: String,
}

/// The service's failure taxonomy: a failure of the analysis itself, or a
/// failure of the blocking-task bridge that ran it.
#[derive(Clone, Debug)]
pub enum PrickErr {
    Analysis(String),
    InternalAsync(String),
}

impl PrickErr {
    /// The name of this error's kind, for the structured error payload.
    pub open spec fn kind_spec(&self) -> Seq<char> {
        match self {
            PrickErr::Analysis(_) => "Analysis"@,
            PrickErr::InternalAsync(_) => "InternalAsync"@,
        }
    }

    /// The message this error carries.
    pub open spec fn message_spec(&self) -> Seq<char> {
        match self {
            PrickErr::Analysis(m) => m@,
            PrickErr::InternalAsync(m) => m@,
        }
    }

    /// The kind half of the structured `{kind, message}` error payload.
    pub fn kind(&self) -> (k: String)
        ensures
            k@ == self.kind_spec(),
    {
        match self {
            PrickErr::Analysis(_) => "Analysis".to_owned(),
            PrickErr::InternalAsync(_) => "InternalAsync".to_owned(),
        }
    }

    /// The message half of the structured `{kind, message}` error payload.
    pub fn message(&self) -> (m: String)
        ensures
            m@ == self.message_spec(),
    {
        match self {
            PrickErr::Analysis(m) => m.clone(),
            PrickErr::InternalAsync(m) => m.clone(),
        }
    }
}

/// Largest request body, in bytes, that the service accepts.
pub const MAX_BODY_BYTES: u64 = 128 * 1024;

/// A request body may be handed to the engine only when its length is
/// within the limit; an oversized body is rejected before any work runs.
pub fn body_within_limit(content_length: u64) -> (ok: bool)
    ensures
        ok == (content_length <= MAX_BODY_BYTES),
{
    content_length <= MAX_BODY_BYTES
}

/// The method of an incoming request, as far as routing cares.
#[derive(Clone, Copy, Debug, PartialEq, Eq, Structural)]
pub enum HttpMethod {
    Get,
    Post,
    Other,
}

/// Where a request goes: the analysis endpoint, the root placeholder, or
/// nowhere.
#[derive(Clone, Copy, Debug, PartialEq, Eq, Structural)]
pub enum Route {
    Analyze,
    Root,
    NotFound,
}

/// The routing table: analysis is a POST to `/analyze`, the placeholder a
/// GET of the bare root, and everything else is unknown.
pub open spec fn route_spec(m: HttpMethod, path: Seq<char>) -> Route {
    if m is Post && path == "/analyze"@ {
        Route::Analyze
    } else if m is Get && path == "/"@ {
        Route::Root
    } else {
        Route::NotFound
    }
}

/// Whether two path strings are the same.
fn str_eq(a: &str, b: &str) -> (r: bool)
    ensures
        r == (a@ == b@),
{
    let sa = a.to_owned();
    let sb = b.to_owned();
    sa == sb
}

/// Routes one request by method and path, exactly as `route_spec` says.
pub fn route(m: HttpMethod, path: &str) -> (r: Route)
    ensures
        r == route_spec(m, path@),
{
    match m {
        HttpMethod::Post => {
            if str_eq(path, "/analyze") {
                Route::Analyze
            } else {
                Route::NotFound
            }
        },
        HttpMethod::Get => {
            if str_eq(path, "/") {
                Route::Root
            } else {
                Route::NotFound
            }
        },
        HttpMethod::Other => Route::NotFound,
    }
}

/// How one request ends: a finished analysis, the root placeholder page,
/// a rejection before the engine ran, an unknown route, or a failure
/// while analysing.
#[derive(Clone, Debug)]
pub enum RequestOutcome {
    Done(Analysis),
    Placeholder,
    TooLarge,
    BadBody,
    UnknownRoute,
    Failed(PrickErr),
}

/// The wire status of each outcome: the two successes are 200, the two
/// rejections are the client errors 413 and 400, an unknown route is 404,
/// and every analysis or dispatch failure is the server error 500.
pub open spec fn status_spec(o: RequestOutcome) -> u16 {
    match o {
        RequestOutcome::Done(_) => 200,
        RequestOutcome::Placeholder => 200,
        RequestOutcome::TooLarge => 413,
        RequestOutcome::BadBody => 400,
        RequestOutcome::UnknownRoute => 404,
        RequestOutcome::Failed(_) => 500,
    }
}

/// Maps one outcome to its wire status, exactly as `status_spec` says.
pub fn status_of(o: &RequestOutcome) -> (s: u16)
    ensures
        s == status_spec(*o),
{
    match o {
        RequestOutcome::Done(_) => 200,
        RequestOutcome::Placeholder => 200,
        RequestOutcome::TooLarge => 413,
        RequestOutcome::BadBody => 400,
        RequestOutcome::UnknownRoute => 404,
        RequestOutcome::Failed(_) => 500,
    }
}

/// Settles a dispatched job: a job that ran and analysed hands its
/// analysis on; a job that ran and failed becomes an analysis error with
/// the job's message; a job the bridge lost becomes a dispatch error with
/// the bridge's message. The two failure kinds never mix.
pub fn settle_dispatch(outcome: Result<Result<Analysis, String>, String>) -> (r: Result<
    Analysis,
    PrickErr,
>)
    ensures
        outcome is Ok && outcome->Ok_0 is Ok ==> r is Ok && r->Ok_0 == outcome->Ok_0->Ok_0,
        outcome is Ok && outcome->Ok_0 is Err ==> r is Err && r->Err_0 is Analysis
            && r->Err_0->Analysis_0 == outcome->Ok_0->Err_0,
        outcome is Err ==> r is Err && r->Err_0 is InternalAsync && r->Err_0->InternalAsync_0
            == outcome->Err_0,
{
    match outcome {
        Result::Ok(Result::Ok(analysis)) => Result::Ok(analysis),
        Result::Ok(Result::Err(message)) => Result::Err(PrickErr::Analysis(message)),
        Result::Err(message) => Result::Err(PrickErr::InternalAsync(message)),
    }
}

/// The fixed placeholder that a GET of the root answers with.
pub fn root_message() -> (m: String)
    ensures
        m@ == "its dark and I am lost \u{25aa} chaos"@,
{
    "its dark and I am lost \u{25aa} chaos".to_owned()
}

} // verus!
