//! The request/response payload model. A request names an operation and
//! carries a correlation key that its eventual response must echo; the
//! arguments and the success value travel through the core untouched, as the
//! structured text the embedding produced or expects.

use vstd::prelude::*;

verus! {

/// One decoded request: the correlation key that the response must echo, the
/// name of the operation to run on the owner thread, and its arguments as
/// structured text the handler interprets.
#[derive(Debug, Clone, PartialEq, Eq)]
pub struct ApiRequest {
    pub key: u64,
    pub method: String,
    pub arguments: String,
}

/// What a response carries back: the handler's success value, or a
/// description of what went wrong, both as structured text.
#[derive(Debug, Clone, PartialEq, Eq)]
pub enum ApiResult {
    Success(String),
    Error(String),
}

/// One response, addressed by the correlation key of the request it answers.
#[derive(Debug, Clone, PartialEq, Eq)]
pub struct ApiResponse {
    pub key: u64,
    pub result: ApiResult,
}

/// What one handler invocation came to on the owner thread: its success
/// value, or the failure it reported -- a failing handler becomes an error
/// response, never a crash of the dispatch loop.
#[derive(Debug, Clone, PartialEq, Eq)]
pub enum HandlerOutcome {
    Success(String),
    Failure(String),
}

/// Mathematical model of a request.
pub struct SpecRequest {
    pub key: u64,
    pub method: Seq<char>,
    pub arguments: Seq<char>,
}

/// Mathematical model of a response's result.
pub enum SpecResult {
    Success(Seq<char>),
    Error(Seq<char>),
}

/// Mathematical model of a response.
pub struct SpecResponse {
    pub key: u64,
    pub result: SpecResult,
}

/// Mathematical model of a handler outcome.
pub enum SpecOutcome {
    Success(Seq<char>),
    Failure(Seq<char>),
}

impl View for ApiRequest {
    type V = SpecRequest;

    open spec fn view(&self) -> SpecRequest {
        SpecRequest { key: self.key, method: self.method@, arguments: self.arguments@ }
    }
}

impl View for ApiResult {
    type V = SpecResult;

    open spec fn view(&self) -> SpecResult {
        match self {
            ApiResult::Success(v) => SpecResult::Success(v@),
            ApiResult::Error(e) => SpecResult::Error(e@),
        }
    }
}

impl View for ApiResponse {
    type V = SpecResponse;

    open spec fn view(&self) -> SpecResponse {
        SpecResponse { key: self.key, result: self.result@ }
    }
}

impl View for HandlerOutcome {
    type V = SpecOutcome;

    open spec fn view(&self) -> SpecOutcome {
        match self {
            HandlerOutcome::Success(v) => SpecOutcome::Success(v@),
            HandlerOutcome::Failure(e) => SpecOutcome::Failure(e@),
        }
    }
}

} // verus!
