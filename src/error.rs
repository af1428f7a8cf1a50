use vstd::prelude::*;

verus! {

/// Symbolic identifier of a structured backend failure.
#[derive(Clone, Copy, Debug, PartialEq, Eq, Structural)]
pub enum ErrorCode {
    GenerateError,
    ListModelError,
    PullModelError,
}

/// The text by which a caller recognises each error code.
pub open spec fn code_text(code: ErrorCode) -> Seq<char> {
    match code {
        ErrorCode::GenerateError => "GENERATE_ERROR"@,
        ErrorCode::ListModelError => "LIST_MODEL_ERROR"@,
        ErrorCode::PullModelError => "PULL_MODEL_ERROR"@,
    }
}

impl ErrorCode {
    pub fn as_str(&self) -> (r: &'static str)
        ensures
            r@ == code_text(*self),
    {
        match self {
            ErrorCode::GenerateError => "GENERATE_ERROR",
            ErrorCode::ListModelError => "LIST_MODEL_ERROR",
            ErrorCode::PullModelError => "PULL_MODEL_ERROR",
        }
    }
}

/// The abstract content of an [`ErrorInfo`].
pub struct ErrorInfoView {
    pub code: ErrorCode,
    pub message: Seq<char>,
}

/// A structured failure: which operation-level error occurred, and the backend's
/// own description of it.
#[derive(Clone, Debug, PartialEq, Eq)]
pub struct ErrorInfo {
    pub code: ErrorCode,
    pub message: String,
}

impl View for ErrorInfo {
    type V = ErrorInfoView;

    open spec fn view(&self) -> ErrorInfoView {
        ErrorInfoView { code: self.code, message: self.message@ }
    }
}

impl ErrorInfo {
    pub fn new(code: ErrorCode, message: String) -> (r: ErrorInfo)
        ensures
            r.code == code,
            r.message == message,
    {
        ErrorInfo { code, message }
    }
}

} // verus!
