use vstd::prelude::*;
use crate::error::{ErrorCode, ErrorInfo, ErrorInfoView};

verus! {

/// The fixed, unauthenticated endpoint that lists the models available for download.
pub const CATALOG_URL: &'static str = "https://ollama-models.zwz.workers.dev/";

/// Turns a backend outcome, whose failure is described by `Err(message)`, into the
/// structured outcome of an operation whose failures carry `code`.
pub fn normalize<T>(outcome: Result<T, String>, code: ErrorCode) -> (r: Result<T, ErrorInfo>)
    ensures
        match outcome {
            Ok(v) => r == Ok::<T, ErrorInfo>(v),
            Err(m) => r is Err && r->Err_0@ == (ErrorInfoView { code, message: m@ }),
        },
{
    match outcome {
        Ok(v) => Ok(v),
        Err(m) => Err(ErrorInfo::new(code, m)),
    }
}

/// The outcome of a completion request, given the completion text or the
/// backend's failure.
pub fn generate_result(outcome: Result<String, String>) -> (r: Result<String, ErrorInfo>)
    ensures
        match outcome {
            Ok(text) => r == Ok::<String, ErrorInfo>(text),
            Err(m) => {
                &&& r is Err
                &&& r->Err_0@ == (ErrorInfoView { code: ErrorCode::GenerateError, message: m@ })
                &&& m@.len() > 0 ==> r->Err_0.message@.len() > 0
            },
        },
{
    normalize(outcome, ErrorCode::GenerateError)
}

/// The outcome of listing the models present on the backend.
pub fn list_models_result<M>(outcome: Result<Vec<M>, String>) -> (r: Result<Vec<M>, ErrorInfo>)
    ensures
        match outcome {
            Ok(models) => r == Ok::<Vec<M>, ErrorInfo>(models),
            Err(m) => {
                &&& r is Err
                &&& r->Err_0@ == (ErrorInfoView { code: ErrorCode::ListModelError, message: m@ })
                &&& m@.len() > 0 ==> r->Err_0.message@.len() > 0
            },
        },
{
    normalize(outcome, ErrorCode::ListModelError)
}

/// The outcome of fetching the metadata of one model. Its failures share the
/// code of listing the models.
pub fn model_info_result<I>(outcome: Result<I, String>) -> (r: Result<I, ErrorInfo>)
    ensures
        match outcome {
            Ok(info) => r == Ok::<I, ErrorInfo>(info),
            Err(m) => {
                &&& r is Err
                &&& r->Err_0@ == (ErrorInfoView { code: ErrorCode::ListModelError, message: m@ })
                &&& m@.len() > 0 ==> r->Err_0.message@.len() > 0
            },
        },
{
    normalize(outcome, ErrorCode::ListModelError)
}

/// The raw reply of the model catalog: its body, verbatim, and its HTTP status.
#[derive(Clone, Debug, PartialEq, Eq)]
pub struct CatalogResponse {
    pub data: String,
    pub status: u16,
}

/// How a request to the model catalog went.
pub enum CatalogFetch {
    /// No response arrived; the transport error, as text.
    Unreachable(String),
    /// A response arrived with `status`, but its body could not be read.
    BodyUnreadable(String),
    /// A response arrived with `status` and `body`.
    Received { status: u16, body: String },
}

/// The outcome of a catalog fetch. Any status is passed through, and a failure
/// is the transport error's text, not a structured error.
pub fn catalog_result(fetch: CatalogFetch) -> (r: Result<CatalogResponse, String>)
    ensures
        match fetch {
            CatalogFetch::Unreachable(e) => r == Err::<CatalogResponse, String>(e),
            CatalogFetch::BodyUnreadable(e) => r == Err::<CatalogResponse, String>(e),
            CatalogFetch::Received { status, body } => {
                &&& r is Ok
                &&& r->Ok_0.status == status
                &&& r->Ok_0.data == body
            },
        },
{
    match fetch {
        CatalogFetch::Unreachable(e) => Err(e),
        CatalogFetch::BodyUnreadable(e) => Err(e),
        CatalogFetch::Received { status, body } => Ok(CatalogResponse { data: body, status }),
    }
}

} // verus!
