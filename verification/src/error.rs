use vstd::prelude::*;

verus! {

/// The HTTP statuses with which the service refuses a request.
#[derive(Clone, Copy, Debug, PartialEq, Eq, Structural)]
pub enum StatusCode {
    BadRequest,
    Unauthorized,
    Forbidden,
    NotFound,
    InternalServerError,
}

impl StatusCode {
    /// The numeric HTTP status.
    pub open spec fn spec_code(self) -> u16 {
        match self {
            StatusCode::BadRequest => 400,
            StatusCode::Unauthorized => 401,
            StatusCode::Forbidden => 403,
            StatusCode::NotFound => 404,
            StatusCode::InternalServerError => 500,
        }
    }

    /// The numeric HTTP status.
    pub fn code(&self) -> (c: u16)
        ensures
            c == self.spec_code(),
    {
        match self {
            StatusCode::BadRequest => 400,
            StatusCode::Unauthorized => 401,
            StatusCode::Forbidden => 403,
            StatusCode::NotFound => 404,
            StatusCode::InternalServerError => 500,
        }
    }
}

/// A refused request: the status and the text of the reply.
#[derive(Debug)]
pub struct ApiError {
    pub status: StatusCode,
    pub message: String,
}

/// What an [`ApiError`] says.
pub struct ApiErrorView {
    pub status: StatusCode,
    pub message: Seq<char>,
}

impl View for ApiError {
    type V = ApiErrorView;

    open spec fn view(&self) -> ApiErrorView {
        ApiErrorView { status: self.status, message: self.message@ }
    }
}

/// The refusal with the given status and text.
pub open spec fn refusal(status: StatusCode, message: Seq<char>) -> ApiErrorView {
    ApiErrorView { status, message }
}

impl ApiError {
    /// A refusal with a fixed text.
    pub fn new(status: StatusCode, message: &str) -> (e: ApiError)
        ensures
            e@ == refusal(status, message@),
    {
        ApiError { status, message: String::from_str(message) }
    }

    /// A refusal whose text was produced elsewhere.
    pub fn with_text(status: StatusCode, message: String) -> (e: ApiError)
        ensures
            e@ == refusal(status, message@),
    {
        ApiError { status, message }
    }
}

/// The view of a result that may be refused.
pub open spec fn result_view<T: View>(r: Result<T, ApiError>) -> Result<T::V, ApiErrorView> {
    match r {
        Ok(v) => Ok(v@),
        Err(e) => Err(e@),
    }
}

} // verus!
