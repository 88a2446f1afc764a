//! Failures while answering a request, and the replies they turn into.
use vstd::prelude::*;
use crate::handlers::Reply;

verus! {

/// askama's `Error`, the failure of `Template::render`. Nothing is assumed of
/// its contents: it is carried through unopened, and only its `Display` text
/// (through `ToString::to_string`) is read.
#[verifier::external_type_specification]
#[verifier::external_body]
pub struct ExAskamaError(askama::Error);

/// A failure of the service while answering a request.
pub enum AppError {
    /// A template could not be rendered.
    TemplateError(askama::Error),
}

impl From<askama::Error> for AppError {
    fn from(err: askama::Error) -> (r: Self) {
        AppError::TemplateError(err)
    }
}

impl vstd::std_specs::convert::FromSpecImpl<askama::Error> for AppError {
    open spec fn obeys_from_spec() -> bool {
        true
    }

    open spec fn from_spec(v: askama::Error) -> Self {
        AppError::TemplateError(v)
    }
}

/// What the body of a failed render starts with.
pub open spec fn render_failure_prefix() -> Seq<char> {
    "Template rendering failed: "@
}

/// The reply to a failed render, whose description is `detail`: status 500,
/// with the description in the body.
pub fn render_failure(detail: &str) -> (r: Reply)
    ensures
        r matches Reply::Failed { message } && message@ == render_failure_prefix() + detail@,
{
    Reply::Failed { message: String::from_str("Template rendering failed: ").concat(detail) }
}

impl AppError {
    /// The reply to this failure: status 500, with a body that is the fixed
    /// prefix followed by the error's own `Display` text.
    pub fn into_response(self) -> (r: Reply)
        ensures
            match self {
                AppError::TemplateError(e) => r matches Reply::Failed { message } && exists|d: String|
                    vstd::string::to_string_from_display_ensures::<askama::Error>(&e, d)
                        && message@ == render_failure_prefix() + d@,
            },
    {
        match self {
            AppError::TemplateError(e) => {
                let detail = e.to_string();
                let r = render_failure(detail.as_str());
                assert(vstd::string::to_string_from_display_ensures::<askama::Error>(&e, detail));
                r
            },
        }
    }
}

} // verus!
