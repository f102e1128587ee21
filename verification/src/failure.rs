//! Failure classification: every error the request pipeline can surface is one
//! of three variants, and the variant alone decides the HTTP status code, the
//! error-page template, and the plain-text fallback body shown to the client.
//! Detail strings are for server-side logging only and never reach the client.

use vstd::prelude::*;

verus! {

/// A failure raised anywhere in the request pipeline.
///
/// `Unauthorized` covers an invalid, unknown or expired secret and equally a
/// valid secret whose target object is absent: the two are deliberately
/// indistinguishable to the client. `TemplateRenderFailure` means the error
/// renderer itself failed. `InternalFailure` wraps every other error (store
/// connectivity, object-store faults, malformed input); its payload is a
/// server-side detail message.
#[derive(Debug)]
pub enum Failure {
    Unauthorized,
    TemplateRenderFailure(String),
    InternalFailure(String),
}

/// The HTTP status code a failure maps to: 401 for `Unauthorized`, 500 for
/// everything else. No other status originates from the pipeline.
pub open spec fn status_of(f: Failure) -> u16 {
    match f {
        Failure::Unauthorized => 401,
        Failure::TemplateRenderFailure(_) => 500,
        Failure::InternalFailure(_) => 500,
    }
}

/// The name of the HTML template that renders a failure: the unauthorized
/// page for `Unauthorized`, the generic error page for everything else.
pub open spec fn template_name_of(f: Failure) -> Seq<char> {
    match f {
        Failure::Unauthorized => "_unauthorized.html.j2"@,
        Failure::TemplateRenderFailure(_) => "_any_error.html.j2"@,
        Failure::InternalFailure(_) => "_any_error.html.j2"@,
    }
}

/// The fixed plain-text body used when no template can be rendered. It names
/// nothing of the failure's server-side detail.
pub open spec fn fallback_body_of(f: Failure) -> Seq<char> {
    match f {
        Failure::Unauthorized => "The secret is invalid or expired"@,
        Failure::TemplateRenderFailure(_) => "Something went wrong"@,
        Failure::InternalFailure(_) => "Something went wrong."@,
    }
}

impl Failure {
    /// The HTTP status code of the response this failure turns into.
    pub fn status_code(&self) -> (r: u16)
        ensures
            r == status_of(*self),
    {
        match self {
            Failure::Unauthorized => 401,
            Failure::TemplateRenderFailure(_) => 500,
            Failure::InternalFailure(_) => 500,
        }
    }

    /// The template that should render this failure's error page.
    pub fn template_name(&self) -> (r: &'static str)
        ensures
            r@ == template_name_of(*self),
    {
        match self {
            Failure::Unauthorized => "_unauthorized.html.j2",
            Failure::TemplateRenderFailure(_) => "_any_error.html.j2",
            Failure::InternalFailure(_) => "_any_error.html.j2",
        }
    }

    /// The fixed plain-text body used when rendering the page fails.
    pub fn fallback_body(&self) -> (r: &'static str)
        ensures
            r@ == fallback_body_of(*self),
    {
        match self {
            Failure::Unauthorized => "The secret is invalid or expired",
            Failure::TemplateRenderFailure(_) => "Something went wrong",
            Failure::InternalFailure(_) => "Something went wrong.",
        }
    }

    /// Whether this failure is client-attributable (bad secret or absent
    /// object) rather than a server-side fault.
    pub fn is_unauthorized(&self) -> (r: bool)
        ensures
            r == (*self is Unauthorized),
    {
        match self {
            Failure::Unauthorized => true,
            _ => false,
        }
    }
}

} // verus!
