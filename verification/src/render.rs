//! The error page: classification of a failure into a template, rendering
//! through the template engine, and the plain-text fallback.
//!
//! The one property this module pins down unconditionally: the page always
//! carries the status code of the failure it renders. A missing template or
//! a failed render degrades the body to the fixed fallback text — it never
//! changes the status, and never surfaces any server-side detail.

use vstd::prelude::*;

use crate::failure::Failure;
use crate::failure::fallback_body_of;
use crate::failure::status_of;

verus! {

#[verifier::external_type_specification]
#[verifier::external_body]
pub struct ExEnvironment<'source>(minijinja::Environment<'source>);

#[verifier::external_type_specification]
#[verifier::external_body]
pub struct ExTemplate<'env: 'source, 'source>(minijinja::Template<'env, 'source>);

#[verifier::external_type_specification]
#[verifier::external_body]
pub struct ExMjError(minijinja::Error);

/// Looks a template up by name among those loaded into the environment.
///
/// Relies on `minijinja::Environment::get_template`: it returns the compiled
/// template of that exact name, and an error when none of that name is
/// loaded.
#[verifier::external_body]
fn lookup_template<'env, 'source>(env: &'env minijinja::Environment<'source>, name: &str) -> (r:
    Result<minijinja::Template<'env, 'env>, minijinja::Error>) {
    env.get_template(name)
}

/// Renders a template with the error-page context.
///
/// Relies on `minijinja::Template::render`: it evaluates the template with
/// the given context — here the variables `status_code`, `host`, `uri_path`
/// and `uri`, each bound to the argument of that name — and returns either
/// the rendered text or an evaluation error. A template may name none, some
/// or all of these variables; an unnamed one is simply unused.
#[verifier::external_body]
fn render_with_context<'env, 'source>(
    tmpl: &minijinja::Template<'env, 'source>,
    status_code: u16,
    host: &str,
    uri_path: &str,
    uri: &str,
) -> (r: Result<String, minijinja::Error>) {
    let context = minijinja::Value::from_iter([
        ("status_code", minijinja::Value::from(status_code)),
        ("host", minijinja::Value::from(host)),
        ("uri_path", minijinja::Value::from(uri_path)),
        ("uri", minijinja::Value::from(uri)),
    ]);
    tmpl.render(context)
}

/// A loggable description of a template error.
///
/// Relies on `minijinja::Error`'s `Display` implementation, which describes
/// the error kind and source location.
#[verifier::external_body]
fn template_error_text(err: &minijinja::Error) -> (r: String) {
    err.to_string()
}

/// The full request URI as the error pages show it: the scheme, the host and
/// the path, concatenated.
pub fn full_uri(host: &str, uri_path: &str) -> (r: String)
    ensures
        r@ == "https://"@ + host@ + uri_path@,
{
    let mut uri: String = "https://".to_owned();
    uri.append(host);
    uri.append(uri_path);
    uri
}

/// The client-visible page a failure turns into.
pub struct ErrorPage {
    /// Always the status of the failure being rendered.
    pub status: u16,
    /// The rendered template, or the fixed fallback text.
    pub body: String,
    /// Whether `body` is rendered HTML rather than the plain-text fallback.
    pub is_html: bool,
}

/// Decides the page once the template engine has spoken: a rendered body is
/// served as HTML, a missing template or failed render degrades to the fixed
/// plain-text fallback — and in every case the page carries the status of
/// the failure itself, never a status of the renderer's own.
pub fn page_for_render_outcome(failure: &Failure, rendered: Result<String, String>) -> (page:
    ErrorPage)
    ensures
        page.status == status_of(*failure),
        rendered matches Ok(body) ==> page.is_html && page.body == body,
        rendered is Err ==> !page.is_html && page.body@ == fallback_body_of(*failure),
{
    let status = failure.status_code();
    match rendered {
        Ok(body) => ErrorPage { status, body, is_html: true },
        Err(_) => ErrorPage { status, body: failure.fallback_body().to_owned(), is_html: false },
    }
}

/// Renders the error page for a failure: selects the template by the
/// failure's variant, renders it with the request's context, and degrades to
/// the plain-text fallback when the template is missing or misrenders. Beside
/// the page it reports the renderer's own failure, if any, for server-side
/// logging: the page's status is the original failure's either way.
pub fn render_error_page<'source>(
    env: &minijinja::Environment<'source>,
    failure: &Failure,
    host: &str,
    uri_path: &str,
) -> (r: (ErrorPage, Option<Failure>))
    ensures
        r.0.status == status_of(*failure),
        r.1 is None ==> r.0.is_html,
        r.1 matches Some(secondary) ==> {
            &&& secondary is TemplateRenderFailure
            &&& !r.0.is_html
            &&& r.0.body@ == fallback_body_of(*failure)
        },
{
    let name = failure.template_name();
    let uri = full_uri(host, uri_path);
    let status = failure.status_code();
    let rendered: Result<String, String> = match lookup_template(env, name) {
        Ok(tmpl) => match render_with_context(&tmpl, status, host, uri_path, uri.as_str()) {
            Ok(body) => Ok(body),
            Err(e) => Err(template_error_text(&e)),
        },
        Err(e) => Err(template_error_text(&e)),
    };
    match rendered {
        Ok(body) => {
            let page = page_for_render_outcome(failure, Ok(body));
            (page, None)
        },
        Err(detail) => {
            let page = page_for_render_outcome(failure, Err(detail.clone()));
            (page, Some(Failure::TemplateRenderFailure(detail)))
        },
    }
}

} // verus!
