use download_gate::failure::Failure;
use download_gate::render::ErrorPage;
use download_gate::render::full_uri;
use download_gate::render::page_for_render_outcome;
use download_gate::render::render_error_page;

fn env_with_pages() -> minijinja::Environment<'static> {
    let mut env = minijinja::Environment::new();
    env.add_template(
        "_unauthorized.html.j2",
        "<h1>{{ status_code }}</h1><p>denied at {{ uri }}</p>",
    )
    .unwrap();
    env.add_template(
        "_any_error.html.j2",
        "<h1>{{ status_code }}</h1><p>error on {{ host }}{{ uri_path }}</p>",
    )
    .unwrap();
    env
}

#[test]
fn unauthorized_page_renders_with_context() {
    let env = env_with_pages();
    let (page, secondary) = render_error_page(
        &env,
        &Failure::Unauthorized,
        "downloads.example",
        "/abc123/report.pdf",
    );
    assert_eq!(page.status, 401);
    assert!(page.is_html);
    assert!(secondary.is_none());
    assert_eq!(
        page.body,
        "<h1>401</h1><p>denied at https:&#x2f;&#x2f;downloads.example&#x2f;abc123&#x2f;report.pdf</p>"
    );
}

#[test]
fn internal_failure_renders_generic_page_without_detail() {
    let env = env_with_pages();
    let failure = Failure::InternalFailure("pool exhausted".to_string());
    let (page, secondary) = render_error_page(&env, &failure, "downloads.example", "/a/b");
    assert_eq!(page.status, 500);
    assert!(page.is_html);
    assert!(secondary.is_none());
    assert_eq!(page.body, "<h1>500</h1><p>error on downloads.example&#x2f;a&#x2f;b</p>");
    assert!(!page.body.contains("pool exhausted"));
}

#[test]
fn missing_template_falls_back_with_original_status() {
    let env = minijinja::Environment::new();
    let (page, secondary) = render_error_page(&env, &Failure::Unauthorized, "h", "/p");
    assert_eq!(page.status, 401);
    assert!(!page.is_html);
    assert_eq!(page.body, "The secret is invalid or expired");
    assert!(matches!(secondary, Some(Failure::TemplateRenderFailure(_))));
}

#[test]
fn render_failure_never_masks_the_status() {
    let mut env = minijinja::Environment::new();
    env.add_template("_unauthorized.html.j2", "{{ host | nosuchfilter }}")
        .unwrap();
    let (page, secondary) = render_error_page(&env, &Failure::Unauthorized, "h", "/p");
    // the renderer failed, yet the page still answers 401, not 500
    assert_eq!(page.status, 401);
    assert!(!page.is_html);
    assert_eq!(page.body, "The secret is invalid or expired");
    match secondary {
        Some(Failure::TemplateRenderFailure(detail)) => assert!(!detail.is_empty()),
        _ => panic!("expected a template failure report"),
    }
}

#[test]
fn page_outcome_uses_rendered_body() {
    let page: ErrorPage = page_for_render_outcome(
        &Failure::InternalFailure("x".to_string()),
        Ok("<html></html>".to_string()),
    );
    assert_eq!(page.status, 500);
    assert!(page.is_html);
    assert_eq!(page.body, "<html></html>");
}

#[test]
fn page_outcome_falls_back_on_error() {
    let page: ErrorPage = page_for_render_outcome(
        &Failure::Unauthorized,
        Err("boom".to_string()),
    );
    assert_eq!(page.status, 401);
    assert!(!page.is_html);
    assert_eq!(page.body, "The secret is invalid or expired");
}

#[test]
fn full_uri_concatenates() {
    assert_eq!(full_uri("example.com", "/a/b.pdf"), "https://example.com/a/b.pdf");
    assert_eq!(full_uri("", "/p"), "https:///p");
}
