use download_gate::failure::Failure;

#[test]
fn status_codes_by_variant() {
    assert_eq!(Failure::Unauthorized.status_code(), 401);
    assert_eq!(Failure::InternalFailure("db down".to_string()).status_code(), 500);
    assert_eq!(
        Failure::TemplateRenderFailure("bad template".to_string()).status_code(),
        500
    );
}

#[test]
fn template_names_by_variant() {
    assert_eq!(Failure::Unauthorized.template_name(), "_unauthorized.html.j2");
    assert_eq!(
        Failure::InternalFailure("x".to_string()).template_name(),
        "_any_error.html.j2"
    );
    assert_eq!(
        Failure::TemplateRenderFailure("x".to_string()).template_name(),
        "_any_error.html.j2"
    );
}

#[test]
fn fallback_bodies_by_variant() {
    assert_eq!(
        Failure::Unauthorized.fallback_body(),
        "The secret is invalid or expired"
    );
    assert_eq!(
        Failure::InternalFailure("x".to_string()).fallback_body(),
        "Something went wrong."
    );
    assert_eq!(
        Failure::TemplateRenderFailure("x".to_string()).fallback_body(),
        "Something went wrong"
    );
}

#[test]
fn unauthorized_detection() {
    assert!(Failure::Unauthorized.is_unauthorized());
    assert!(!Failure::InternalFailure("x".to_string()).is_unauthorized());
    assert!(!Failure::TemplateRenderFailure("x".to_string()).is_unauthorized());
}

#[test]
fn fallback_body_never_carries_detail() {
    let f = Failure::InternalFailure("secret detail: connection string".to_string());
    assert!(!f.fallback_body().contains("connection string"));
}
