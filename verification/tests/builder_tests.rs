use ravix::app::{App, CorsConfig, CorsError, MiddlewareChain};
use ravix::container::Container;
use ravix::writer::{BatchCounter, BATCH_SIZE};

#[test]
fn app_builder_collects_parts() {
    let app: App<u32, &str> = App::new()
        .container(Container::new())
        .base_path("/my_service/v1")
        .middleware(MiddlewareChain::new().add_layer("inner").add_layer("outer"));
    let parts = app.into_parts();
    assert!(parts.container.is_some());
    assert!(parts.cors.is_none());
    assert_eq!(parts.base_path.as_deref(), Some("/my_service/v1"));
    assert_eq!(parts.middleware.unwrap().into_layers(), vec!["inner", "outer"]);
    let empty: App<u32, &str> = App::new();
    let p = empty.into_parts();
    assert!(p.container.is_none() && p.middleware.is_none() && p.base_path.is_none());
}

#[test]
fn cors_credentials_need_explicit_origins_and_headers() {
    let any = CorsConfig::builder().allow_credentials().build();
    assert_eq!(any.validate(), Err(CorsError::CredentialsWithAnyOrigin));
    let no_headers = CorsConfig::builder()
        .allow_origins(vec!["https://app.example.com".to_string()])
        .allow_credentials()
        .build();
    assert_eq!(no_headers.validate(), Err(CorsError::CredentialsWithAnyHeader));
    let ok = CorsConfig::builder()
        .allow_origins(vec!["https://app.example.com".to_string()])
        .allow_methods(vec!["GET".to_string(), "POST".to_string()])
        .allow_headers(vec!["content-type".to_string()])
        .max_age(3600)
        .allow_credentials()
        .build();
    assert_eq!(ok.validate(), Ok(()));
    assert_eq!(ok.max_age, Some(3600));
    assert!(CorsConfig::builder().build().validate().is_ok());
    let app: App<u32, u8> = App::new().cors(ok);
    assert!(app.into_parts().cors.is_some());
}

#[test]
fn writer_flushes_every_batch() {
    let mut c = BatchCounter::new();
    let mut flushes = Vec::new();
    for i in 1..=(3 * BATCH_SIZE) {
        if c.record_write() {
            flushes.push(i);
        }
    }
    assert_eq!(flushes, vec![64, 128, 192]);
}

#[test]
fn cors_header_values() {
    let open = CorsConfig::builder().build();
    assert_eq!(open.allowed_origin(Some("https://a.example")), Some("*".to_string()));
    assert_eq!(open.allowed_origin(None), Some("*".to_string()));
    assert_eq!(open.methods_value(), "*");
    assert_eq!(open.headers_value(), "*");
    assert_eq!(open.expose_value(), None);
    let strict = CorsConfig::builder()
        .allow_origins(vec!["https://a.example".to_string(), "https://b.example".to_string()])
        .allow_methods(vec!["GET".to_string(), "POST".to_string(), "DELETE".to_string()])
        .allow_headers(vec!["content-type".to_string()])
        .expose_headers(vec!["x-request-id".to_string(), "x-trace".to_string()])
        .build();
    assert_eq!(strict.allowed_origin(Some("https://b.example")), Some("https://b.example".to_string()));
    assert_eq!(strict.allowed_origin(Some("https://c.example")), None);
    assert_eq!(strict.allowed_origin(None), None);
    assert_eq!(strict.methods_value(), "GET, POST, DELETE");
    assert_eq!(strict.headers_value(), "content-type");
    assert_eq!(strict.expose_value(), Some("x-request-id, x-trace".to_string()));
}
