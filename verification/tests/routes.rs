use ar_proxy::auth::ApiCredentials;
use ar_proxy::config::{setup_configuration, ARProxyConfiguration};
use ar_proxy::resource_access::ResourceAccess;
use ar_proxy::gcp::gcp_creds::{ArtifactRegistryCreds, Timestamp};
use ar_proxy::gcp::gcp_resource_access::{ArtifactRegistryResourceAccess, Step};
use ar_proxy::routes::{
    authenticated, get_repository_resource, home, put_repository_resource, un_authenticated,
    PutRefusal,
};

fn configuration() -> ARProxyConfiguration {
    setup_configuration(
        Some("https://host/base".to_string()),
        Some("public:internal-repo".to_string()),
        Some("admin:secret".to_string()),
    )
    .unwrap()
}

#[test]
fn get_of_a_known_alias_reads_the_backend_repository() {
    let configuration = configuration();
    let resource = get_repository_resource("public", "a/b/test.txt", &configuration).unwrap();
    assert_eq!(resource, "internal-repo/a/b/test.txt");

    // the upstream service answers 200 with the body "hello"
    let access = ArtifactRegistryResourceAccess {
        creds: ArtifactRegistryCreds::new(
            "tok".to_string(),
            Timestamp { seconds: 4_000_000_000, nanos: 0, offset: 0 },
        ),
        url: configuration.url.clone(),
    };
    let waiting = match access.get_resource(&resource) {
        Step::ObtainToken(waiting) => waiting,
        other => panic!("unexpected step: {:?}", other),
    };
    let (request, sent) = match waiting.token(Ok("tok".to_string())) {
        Step::Send(request, sent) => (request, sent),
        other => panic!("unexpected step: {:?}", other),
    };
    assert_eq!(request.url, "https://host/base/internal-repo/a/b/test.txt");
    let reading = match sent.response(Ok(200)) {
        Step::ReadBody(reading) => reading,
        other => panic!("unexpected step: {:?}", other),
    };
    let (payload, writing) = match reading.body(Ok(b"hello".to_vec())) {
        Step::Stage(payload, writing) => (payload, writing),
        other => panic!("unexpected step: {:?}", other),
    };
    assert_eq!(payload.content, b"hello".to_vec());
    assert!(matches!(writing.staged(Ok(())), Step::Finished(Ok(()))));
}

#[test]
fn get_of_an_unknown_alias_is_answered_with_404() {
    let response = get_repository_resource("unknown", "x", &configuration()).unwrap_err();
    assert_eq!(response.status, 404);
    assert_eq!(response.body.error_name, "Repository not found");
    assert_eq!(response.body.message, "Failed to find repository: 'unknown'");
}

#[test]
fn get_asks_for_no_credentials() {
    assert!(get_repository_resource("public", "a.txt", &configuration()).is_ok());
}

#[test]
fn put_without_authorization_is_asked_to_authenticate() {
    let refusal =
        put_repository_resource(None, "public", "a/b/test.txt", &configuration()).unwrap_err();
    match refusal {
        PutRefusal::Unauthenticated(response) => {
            assert_eq!(response.status, 401);
            assert_eq!(response.more.name, "WWW-Authenticate");
            assert_eq!(response.more.value, "Basic realm=\"\"");
            assert!(response.more.value.starts_with("Basic"));
            assert_eq!(response.body, "Please authenticate");
        }
        other => panic!("unexpected refusal: {:?}", other),
    }
}

#[test]
fn put_with_wrong_credentials_is_asked_to_authenticate() {
    // "admin:wrong"
    let refusal = put_repository_resource(
        Some("Basic YWRtaW46d3Jvbmc="),
        "public",
        "a/b/test.txt",
        &configuration(),
    )
    .unwrap_err();
    assert!(matches!(refusal, PutRefusal::Unauthenticated(_)));
    // an unknown alias does not change the answer
    let refusal =
        put_repository_resource(Some("Bearer x"), "unknown", "a.txt", &configuration())
            .unwrap_err();
    assert!(matches!(refusal, PutRefusal::Unauthenticated(_)));
}

#[test]
fn put_with_the_configured_credentials_writes_the_backend_repository() {
    let resource = put_repository_resource(
        Some("Basic YWRtaW46c2VjcmV0"),
        "public",
        "a/b/test.txt",
        &configuration(),
    )
    .unwrap();
    assert_eq!(resource, "internal-repo/a/b/test.txt");
}

#[test]
fn put_to_an_unknown_alias_is_answered_with_404() {
    let refusal = put_repository_resource(
        Some("Basic YWRtaW46c2VjcmV0"),
        "unknown",
        "a/b/test.txt",
        &configuration(),
    )
    .unwrap_err();
    match refusal {
        PutRefusal::Failed(response) => {
            assert_eq!(response.status, 404);
            assert_eq!(response.body.error_name, "Repository not found");
            assert_eq!(response.body.message, "Failed to find repository: 'unknown'");
        }
        other => panic!("unexpected refusal: {:?}", other),
    }
}

#[test]
fn fixed_answers() {
    assert_eq!(
        home(),
        "Hello! This is the GCP Artifact Registry proxy written in Rust on Rocket."
    );
    let creds = ApiCredentials { user: "u".to_string(), key: "k".to_string() };
    assert_eq!(authenticated(&creds), "Good work! You are authenticated.");
    let response = un_authenticated();
    assert_eq!(response.status, 401);
    assert_eq!(response.body, "Please authenticate");
    assert_eq!(response.more.name, "WWW-Authenticate");
    assert_eq!(response.more.value, "Basic realm=\"\"");
}
