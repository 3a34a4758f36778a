use ar_proxy::config::{
    parse_credentials, parse_repositories, setup_configuration, ARProxyConfiguration,
    ConfigurationError,
};

fn configured(repositories: &str) -> ARProxyConfiguration {
    setup_configuration(
        Some("https://host/base".to_string()),
        Some(repositories.to_string()),
        Some("admin:secret".to_string()),
    )
    .unwrap()
}

fn lines(configuration: &ARProxyConfiguration) -> Vec<(String, String)> {
    configuration
        .repositories
        .iter()
        .map(|r| (r.alias.clone(), r.backend.clone()))
        .collect()
}

fn pair(alias: &str, backend: &str) -> (String, String) {
    (alias.to_string(), backend.to_string())
}

#[test]
fn configuration_is_read_from_the_three_texts() {
    let configuration = configured("public:internal-repo,snapshots:maven-snapshots");
    assert_eq!(configuration.url, "https://host/base");
    assert_eq!(configuration.creds.user, "admin");
    assert_eq!(configuration.creds.key, "secret");
    assert_eq!(
        lines(&configuration),
        vec![pair("public", "internal-repo"), pair("snapshots", "maven-snapshots")]
    );
}

#[test]
fn missing_texts_stop_the_start() {
    assert_eq!(
        setup_configuration(None, Some("a:b".to_string()), Some("u:k".to_string())).unwrap_err(),
        ConfigurationError::MissingUrl
    );
    assert_eq!(
        setup_configuration(None, None, None).unwrap_err(),
        ConfigurationError::MissingUrl
    );
    assert_eq!(
        setup_configuration(Some("u".to_string()), None, Some("nocolon".to_string()))
            .unwrap_err(),
        ConfigurationError::MissingRepositories
    );
    assert_eq!(
        setup_configuration(
            Some("u".to_string()),
            Some("entry".to_string()),
            Some("nocolon".to_string())
        )
        .unwrap_err(),
        ConfigurationError::RepositoryWithoutValue
    );
    assert_eq!(
        setup_configuration(
            Some("u".to_string()),
            Some("a:b".to_string()),
            Some("nocolon".to_string())
        )
        .unwrap_err(),
        ConfigurationError::InvalidCredentials
    );
}

#[test]
fn start_without_credentials_fails() {
    assert_eq!(
        setup_configuration(Some("u".to_string()), Some("a:b".to_string()), None).unwrap_err(),
        ConfigurationError::MissingCredentials
    );
    assert_eq!(
        setup_configuration(
            Some("https://host/base".to_string()),
            Some("public:internal-repo".to_string()),
            None
        )
        .unwrap_err(),
        ConfigurationError::MissingCredentials
    );
    assert_eq!(
        setup_configuration(Some("u".to_string()), Some(String::new()), None).unwrap_err(),
        ConfigurationError::MissingCredentials
    );
    // the table is looked at before the credentials
    assert_eq!(
        setup_configuration(Some("u".to_string()), Some("entry".to_string()), None).unwrap_err(),
        ConfigurationError::RepositoryWithoutValue
    );
    // credentials that are set, but not a pair, are another error
    assert_eq!(
        setup_configuration(Some("u".to_string()), Some("a:b".to_string()), Some(String::new()))
            .unwrap_err(),
        ConfigurationError::InvalidCredentials
    );
}

#[test]
fn every_text_is_required() {
    let url = || Some("u".to_string());
    let table = || Some("a:b".to_string());
    let pair = || Some("user:key".to_string());
    assert!(setup_configuration(url(), table(), pair()).is_ok());
    assert!(setup_configuration(None, table(), pair()).is_err());
    assert!(setup_configuration(url(), None, pair()).is_err());
    assert!(setup_configuration(url(), table(), None).is_err());
    assert!(setup_configuration(None, None, pair()).is_err());
    assert!(setup_configuration(None, table(), None).is_err());
    assert!(setup_configuration(url(), None, None).is_err());
    assert!(setup_configuration(None, None, None).is_err());
}

#[test]
fn credentials_are_cut_at_the_first_colon() {
    let creds = parse_credentials("user:key:more").unwrap();
    assert_eq!(creds.user, "user");
    assert_eq!(creds.key, "key:more");
    let creds = parse_credentials(":").unwrap();
    assert_eq!(creds.user, "");
    assert_eq!(creds.key, "");
    let creds = parse_credentials(":k").unwrap();
    assert_eq!(creds.user, "");
    assert_eq!(creds.key, "k");
    let creds = parse_credentials("u:").unwrap();
    assert_eq!(creds.user, "u");
    assert_eq!(creds.key, "");
    assert!(parse_credentials("").is_none());
    assert!(parse_credentials("userkey").is_none());
}

fn table(text: &str) -> Option<Vec<(String, String)>> {
    parse_repositories(text)
        .map(|found| found.iter().map(|r| (r.alias.clone(), r.backend.clone())).collect())
}

#[test]
fn empty_entries_give_no_lines() {
    assert_eq!(table(""), Some(vec![]));
    assert_eq!(table(",,,"), Some(vec![]));
    assert_eq!(table("a:b,,c:d,"), Some(vec![pair("a", "b"), pair("c", "d")]));
    assert_eq!(table(",a:b"), Some(vec![pair("a", "b")]));
}

#[test]
fn further_parts_of_an_entry_are_not_read() {
    assert_eq!(table("a:b:c"), Some(vec![pair("a", "b")]));
    assert_eq!(table("a::c"), Some(vec![pair("a", "")]));
    assert_eq!(table(":b"), Some(vec![pair("", "b")]));
    assert_eq!(table(":"), Some(vec![pair("", "")]));
    assert_eq!(table("a:"), Some(vec![pair("a", "")]));
}

#[test]
fn entry_without_colon_makes_the_table_invalid() {
    assert_eq!(table("a"), None);
    assert_eq!(table("a:b,c"), None);
    assert_eq!(table("c,a:b"), None);
    assert_eq!(table("a:b, ,c:d"), None);
}

#[test]
fn alias_resolves_to_its_repository() {
    let configuration = configured("public:internal-repo,snapshots:maven-snapshots");
    assert_eq!(configuration.resolve("public").unwrap(), "internal-repo");
    assert_eq!(configuration.resolve("snapshots").unwrap(), "maven-snapshots");
}

#[test]
fn resolution_is_repeatable() {
    let configuration = configured("public:internal-repo,snapshots:maven-snapshots");
    let mut round = 0;
    while round < 10 {
        assert_eq!(configuration.resolve("public").unwrap(), "internal-repo");
        assert_eq!(configuration.resolve("nothing").unwrap_err().0, "nothing");
        round += 1;
    }
    let again = configured("public:internal-repo,snapshots:maven-snapshots");
    assert_eq!(again.resolve("public").unwrap(), configuration.resolve("public").unwrap());
}

#[test]
fn unknown_alias_is_not_found() {
    let configuration = configured("public:internal-repo");
    assert_eq!(configuration.resolve("unknown").unwrap_err().0, "unknown");
    assert_eq!(configuration.resolve("").unwrap_err().0, "");
    assert_eq!(configured("").resolve("public").unwrap_err().0, "public");
}

#[test]
fn aliases_are_told_apart_exactly() {
    let configuration = configured("public:internal-repo");
    assert!(configuration.resolve("Public").is_err());
    assert!(configuration.resolve("PUBLIC").is_err());
    assert!(configuration.resolve("publi").is_err());
    assert!(configuration.resolve("public ").is_err());
    assert!(configuration.resolve(" public").is_err());
    assert!(configuration.resolve("publi*").is_err());
    assert!(configuration.resolve("internal-repo").is_err());
}

#[test]
fn later_line_for_an_alias_replaces_an_earlier_one() {
    let configuration = configured("a:first,b:other,a:second");
    assert_eq!(configuration.resolve("a").unwrap(), "second");
    assert_eq!(configuration.resolve("b").unwrap(), "other");
}
