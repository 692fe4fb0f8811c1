use gateway::access::{Admin, User};
use gateway::admin::{
    acme_account_restored, create_acme_account, parse_fqdn, request_acme_certificate,
    revive_projects,
};
use gateway::error::{ApiError, ErrorKind};

/// The credentials of an account with the key of RFC 6979, appendix A.2.5.
const CREDENTIALS: &str = "{\
    \"id\":\"https://acme.test/account/1\",\
    \"key_pkcs8\":\"MIGHAgEAMBMGByqGSM49AgEGCCqGSM49AwEHBG0wawIBAQQgya-p2EW6dRZrXCFXZ7HWk05Qw9s26JsSe4piKxIPZyGhRANCAARg_tS6JVqdMclh63TGNW1owEm4kjth-mzmaWIuYPKftnkD_hAIuLyZpBrp6VYovGTy8bIMLX6fUXejwpTURiKZ\",\
    \"urls\":{\
        \"newNonce\":\"https://acme.test/nonce\",\
        \"newAccount\":\"https://acme.test/account\",\
        \"newOrder\":\"https://acme.test/order\"\
    }\
}";

fn admin() -> Admin {
    let user = User {
        name: "neo".to_string(),
        projects: Vec::new(),
        super_user: true,
    };
    Admin::authorize(Some(user)).unwrap()
}

fn json(text: &str) -> serde_json::Value {
    serde_json::from_str(text).unwrap()
}

fn internal() -> ApiError {
    ApiError {
        kind: ErrorKind::Internal,
    }
}

#[test]
fn errors_have_a_kind() {
    let error = ApiError::from_kind(ErrorKind::InvalidOperation);
    assert_eq!(error.kind, ErrorKind::InvalidOperation);
    assert_eq!(ApiError::from_kind(ErrorKind::Internal), internal());
}

#[test]
fn a_failed_revival_is_internal() {
    assert_eq!(revive_projects(&admin()).revived::<&str>(Ok(())), Ok(()));
    assert_eq!(
        revive_projects(&admin()).revived(Err("no")),
        Err(internal())
    );
}

#[test]
fn what_an_acme_account_is_asked_for() {
    let command = create_acme_account(&admin(), "neo@matrix.test");
    assert_eq!(command.contact, "mailto:neo@matrix.test");
    assert!(command.terms_of_service_agreed);
    assert!(!command.only_return_existing);
    assert_eq!(
        command.server_url,
        "https://acme-v02.api.letsencrypt.org/directory"
    );
    assert_eq!(command.created(Err("no")), Err(internal()));
}

#[test]
fn domain_names() {
    for name in [
        "",
        ".",
        "shuttle.rs",
        "shuttle.rs.",
        "a",
        "A_b-9.x",
        "-a-.com",
    ] {
        assert!(parse_fqdn(name).is_ok(), "{name}");
    }
    let longest = "a".repeat(255);
    assert!(parse_fqdn(&longest).is_ok());
    assert!(parse_fqdn(&format!("{longest}.{longest}.")).is_ok());

    let too_long = "a".repeat(256);
    for name in [
        "..",
        ".rs",
        "shuttle..rs",
        "shuttle.rs..",
        "shut tle.rs",
        "shut@tle.rs",
        "sh\u{fc}ttle.rs",
        too_long.as_str(),
    ] {
        assert_eq!(
            parse_fqdn(name).unwrap_err(),
            ApiError {
                kind: ErrorKind::InvalidOperation
            },
            "{name}"
        );
    }

    let one = parse_fqdn("shuttle.rs").unwrap();
    assert_eq!(one.to_string(), "shuttle.rs");
    assert_eq!(parse_fqdn("shuttle.rs.").unwrap(), one);
}

#[test]
fn credentials_decide_a_certificate_request() {
    let command =
        request_acme_certificate(&admin(), "shuttle.rs", json(CREDENTIALS)).unwrap_or_else(|_| panic!());
    assert_eq!(
        serde_json::to_value(&command.credentials).unwrap(),
        json(CREDENTIALS)
    );
    assert_eq!(command.fqdn.unwrap().to_string(), "shuttle.rs");

    let refused = request_acme_certificate(&admin(), "shuttle.rs", json("{\"id\":\"1\"}")).err();
    assert_eq!(refused, Some(internal()));
    let refused = request_acme_certificate(&admin(), "..", json("null")).err();
    assert_eq!(refused, Some(internal()));
}

#[test]
fn a_malformed_domain_fails_no_certificate_request() {
    let command =
        request_acme_certificate(&admin(), "not a name", json(CREDENTIALS)).unwrap_or_else(|_| panic!());
    assert_eq!(
        command.fqdn,
        Err(ApiError {
            kind: ErrorKind::InvalidOperation
        })
    );
}

#[test]
fn a_restored_account_is_answered_with_an_empty_object() {
    let answer = acme_account_restored::<u8, &str>(Ok(1)).unwrap();
    assert_eq!(answer.to_string(), "{}");
    assert_eq!(acme_account_restored::<u8, &str>(Err("no")), Err(internal()));
}

#[test]
fn an_account_gives_back_the_credentials_it_was_restored_from() {
    let command =
        request_acme_certificate(&admin(), "shuttle.rs", json(CREDENTIALS)).unwrap_or_else(|_| panic!());
    let account = instant_acme::Account::from_credentials(command.credentials)
        .unwrap_or_else(|error| panic!("{error}"));
    let asked = create_acme_account(&admin(), "neo@matrix.test");
    let answer = asked.created::<&str>(Ok(account)).unwrap();
    assert_eq!(answer, json(CREDENTIALS));
    assert!(request_acme_certificate(&admin(), "shuttle.rs", answer).is_ok());
}
