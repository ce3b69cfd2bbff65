use library_api::api_keys::api_keys_application::{
    ApiKeyCreationService, ApiKeyDeletionService, ApiKeyValidationService,
};
use library_api::api_keys::api_keys_domain::{ApiKeyRepository, EncryptedApiKey};
use library_api::api_keys::api_keys_infrastructure::cli::{Action, Cli};
use library_api::api_keys::api_keys_infrastructure::middlewares::{decide, read_header};
use library_api::api_keys::api_keys_infrastructure::{
    ApiKeyMemoryRepository, ApiKeyValidationStrategy, AuthError, AuthFailure, AuthHeader,
    AuthMiddleware,
};
use library_api::api_keys::ApiKeyError;

const SECRET: &str = "correctbatteryhorsestapler";
const DIGEST: &str = "$2b$04$EGdrhbKUv8Oc9vGiXX0HQOxSg445d458Muh7DAHskb6QbtCvdxcie";

fn guard_over(repo: ApiKeyMemoryRepository) -> AuthMiddleware<ApiKeyMemoryRepository> {
    AuthMiddleware {
        api_key_strategy: ApiKeyValidationStrategy {
            validator: ApiKeyValidationService { repo },
        },
    }
}

fn store_with(id: &str) -> ApiKeyMemoryRepository {
    let mut repo = ApiKeyMemoryRepository::new();
    let digest = EncryptedApiKey::from_encrypt(DIGEST).expect("digest");
    repo.save(id, &digest).expect("save");
    repo
}

fn header_text(header: Option<&str>) -> Option<String> {
    match AuthHeader::from_header_value(header) {
        AuthHeader::ApiKey(raw) => Some(raw.to_string()),
        AuthHeader::Missing => None,
    }
}

fn assert_rejection(error: &AuthError, reason: AuthFailure, code: u16, message: &str) {
    assert_eq!(error.reason, reason);
    assert_eq!(error.code, code);
    assert_eq!(error.message, message);
}

#[test]
fn header_without_scheme_holds_nothing() {
    assert_eq!(header_text(None), None);
    assert_eq!(header_text(Some("")), None);
    assert_eq!(header_text(Some("ApiKey")), None);
    assert_eq!(header_text(Some("apikey abc")), None);
    assert_eq!(header_text(Some(" ApiKey abc")), None);
    assert_eq!(header_text(Some("Bearer abc")), None);
    assert_eq!(header_text(Some("ApiKey\tabc")), None);
}

#[test]
fn header_with_scheme_holds_the_trimmed_rest() {
    assert_eq!(header_text(Some("ApiKey abc")), Some("abc".to_string()));
    assert_eq!(header_text(Some("ApiKey ")), Some("".to_string()));
    assert_eq!(
        header_text(Some("ApiKey   abc \t\n")),
        Some("abc".to_string())
    );
    assert_eq!(
        header_text(Some("ApiKey a b  c")),
        Some("a b  c".to_string())
    );
    assert_eq!(
        header_text(Some("ApiKey \u{a0}\u{2003}ñ\u{3000}")),
        Some("ñ".to_string())
    );
}

#[test]
fn the_scheme_is_taken_away_once() {
    assert_eq!(
        header_text(Some("ApiKey ApiKey ApiKey abc")),
        Some("ApiKey ApiKey abc".to_string())
    );
    assert_eq!(
        header_text(Some("ApiKey ApiKey")),
        Some("ApiKey".to_string())
    );
    assert_eq!(
        header_text(Some("ApiKey  ApiKey abc")),
        Some("ApiKey abc".to_string())
    );
    assert_eq!(
        header_text(Some(
            "ApiKey ApiKey LibraryApi_abc123_0123456789abcdefghijklmno"
        )),
        Some("ApiKey LibraryApi_abc123_0123456789abcdefghijklmno".to_string())
    );
}

#[test]
fn a_repeated_scheme_is_an_invalid_format() {
    let guard = guard_over(store_with("abc"));
    let header = format!("ApiKey ApiKey LibraryApi_abc_{SECRET}");
    let error = guard.auth_from_header(Some(&header)).expect_err("rejected");
    assert_eq!(error.reason, AuthFailure::InvalidCredentialFormat);
    assert_eq!(error.code, 422);
    assert_eq!(
        read_header(Some(&header)).expect_err("no key").reason,
        AuthFailure::InvalidCredentialFormat
    );
}

#[test]
fn rejections_have_their_code_and_message() {
    let required = AuthError::new(AuthFailure::AuthenticationRequired);
    assert_rejection(
        &required,
        AuthFailure::AuthenticationRequired,
        401,
        "Se requiere autenticación. Usar formato 'ApiKey YOURKEY'",
    );
    let malformed = AuthError::new(AuthFailure::InvalidCredentialFormat);
    assert_rejection(
        &malformed,
        AuthFailure::InvalidCredentialFormat,
        422,
        "ApiKey inválida: ApiKey mal formada",
    );
    let denied = AuthError::new(AuthFailure::Denied);
    assert_rejection(
        &denied,
        AuthFailure::Denied,
        401,
        "Error al validar ApiKey: autenticación fallida",
    );
    assert_eq!(AuthFailure::Denied.code(), 401);
    assert_eq!(AuthFailure::InvalidCredentialFormat.code(), 422);
    assert_eq!(AuthFailure::AuthenticationRequired.code(), 401);
}

#[test]
fn without_header_authentication_is_required() {
    let guard = guard_over(store_with("abc"));
    for header in [None, Some("Bearer LibraryApi_abc_x"), Some("")] {
        let error = guard.auth_from_header(header).expect_err("rejected");
        assert_eq!(error.reason, AuthFailure::AuthenticationRequired);
        assert_eq!(error.code, 401);
    }
}

#[test]
fn garbage_is_an_invalid_format() {
    let guard = guard_over(store_with("abc"));
    for header in ["ApiKey garbage", "ApiKey ", "ApiKey LibraryApi_abc_"] {
        let error = guard.auth_from_header(Some(header)).expect_err("rejected");
        assert_eq!(error.reason, AuthFailure::InvalidCredentialFormat);
        assert_eq!(error.code, 422);
    }
    let error = guard
        .api_key_strategy
        .validate("garbage")
        .expect_err("rejected");
    assert_eq!(error.reason, AuthFailure::InvalidCredentialFormat);
}

#[test]
fn a_stored_key_is_let_through() {
    let guard = guard_over(store_with("abc"));
    let header = format!("ApiKey LibraryApi_abc_{SECRET}");
    assert!(guard.auth_from_header(Some(&header)).is_ok());
    assert!(guard.auth_from_header(Some(&header)).is_ok());
    let padded = format!("ApiKey   LibraryApi_abc_{SECRET}  ");
    assert!(guard.auth_from_header(Some(&padded)).is_ok());
}

#[test]
fn unknown_id_and_wrong_secret_are_denied_alike() {
    let guard = guard_over(store_with("abc"));
    let unknown = guard
        .auth_from_header(Some(&format!("ApiKey LibraryApi_abd_{SECRET}")))
        .expect_err("unknown id");
    let wrong = guard
        .auth_from_header(Some("ApiKey LibraryApi_abc_wrongsecret"))
        .expect_err("wrong secret");
    assert_eq!(unknown.reason, AuthFailure::Denied);
    assert_eq!(wrong.reason, AuthFailure::Denied);
    assert_eq!(unknown.code, wrong.code);
    assert_eq!(unknown.message, wrong.message);
}

#[test]
fn every_failure_of_the_validation_is_the_same_denial() {
    let failures = [
        ApiKeyError::NotFound,
        ApiKeyError::Invalid,
        ApiKeyError::BadEncryption("x".to_string()),
        ApiKeyError::HashVerification("y".to_string()),
        ApiKeyError::DatabaseError("z".to_string()),
    ];
    for failure in failures {
        let error = decide(Err(failure)).expect_err("denied");
        assert_rejection(
            &error,
            AuthFailure::Denied,
            401,
            "Error al validar ApiKey: autenticación fallida",
        );
    }
    assert!(decide(Ok(())).is_ok());
}

#[test]
fn reading_a_header_gives_the_key_or_the_rejection() {
    let read = read_header(Some("ApiKey LibraryApi_abc_def")).expect("a key");
    assert_eq!(read.id(), "abc");
    assert_eq!(read.token(), "def");
    assert_eq!(
        read_header(Some("ApiKey nothing")).expect_err("no key").reason,
        AuthFailure::InvalidCredentialFormat
    );
    assert_eq!(
        read_header(Some("Basic abc")).expect_err("no scheme").reason,
        AuthFailure::AuthenticationRequired
    );
    assert_eq!(
        read_header(None).expect_err("no header").reason,
        AuthFailure::AuthenticationRequired
    );
}

#[test]
fn a_deleted_key_is_denied() {
    let mut deletion = ApiKeyDeletionService {
        repo: store_with("abc"),
    };
    deletion.delete("abc").expect("delete");
    let guard = guard_over(deletion.repo);
    let error = guard
        .auth_from_header(Some(&format!("ApiKey LibraryApi_abc_{SECRET}")))
        .expect_err("denied");
    assert_eq!(error.reason, AuthFailure::Denied);
}

#[test]
fn the_tool_creates_and_deletes() {
    let mut creation = ApiKeyCreationService {
        repo: ApiKeyMemoryRepository::new(),
    };
    let mut deletion = ApiKeyDeletionService {
        repo: ApiKeyMemoryRepository::new(),
    };
    let line = Cli {
        action: Action::Gen,
    }
    .run(&mut creation, &mut deletion)
    .expect("gen");
    assert!(line.starts_with("LibraryApi_"));

    let guard = guard_over(creation.repo);
    assert!(guard
        .auth_from_header(Some(&format!("ApiKey {line}")))
        .is_ok());

    let mut creation = ApiKeyCreationService {
        repo: ApiKeyMemoryRepository::new(),
    };
    let mut deletion = ApiKeyDeletionService {
        repo: store_with("abc"),
    };
    let line = Cli {
        action: Action::Delete {
            id: "abc".to_string(),
        },
    }
    .run(&mut creation, &mut deletion)
    .expect("delete");
    assert_eq!(line, "Deleted API key with ID: abc");
    assert!(deletion
        .repo
        .find_encrypted("abc")
        .expect("find")
        .is_none());
}

#[test]
fn the_reports_of_the_tool() {
    let created = library_api::api_keys::api_keys_domain::ApiKey {
        id: "abc".to_string(),
        token: "def".to_string(),
    };
    assert_eq!(Action::report_created(&created), "LibraryApi_abc_def");
    assert_eq!(Action::report_deleted("abc"), "Deleted API key with ID: abc");
}

#[test]
fn an_id_that_is_taken_stays_as_it_was() {
    let mut repo = store_with("abc");
    let other =
        EncryptedApiKey::from_encrypt("$2a$04$UuTkLRZZ6QofpDOlMz32MuuxEHA43WOemOYHPz6.SjsVsyO1tDU96")
            .expect("digest");
    assert!(matches!(
        repo.save("abc", &other),
        Err(ApiKeyError::DuplicateId)
    ));
    assert_eq!(
        repo.find_encrypted("abc").expect("find").as_deref(),
        Some(DIGEST)
    );
    let guard = guard_over(repo);
    assert!(guard
        .auth_from_header(Some(&format!("ApiKey LibraryApi_abc_{SECRET}")))
        .is_ok());
    assert_eq!(
        guard
            .auth_from_header(Some("ApiKey LibraryApi_abc_password"))
            .expect_err("denied")
            .reason,
        AuthFailure::Denied
    );
}

#[test]
fn white_space_is_what_the_standard_library_says() {
    for code in 0..=0x10FFFFu32 {
        let Some(c) = char::from_u32(code) else {
            continue;
        };
        let header = format!("ApiKey {c}x{c}");
        let expected = if c.is_whitespace() {
            "x".to_string()
        } else {
            format!("{c}x{c}")
        };
        assert_eq!(header_text(Some(&header)), Some(expected), "U+{code:04X}");
    }
}

#[test]
fn what_is_stored_starts_with_a_dollar_sign_and_is_not_the_token() {
    let mut creation = ApiKeyCreationService {
        repo: ApiKeyMemoryRepository::new(),
    };
    let created = creation.create().expect("create");
    let stored = creation
        .repo
        .find_encrypted(created.id())
        .expect("find")
        .expect("stored");
    assert!(stored.starts_with('$'));
    assert_ne!(&stored, created.token());
    assert!(!stored.contains(created.token().as_str()));
    assert!(EncryptedApiKey::from_encrypt(DIGEST)
        .expect("digest")
        .as_str()
        .starts_with('$'));
}
