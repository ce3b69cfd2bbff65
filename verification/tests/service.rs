use library_api::api_keys::ApiKeyError;
use library_api::books::BookError;
use library_api::config::{parse_port, Config, PortFailure};
use library_api::init::{db_conn_str, log_level, LogLevel};
use library_api::{AppError, AppErrorKind};

fn given(text: &str) -> Result<String, String> {
    Ok(text.to_string())
}

fn missing() -> Result<String, String> {
    Err("NotPresent".to_string())
}

#[test]
fn status_of_each_kind() {
    assert_eq!(AppErrorKind::Auhtentication.status_code(), 401);
    assert_eq!(AppErrorKind::NotFound.status_code(), 404);
    assert_eq!(AppErrorKind::Duplicate.status_code(), 409);
    assert_eq!(AppErrorKind::InvalidData.status_code(), 400);
    assert_eq!(AppErrorKind::Infrastructure.status_code(), 503);
    assert_eq!(AppErrorKind::Application.status_code(), 503);
    assert_eq!(AppErrorKind::Unknown.status_code(), 503);
}

#[test]
fn app_errors_keep_the_kind_of_their_cause() {
    let cases = [
        (
            AppError::Custom("id inválido".to_string()),
            AppErrorKind::Unknown,
            503,
            "Error: id inválido",
        ),
        (
            AppError::from(ApiKeyError::NotFound),
            AppErrorKind::NotFound,
            404,
            "Error con ApiKey: ApiKey no encontrado",
        ),
        (
            AppError::from(ApiKeyError::DuplicateId),
            AppErrorKind::Duplicate,
            409,
            "Error con ApiKey: Ya existe una ApiKey con ese id",
        ),
        (
            AppError::from(BookError::InvalidIsbn),
            AppErrorKind::InvalidData,
            400,
            "Error al manejar libro: ISBN inválido",
        ),
        (
            AppError::from(BookError::DatabaseError("x".to_string())),
            AppErrorKind::Infrastructure,
            503,
            "Error al manejar libro: Error de base de datos",
        ),
        (
            AppError::ConfigLoad("x".to_string()),
            AppErrorKind::Infrastructure,
            503,
            "Error al cargar configuración: x",
        ),
        (
            AppError::EnvVarLoad("NotPresent".to_string()),
            AppErrorKind::Infrastructure,
            503,
            "Error al cargar variable de entorno: NotPresent",
        ),
    ];
    for (error, kind, code, message) in cases {
        assert_eq!(error.kind(), kind);
        assert_eq!(error.status_code(), code);
        assert_eq!(error.to_string(), message);
    }
}

#[test]
fn configuration_of_three_variables() {
    let config =
        Config::from_variables(given("sqlite://db.sqlite"), given("8080"), given("debug"))
            .expect("config");
    assert_eq!(config.database_url, "sqlite://db.sqlite");
    assert_eq!(config.api_port, 8080);
    assert_eq!(config.log_level, "debug");
}

#[test]
fn ports_that_are_read() {
    let port = |text: &str| {
        Config::from_variables(given("x"), given(text), given("info")).map(|c| c.api_port)
    };
    assert_eq!(port("0").expect("port"), 0);
    assert_eq!(port("+443").expect("port"), 443);
    assert_eq!(port("00080").expect("port"), 80);
    assert_eq!(port("65535").expect("port"), 65535);
    for text in ["", "+", "-1", "65536", "80 ", " 80", "8o", "0x50", "８０", "1e3", "++1"] {
        assert!(
            matches!(port(text), Err(AppError::EnvVarLoad(_))),
            "{text:?}"
        );
    }
}

#[test]
fn the_first_missing_variable_is_reported() {
    let why = |res: Result<Config, AppError>| match res {
        Err(AppError::EnvVarLoad(why)) => why,
        other => panic!("{other:?}"),
    };
    assert_eq!(
        why(Config::from_variables(
            Err("first".to_string()),
            Err("second".to_string()),
            Err("third".to_string())
        )),
        "first"
    );
    assert_eq!(
        why(Config::from_variables(
            given("x"),
            Err("second".to_string()),
            Err("third".to_string())
        )),
        "second"
    );
    assert_eq!(
        why(Config::from_variables(
            given("x"),
            given("80"),
            Err("third".to_string())
        )),
        "third"
    );
    assert_ne!(
        why(Config::from_variables(given("x"), given("port"), missing())),
        "NotPresent"
    );
}

#[test]
fn levels_by_name() {
    assert_eq!(log_level("trace"), LogLevel::Trace);
    assert_eq!(log_level("DEBUG"), LogLevel::Debug);
    assert_eq!(log_level("Info"), LogLevel::Info);
    assert_eq!(log_level("wArN"), LogLevel::Warn);
    assert_eq!(log_level("ERROR"), LogLevel::Error);
    assert_eq!(log_level(""), LogLevel::Info);
    assert_eq!(log_level("verbose"), LogLevel::Info);
    assert_eq!(log_level(" debug"), LogLevel::Info);
}

#[test]
fn where_the_database_is() {
    let config = Config {
        database_url: "sqlite://library.db".to_string(),
        api_port: 3000,
        log_level: "info".to_string(),
    };
    assert_eq!(db_conn_str(&config, true), "sqlite::memory:");
    assert_eq!(db_conn_str(&config, false), "sqlite://library.db");
}

#[test]
fn a_port_is_read_as_the_standard_library_reads_it() {
    let mut texts: Vec<String> = Vec::new();
    for n in 0..=70_000u32 {
        texts.push(n.to_string());
    }
    for n in [0u32, 7, 80, 65535, 65536, 99999] {
        texts.push(format!("+{n}"));
        texts.push(format!("-{n}"));
        texts.push(format!("000000{n}"));
        texts.push(format!("{n}x"));
        texts.push(format!("x{n}"));
        texts.push(format!(" {n}"));
        texts.push(format!("{n} "));
        texts.push(format!("{n}٣"));
    }
    for text in [
        "", "+", "-", "++1", "+-1", "99999x", "9999x9", "65536x", "6553x9", "1_000", "0x50",
        "８０", "4294967296", "18446744073709551616", "1e3", "\u{0}",
    ] {
        texts.push(text.to_string());
    }
    for text in texts {
        let ours = parse_port(&text).map_err(|e| e.to_string());
        let theirs = text.parse::<u16>().map_err(|e| format!("{e:?}"));
        assert_eq!(ours, theirs, "{text:?}");
    }
}

#[test]
fn why_a_text_spells_no_port() {
    assert_eq!(parse_port(""), Err(PortFailure::Empty));
    assert_eq!(parse_port("+"), Err(PortFailure::InvalidDigit));
    assert_eq!(parse_port("8o"), Err(PortFailure::InvalidDigit));
    assert_eq!(parse_port("65536"), Err(PortFailure::PosOverflow));
    assert_eq!(parse_port("99999x"), Err(PortFailure::PosOverflow));
    assert_eq!(parse_port("+65535"), Ok(65535));
    assert_eq!(
        PortFailure::PosOverflow.to_string(),
        "ParseIntError { kind: PosOverflow }"
    );
    match Config::from_variables(given("x"), given("70000"), given("info")) {
        Err(AppError::EnvVarLoad(why)) => assert_eq!(why, "ParseIntError { kind: PosOverflow }"),
        other => panic!("{other:?}"),
    }
    match Config::from_variables(given("x"), given(""), missing()) {
        Err(AppError::EnvVarLoad(why)) => assert_eq!(why, "ParseIntError { kind: Empty }"),
        other => panic!("{other:?}"),
    }
}
