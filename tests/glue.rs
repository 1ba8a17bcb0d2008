use referral_system::config::parse_port;
use referral_system::error::{
    settle_failure, E_BAD_AMOUNT, E_DB_FAILURE, E_PROCESS_FAILURE, E_PURCHASE_CONFLICT, E_PURCHASE_NOT_FOUND,
};
use referral_system::intake::{check_amount, insert_failure};
use referral_system::status::{is_captured, str_eq, PAYMENT_STATUS_CAPTURED};
use referral_system::{
    ApiError, ApiOk, BalanceResponse, Config, ConfigError, Pagination, RequestMeta, SettleError, SuccessEnvelope,
};

fn meta() -> RequestMeta {
    RequestMeta {
        request_id: "req-1".to_string(),
        request_at: "2024-01-01T00:00:00+00:00".to_string(),
        timestamp: 1704067200,
    }
}

#[test]
fn captured_status_is_exact() {
    assert!(is_captured("captured"));
    assert!(is_captured(PAYMENT_STATUS_CAPTURED));
    assert!(!is_captured("Captured"));
    assert!(!is_captured("captured "));
    assert!(!is_captured("authorized"));
    assert!(!is_captured(""));
    assert!(str_eq("abc", "abc"));
    assert!(!str_eq("abc", "abd"));
}

#[test]
fn error_with_meta_and_code() {
    let e = ApiError::BadRequest("bad".to_string()).with_meta(meta());
    let (err, m, code) = e.into_parts();
    assert!(matches!(err, ApiError::BadRequest(ref s) if s == "bad"));
    assert_eq!(m, meta());
    assert_eq!(code, None);

    let e = ApiError::Conflict("dup".to_string()).with_meta(meta()).with_code("X").with_code("Y");
    let (err, _, code) = e.into_parts();
    assert_eq!(err.status(), 409);
    assert_eq!(code, Some("Y".to_string()));
}

#[test]
fn error_status_and_message() {
    assert_eq!(ApiError::BadRequest("m".to_string()).status(), 400);
    assert_eq!(ApiError::BadRequest("m".to_string()).public_message(), "m");
    assert_eq!(ApiError::Conflict("c".to_string()).public_message(), "c");
    let internal = ApiError::Internal(anyhow::Error::msg("secret detail"));
    assert_eq!(internal.status(), 500);
    assert_eq!(internal.public_message(), "internal server error");
}

#[test]
fn negative_amount_is_rejected() {
    assert!(check_amount(0, meta()).is_ok());
    assert!(check_amount(1000, meta()).is_ok());
    let (err, m, code) = check_amount(-1, meta()).unwrap_err().into_parts();
    assert!(matches!(err, ApiError::BadRequest(ref s) if s == "amount must be >= 0"));
    assert_eq!(m, meta());
    assert_eq!(code.as_deref(), Some(E_BAD_AMOUNT));
}

#[test]
fn duplicate_insert_is_conflict() {
    let (err, _, code) = insert_failure(Some("23505"), anyhow::Error::msg("dup"), meta()).into_parts();
    assert!(matches!(err, ApiError::Conflict(ref s) if s == "purchase already exists"));
    assert_eq!(code.as_deref(), Some(E_PURCHASE_CONFLICT));

    let (err, _, code) = insert_failure(Some("23503"), anyhow::Error::msg("fk"), meta()).into_parts();
    assert!(matches!(err, ApiError::Internal(_)));
    assert_eq!(code.as_deref(), Some(E_DB_FAILURE));

    let (err, _, code) = insert_failure(None, anyhow::Error::msg("io"), meta()).into_parts();
    assert!(matches!(err, ApiError::Internal(_)));
    assert_eq!(code.as_deref(), Some(E_DB_FAILURE));
}

#[test]
fn success_responses() {
    let r = ApiOk::ok("balance fetched".to_string(), BalanceResponse { user_id: 4, balance: 7 }, meta());
    assert_eq!(r.status, 200);
    assert_eq!(r.body.message, "balance fetched");
    assert_eq!(r.body.data, BalanceResponse { user_id: 4, balance: 7 });
    assert_eq!(r.body.pagination, None);
    let c = ApiOk::created("purchase created".to_string(), 5u8, meta());
    assert_eq!(c.status, 201);
    assert_eq!(c.body.data, 5);
    let env = SuccessEnvelope {
        message: "m".to_string(),
        data: (),
        pagination: Some(Pagination { page: 1, per_page: 10, total: 25, total_pages: 3 }),
        meta: meta(),
    };
    assert_eq!(env.pagination.unwrap().total_pages, 3);
}

#[test]
fn balance_defaults_to_zero() {
    assert_eq!(BalanceResponse::from_row(3, None), BalanceResponse { user_id: 3, balance: 0 });
    assert_eq!(BalanceResponse::from_row(3, Some(150)), BalanceResponse { user_id: 3, balance: 150 });
}

#[test]
fn ports_parse_in_decimal() {
    assert_eq!(parse_port("8080"), Some(8080));
    assert_eq!(parse_port("0"), Some(0));
    assert_eq!(parse_port("65535"), Some(65535));
    assert_eq!(parse_port("65536"), None);
    assert_eq!(parse_port("999999"), None);
    assert_eq!(parse_port(""), None);
    assert_eq!(parse_port("80a"), None);
    assert_eq!(parse_port("-1"), None);
    assert_eq!(parse_port("+80"), Some(80));
    assert_eq!(parse_port("+0"), Some(0));
    assert_eq!(parse_port("+65535"), Some(65535));
    assert_eq!(parse_port("+65536"), None);
    assert_eq!(parse_port("+"), None);
    assert_eq!(parse_port("++80"), None);
    assert_eq!(parse_port("8+0"), None);
}

#[test]
fn config_from_values() {
    let c = Config::from_env(Some("3000".to_string()), Some("postgres://db".to_string()));
    assert_eq!(c, Ok(Config { server_port: 3000, database_url: "postgres://db".to_string() }));
    assert_eq!(Config::from_env(None, Some("x".to_string())), Err(ConfigError::MissingServerPort));
    assert_eq!(Config::from_env(Some("70000".to_string()), None), Err(ConfigError::InvalidServerPort));
    assert_eq!(Config::from_env(Some("80".to_string()), None), Err(ConfigError::MissingDatabaseUrl));
    assert_eq!(
        Config::from_env(Some("+80".to_string()), Some("d".to_string())),
        Ok(Config { server_port: 80, database_url: "d".to_string() })
    );
    assert_eq!(Config::from_env(Some("+".to_string()), Some("d".to_string())), Err(ConfigError::InvalidServerPort));
}

#[test]
fn missing_purchase_is_reported_apart() {
    let (err, m, code) = settle_failure(SettleError::NotFound, anyhow::Error::msg("gone"), meta()).into_parts();
    assert!(matches!(err, ApiError::NotFound(ref s) if s == "purchase not found"));
    assert_eq!(err.status(), 404);
    assert_eq!(err.public_message(), "purchase not found");
    assert_eq!(m, meta());
    assert_eq!(code.as_deref(), Some(E_PURCHASE_NOT_FOUND));

    let (err, _, code) = settle_failure(SettleError::StoreFailure, anyhow::Error::msg("db"), meta()).into_parts();
    assert!(matches!(err, ApiError::Internal(_)));
    assert_eq!(err.status(), 500);
    assert_eq!(code.as_deref(), Some(E_PROCESS_FAILURE));
}
