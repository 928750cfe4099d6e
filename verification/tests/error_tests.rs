use app_errors::catalog::{Catalog, CatalogKind, Catalogs};
use app_errors::error::{default_message_for, AppError};

fn pair(key: &str, message: &str) -> (String, String) {
    (key.to_string(), message.to_string())
}

#[test]
fn default_message_names_the_code() {
    assert_eq!(default_message_for(0), "Error code: 0");
    assert_eq!(default_message_for(42), "Error code: 42");
    assert_eq!(default_message_for(1002), "Error code: 1002");
    assert_eq!(default_message_for(65535), format!("Error code: {}", 65535u16));
}

#[test]
fn explicit_message_is_kept_whatever_the_catalogs_hold() {
    let global = Catalog::from_pairs(vec![pair("1002", "Resource missing")]);
    let service = Catalog::from_pairs(vec![pair("3000", "Service says no")]);
    let catalogs = Catalogs::new(&global, &service);

    let error = AppError::new(&catalogs, 1002, Some("my own words".to_string()), None);
    assert_eq!(error.get_message(), "my own words");
    assert_eq!(error.get_error_code(), 1002);

    let error = AppError::new(&catalogs, 3000, Some("".to_string()), Some(418));
    assert_eq!(error.get_message(), "");
    assert_eq!(error.get_http_code(), 418);

    let error = AppError::not_found(&catalogs, Some("gone".to_string()));
    assert_eq!(error.get_message(), "gone");
}

#[test]
fn missing_entry_gives_the_default_message() {
    let empty = Catalog::new();
    let catalogs = Catalogs::new(&empty, &empty);
    let error = AppError::new(&catalogs, 1234, None, None);
    assert_eq!(error.get_message(), "Error code: 1234");
    let error = AppError::new(&catalogs, 7, None, Some(500));
    assert_eq!(error.get_message(), "Error code: 7");
    let error = AppError::with_code(&catalogs, 65535);
    assert_eq!(error.get_message(), "Error code: 65535");
}

#[test]
fn default_message_when_only_the_other_catalog_has_the_code() {
    let with_entries = Catalog::from_pairs(vec![pair("1500", "global"), pair("2500", "service")]);
    let empty = Catalog::new();

    let catalogs = Catalogs::new(&empty, &with_entries);
    let error = AppError::with_code(&catalogs, 1500);
    assert_eq!(error.get_message(), "Error code: 1500");

    let catalogs = Catalogs::new(&with_entries, &empty);
    let error = AppError::with_code(&catalogs, 2500);
    assert_eq!(error.get_message(), "Error code: 2500");
}

#[test]
fn catalog_file_gives_the_message_of_not_found() {
    let global = Catalog::parse("{\"1002\": \"Resource missing\"}");
    let service = Catalog::new();
    let catalogs = Catalogs::new(&global, &service);
    let error = AppError::not_found(&catalogs, None);
    assert_eq!(error.get_message(), "Resource missing");
    assert_eq!(error.get_error_code(), 1002);
    assert_eq!(error.get_http_code(), 404);
}

#[test]
fn unparseable_catalog_file_falls_back_to_default_messages() {
    let global = Catalog::parse("{\"1002\": \"Resource missing\"");
    let service = Catalog::parse("<html>");
    let catalogs = Catalogs::new(&global, &service);
    assert_eq!(AppError::not_found(&catalogs, None).get_message(), "Error code: 1002");
    assert_eq!(AppError::with_code(&catalogs, 3000).get_message(), "Error code: 3000");
}

#[test]
fn transport_status_defaults_to_400() {
    let empty = Catalog::new();
    let catalogs = Catalogs::new(&empty, &empty);
    assert_eq!(AppError::new(&catalogs, 1, None, None).get_http_code(), 400);
    assert_eq!(AppError::with_code(&catalogs, 1).get_http_code(), 400);
    assert_eq!(AppError::with_message(1, "m".to_string()).get_http_code(), 400);
    assert_eq!(AppError::new(&catalogs, 1, None, Some(503)).get_http_code(), 503);
    assert_eq!(AppError::with_http_code(&catalogs, 1, None, 0).get_http_code(), 0);
}

#[test]
fn with_message_keeps_code_and_message() {
    let error = AppError::with_message(2024, "Card declined".to_string());
    assert_eq!(error.get_error_code(), 2024);
    assert_eq!(error.get_message(), "Card declined");
    assert_eq!(error.get_http_code(), 400);
}

#[test]
fn named_constructors_fix_code_and_status() {
    let empty = Catalog::new();
    let catalogs = Catalogs::new(&empty, &empty);
    let cases = [
        (AppError::internal_error(&catalogs, None), 1000u16, 500u16),
        (AppError::bad_request(&catalogs, None), 1001, 400),
        (AppError::not_found(&catalogs, None), 1002, 404),
        (AppError::unauthorized(&catalogs, None), 1003, 401),
        (AppError::validation_error(&catalogs, None), 1004, 422),
        (AppError::database_error(&catalogs, None), 1005, 500),
    ];
    for (error, code, status) in cases {
        assert_eq!(error.get_error_code(), code);
        assert_eq!(error.get_http_code(), status);
        assert_eq!(error.get_message(), format!("Error code: {}", code));
    }
}

#[test]
fn named_constructors_take_a_message_override() {
    let global = Catalog::from_pairs(vec![
        pair("1000", "Internal"),
        pair("1001", "Bad"),
        pair("1003", "Who are you"),
        pair("1004", "Invalid"),
        pair("1005", "Database"),
    ]);
    let service = Catalog::new();
    let catalogs = Catalogs::new(&global, &service);
    assert_eq!(AppError::internal_error(&catalogs, None).get_message(), "Internal");
    assert_eq!(AppError::bad_request(&catalogs, None).get_message(), "Bad");
    assert_eq!(AppError::unauthorized(&catalogs, None).get_message(), "Who are you");
    assert_eq!(AppError::validation_error(&catalogs, None).get_message(), "Invalid");
    assert_eq!(AppError::database_error(&catalogs, None).get_message(), "Database");
    assert_eq!(
        AppError::internal_error(&catalogs, Some("boom".to_string())).get_message(),
        "boom"
    );
    assert_eq!(
        AppError::database_error(&catalogs, Some("down".to_string())).get_message(),
        "down"
    );
}

#[test]
fn required_catalog_is_none_for_an_explicit_message() {
    assert_eq!(AppError::required_catalog(1002, &Some("x".to_string())), None);
    assert_eq!(AppError::required_catalog(5, &Some(String::new())), None);
    assert_eq!(AppError::required_catalog(1002, &None), Some(CatalogKind::Global));
    assert_eq!(AppError::required_catalog(1000, &None), Some(CatalogKind::Global));
    assert_eq!(AppError::required_catalog(2000, &None), Some(CatalogKind::Service));
    assert_eq!(AppError::required_catalog(999, &None), Some(CatalogKind::Service));
}

#[test]
fn log_text_is_the_message_alone() {
    let error = AppError::with_message(1001, "email already exists".to_string());
    assert_eq!(error.to_string(), "email already exists");
}

#[test]
fn response_body_holds_code_and_message() {
    let empty = Catalog::new();
    let catalogs = Catalogs::new(&empty, &empty);
    let error = AppError::new(&catalogs, 1002, Some("Resource missing".to_string()), Some(404));
    let body = error.error_response();
    assert_eq!(body.code, 1002);
    assert_eq!(body.message, "Resource missing");
}

#[test]
fn reported_status_is_the_stored_one_where_it_is_known() {
    let empty = Catalog::new();
    let catalogs = Catalogs::new(&empty, &empty);
    for status in [400u16, 401, 403, 404, 422, 429, 500, 502, 503] {
        let error = AppError::new(&catalogs, 1, None, Some(status));
        assert_eq!(error.status_code(), status);
    }
}

#[test]
fn reported_status_of_any_other_is_400() {
    let empty = Catalog::new();
    let catalogs = Catalogs::new(&empty, &empty);
    for status in [0u16, 200, 302, 402, 418, 501, 504, 999, u16::MAX] {
        let error = AppError::new(&catalogs, 1, None, Some(status));
        assert_eq!(error.status_code(), 400);
        assert_eq!(error.get_http_code(), status);
    }
    assert_eq!(AppError::new(&catalogs, 1, None, None).status_code(), 400);
}

#[test]
fn clone_keeps_the_parts() {
    let error = AppError::with_message(1001, "again".to_string());
    let copy = error.clone();
    assert_eq!(copy.get_error_code(), 1001);
    assert_eq!(copy.get_message(), "again");
    assert_eq!(copy.get_http_code(), 400);
}
