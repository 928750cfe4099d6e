use app_errors::catalog::{get_error_message, Catalog, CatalogKind, Catalogs};
use app_errors::decimal::code_to_string;

fn pair(key: &str, message: &str) -> (String, String) {
    (key.to_string(), message.to_string())
}

#[test]
fn decimal_of_small_and_large_codes() {
    assert_eq!(code_to_string(0), "0");
    assert_eq!(code_to_string(9), "9");
    assert_eq!(code_to_string(10), "10");
    assert_eq!(code_to_string(1002), "1002");
    assert_eq!(code_to_string(65535), "65535");
}

#[test]
fn decimal_agrees_with_std_on_every_code() {
    let mut code: u16 = 0;
    loop {
        assert_eq!(code_to_string(code), format!("{}", code));
        if code == u16::MAX {
            break;
        }
        code += 1;
    }
}

#[test]
fn kind_follows_the_global_range() {
    assert_eq!(CatalogKind::of(0), CatalogKind::Service);
    assert_eq!(CatalogKind::of(999), CatalogKind::Service);
    assert_eq!(CatalogKind::of(1000), CatalogKind::Global);
    assert_eq!(CatalogKind::of(1500), CatalogKind::Global);
    assert_eq!(CatalogKind::of(1999), CatalogKind::Global);
    assert_eq!(CatalogKind::of(2000), CatalogKind::Service);
    assert_eq!(CatalogKind::of(u16::MAX), CatalogKind::Service);
}

#[test]
fn file_path_prefers_the_configured_path() {
    assert_eq!(CatalogKind::Global.path_variable(), "GLOBAL_ERROR_FILE_PATH");
    assert_eq!(CatalogKind::Service.path_variable(), "SERVICE_ERROR_FILE_PATH");
    assert_eq!(CatalogKind::Global.default_path(), "error.json");
    assert_eq!(
        CatalogKind::Service.default_path(),
        "apps/rust_forge_boilerplate/error.json"
    );
    assert_eq!(CatalogKind::Global.file_path(None), "error.json");
    assert_eq!(
        CatalogKind::Service.file_path(None),
        "apps/rust_forge_boilerplate/error.json"
    );
    assert_eq!(
        CatalogKind::Global.file_path(Some("/etc/errors.json".to_string())),
        "/etc/errors.json"
    );
    assert_eq!(
        CatalogKind::Service.file_path(Some("svc.json".to_string())),
        "svc.json"
    );
}

#[test]
fn empty_catalog_has_no_message() {
    let catalog = Catalog::new();
    assert_eq!(catalog.get(1002), None);
    assert_eq!(catalog.get(0), None);
}

#[test]
fn from_pairs_keeps_every_entry() {
    let catalog = Catalog::from_pairs(vec![
        pair("1002", "Resource missing"),
        pair("7", "Seven"),
        pair("65535", "Last"),
    ]);
    assert_eq!(catalog.get(1002), Some("Resource missing".to_string()));
    assert_eq!(catalog.get(7), Some("Seven".to_string()));
    assert_eq!(catalog.get(65535), Some("Last".to_string()));
    assert_eq!(catalog.get(1003), None);
}

#[test]
fn from_pairs_later_pair_counts() {
    let catalog = Catalog::from_pairs(vec![
        pair("5", "first"),
        pair("6", "other"),
        pair("5", "second"),
    ]);
    assert_eq!(catalog.get(5), Some("second".to_string()));
    assert_eq!(catalog.get(6), Some("other".to_string()));
}

#[test]
fn keys_that_are_no_numeral_of_a_code_are_never_found() {
    let catalog = Catalog::from_pairs(vec![
        pair("01002", "padded"),
        pair("+7", "signed"),
        pair(" 8", "spaced"),
        pair("", "empty"),
    ]);
    assert_eq!(catalog.get(1002), None);
    assert_eq!(catalog.get(7), None);
    assert_eq!(catalog.get(8), None);
    assert_eq!(catalog.get(0), None);
}

#[test]
fn from_decoded_none_is_empty() {
    let catalog = Catalog::from_decoded(None);
    assert_eq!(catalog.get(1), None);
    let catalog = Catalog::from_decoded(Some(vec![pair("1", "one")]));
    assert_eq!(catalog.get(1), Some("one".to_string()));
}

#[test]
fn parse_reads_a_json_object_of_strings() {
    let catalog = Catalog::parse("{\"1002\": \"Resource missing\", \"2001\": \"Card declined\"}");
    assert_eq!(catalog.get(1002), Some("Resource missing".to_string()));
    assert_eq!(catalog.get(2001), Some("Card declined".to_string()));
    assert_eq!(catalog.get(1000), None);
}

#[test]
fn parse_decodes_escapes() {
    let catalog = Catalog::parse("{\"1\": \"a\\nb \\u00e9\"}");
    assert_eq!(catalog.get(1), Some("a\nb \u{e9}".to_string()));
}

#[test]
fn parse_repeated_key_later_entry_counts() {
    let catalog = Catalog::parse("{\"1\": \"a\", \"1\": \"b\"}");
    assert_eq!(catalog.get(1), Some("b".to_string()));
}

#[test]
fn parse_empty_object_is_empty() {
    let catalog = Catalog::parse("{}");
    assert_eq!(catalog.get(1000), None);
}

#[test]
fn parse_failure_gives_the_empty_catalog() {
    for text in [
        "",
        "not json",
        "{\"1002\": \"Resource missing\"",
        "{\"1002\": 5}",
        "{\"1002\": null}",
        "[\"1002\", \"x\"]",
        "\"1002\"",
        "{\"1002\": \"ok\"} trailing",
        "{\"1002\": \"ok\", \"1003\": {\"nested\": \"x\"}}",
    ] {
        let catalog = Catalog::parse(text);
        assert_eq!(catalog.get(1002), None, "text: {}", text);
    }
}

#[test]
fn global_code_reads_the_global_catalog_only() {
    let global = Catalog::from_pairs(vec![pair("1500", "from global")]);
    let service = Catalog::from_pairs(vec![pair("1500", "from service"), pair("1501", "stray")]);
    let catalogs = Catalogs::new(&global, &service);
    assert_eq!(get_error_message(&catalogs, 1500, "fallback"), "from global");
    assert_eq!(get_error_message(&catalogs, 1501, "fallback"), "fallback");

    let empty = Catalog::new();
    let without_service = Catalogs::new(&global, &empty);
    assert_eq!(get_error_message(&without_service, 1500, "fallback"), "from global");
    assert_eq!(get_error_message(&without_service, 1501, "fallback"), "fallback");
}

#[test]
fn service_code_reads_the_service_catalog_only() {
    let global = Catalog::from_pairs(vec![pair("2500", "from global"), pair("42", "stray")]);
    let service = Catalog::from_pairs(vec![pair("2500", "from service")]);
    let catalogs = Catalogs::new(&global, &service);
    assert_eq!(get_error_message(&catalogs, 2500, "fallback"), "from service");
    assert_eq!(get_error_message(&catalogs, 42, "fallback"), "fallback");

    let empty = Catalog::new();
    let without_global = Catalogs::new(&empty, &service);
    assert_eq!(get_error_message(&without_global, 2500, "fallback"), "from service");
    assert_eq!(get_error_message(&without_global, 42, "fallback"), "fallback");
}

#[test]
fn range_edges_select_the_right_catalog() {
    let global = Catalog::from_pairs(vec![
        pair("999", "g"),
        pair("1000", "g"),
        pair("1999", "g"),
        pair("2000", "g"),
    ]);
    let service = Catalog::from_pairs(vec![
        pair("999", "s"),
        pair("1000", "s"),
        pair("1999", "s"),
        pair("2000", "s"),
    ]);
    let catalogs = Catalogs::new(&global, &service);
    assert_eq!(get_error_message(&catalogs, 999, "f"), "s");
    assert_eq!(get_error_message(&catalogs, 1000, "f"), "g");
    assert_eq!(get_error_message(&catalogs, 1999, "f"), "g");
    assert_eq!(get_error_message(&catalogs, 2000, "f"), "s");
}

#[test]
fn missing_entry_gives_the_fallback_verbatim() {
    let empty = Catalog::new();
    let catalogs = Catalogs::new(&empty, &empty);
    assert_eq!(get_error_message(&catalogs, 1002, ""), "");
    assert_eq!(get_error_message(&catalogs, 1002, "  spaced \u{e9} "), "  spaced \u{e9} ");
    assert_eq!(get_error_message(&catalogs, 3000, "x"), "x");
}

#[test]
fn select_hands_out_the_catalog_of_the_kind() {
    let global = Catalog::from_pairs(vec![pair("1", "g")]);
    let service = Catalog::from_pairs(vec![pair("1", "s")]);
    let catalogs = Catalogs::new(&global, &service);
    assert_eq!(catalogs.select(CatalogKind::Global).get(1), Some("g".to_string()));
    assert_eq!(catalogs.select(CatalogKind::Service).get(1), Some("s".to_string()));
}
