use figment2_cloudflare_env::names::binding_name;

#[test]
fn uppercases_lowercase_field() {
    assert_eq!(binding_name("database_url"), "DATABASE_URL");
}

#[test]
fn pure_case_transformation_not_case_style_conversion() {
    // A camel-case field maps by pure case transformation only: no
    // delimiter is introduced.
    assert_eq!(binding_name("databaseURL"), "DATABASEURL");
}

#[test]
fn empty_field_name() {
    assert_eq!(binding_name(""), "");
}

#[test]
fn digits_and_underscores_unchanged() {
    assert_eq!(binding_name("max_retries_2"), "MAX_RETRIES_2");
}

#[test]
fn already_uppercase_unchanged() {
    assert_eq!(binding_name("URL"), "URL");
}
