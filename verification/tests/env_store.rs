use figment2_cloudflare_env::env::Env;

#[test]
fn var_lookup_finds_plain_variable() {
    let mut env = Env::new();
    env.add_var("API_BASE_URL".to_string(), "https://x".to_string());
    assert_eq!(env.var("API_BASE_URL"), Some("https://x".to_string()));
}

#[test]
fn secret_lookup_finds_secret() {
    let mut env = Env::new();
    env.add_secret("API_KEY".to_string(), "shh".to_string());
    assert_eq!(env.secret("API_KEY"), Some("shh".to_string()));
}

#[test]
fn absent_binding_is_none_in_both_tiers() {
    let env = Env::new();
    assert_eq!(env.var("MISSING"), None);
    assert_eq!(env.secret("MISSING"), None);
}

#[test]
fn tiers_are_independent() {
    let mut env = Env::new();
    env.add_var("ONLY_VAR".to_string(), "v".to_string());
    env.add_secret("ONLY_SECRET".to_string(), "s".to_string());
    assert_eq!(env.secret("ONLY_VAR"), None);
    assert_eq!(env.var("ONLY_SECRET"), None);
}

#[test]
fn later_value_shadows_earlier() {
    let mut env = Env::new();
    env.add_var("NAME".to_string(), "first".to_string());
    env.add_var("NAME".to_string(), "second".to_string());
    assert_eq!(env.var("NAME"), Some("second".to_string()));
}
