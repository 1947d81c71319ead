use std::collections::BTreeMap;

use figment2::value::{Dict, Value};
use figment2::{Figment, Profile};
use figment2_cloudflare_env::env::Env;
use figment2_cloudflare_env::provider::CloudflareWorkersBindings;

/// Adapter so the provider can be merged into a `Figment`; it forwards the
/// library's `metadata` and `data` unchanged.
struct Bindings<'a>(CloudflareWorkersBindings<'a>);

impl figment2::Provider for Bindings<'_> {
    fn metadata(&self) -> figment2::Metadata {
        self.0.metadata()
    }

    fn data(&self) -> Result<figment2::value::Map<Profile, Dict>, figment2::Error> {
        self.0.data()
    }
}

fn field_list(names: &[&str]) -> Vec<String> {
    names.iter().map(|n| n.to_string()).collect()
}

#[test]
fn data_files_dictionary_under_default_profile() {
    let mut env = Env::new();
    env.add_var("API_BASE_URL".to_string(), "https://x".to_string());
    let provider = CloudflareWorkersBindings::from_struct(&env, field_list(&["api_base_url"]));
    let map = provider.data().unwrap();
    let dict = map.get(&Profile::Default).unwrap();
    assert_eq!(dict.get("api_base_url"), Some(&Value::from("https://x")));
    assert_eq!(map.len(), 1);
}

#[test]
fn plain_variable_wins_over_secret() {
    let mut env = Env::new();
    env.add_var("TOKEN".to_string(), "from-var".to_string());
    env.add_secret("TOKEN".to_string(), "from-secret".to_string());
    let provider = CloudflareWorkersBindings::from_struct(&env, field_list(&["token"]));
    let map = provider.data().unwrap();
    let dict = map.get(&Profile::Default).unwrap();
    assert_eq!(dict.get("token"), Some(&Value::from("from-var")));
}

#[test]
fn secret_tier_is_the_fallback() {
    let mut env = Env::new();
    env.add_secret("API_KEY".to_string(), "shh".to_string());
    let provider = CloudflareWorkersBindings::from_struct(&env, field_list(&["api_key"]));
    let map = provider.data().unwrap();
    let dict = map.get(&Profile::Default).unwrap();
    assert_eq!(dict.get("api_key"), Some(&Value::from("shh")));
}

#[test]
fn unresolved_field_has_no_entry() {
    let mut env = Env::new();
    env.add_var("PRESENT".to_string(), "yes".to_string());
    let provider =
        CloudflareWorkersBindings::from_struct(&env, field_list(&["present", "missing_field"]));
    let map = provider.data().unwrap();
    let dict = map.get(&Profile::Default).unwrap();
    assert_eq!(dict.get("present"), Some(&Value::from("yes")));
    assert!(dict.get("missing_field").is_none());
    assert_eq!(dict.len(), 1);
}

#[test]
fn zero_fields_yield_empty_dictionary_not_an_error() {
    let env = Env::new();
    let provider = CloudflareWorkersBindings::from_struct(&env, Vec::new());
    let map = provider.data().unwrap();
    let dict = map.get(&Profile::Default).unwrap();
    assert!(dict.is_empty());
}

#[test]
fn repeated_calls_reflect_the_same_store() {
    let mut env = Env::new();
    env.add_var("A".to_string(), "1".to_string());
    let provider = CloudflareWorkersBindings::from_struct(&env, field_list(&["a"]));
    assert_eq!(provider.data().unwrap(), provider.data().unwrap());
}

#[test]
fn metadata_names_the_worker_environment() {
    let env = Env::new();
    let provider = CloudflareWorkersBindings::from_struct(&env, Vec::new());
    assert_eq!(provider.metadata().name, "Cloudflare Worker environment");
}

#[test]
fn profile_builder_moves_output_without_changing_it() {
    let mut env = Env::new();
    env.add_var("API_BASE_URL".to_string(), "https://x".to_string());
    env.add_secret("API_KEY".to_string(), "shh".to_string());
    let fields = field_list(&["api_base_url", "api_key"]);
    let default_map =
        CloudflareWorkersBindings::from_struct(&env, fields.clone()).data().unwrap();
    let staging_map = CloudflareWorkersBindings::from_struct(&env, fields)
        .profile("staging")
        .data()
        .unwrap();
    let default_dict = default_map.get(&Profile::Default).unwrap();
    let staging_dict = staging_map.get(&Profile::new("staging")).unwrap();
    assert_eq!(default_dict, staging_dict);
    assert!(staging_map.get(&Profile::Default).is_none());
}

#[test]
fn extraction_succeeds_with_vars_and_secrets_mixed() {
    // Shape {api_base_url, api_key, max_retries}: two plain variables and
    // one secret resolve into one flat configuration.
    let mut env = Env::new();
    env.add_var("API_BASE_URL".to_string(), "https://x".to_string());
    env.add_var("MAX_RETRIES".to_string(), "3".to_string());
    env.add_secret("API_KEY".to_string(), "shh".to_string());
    let provider = CloudflareWorkersBindings::from_struct(
        &env,
        field_list(&["api_base_url", "api_key", "max_retries"]),
    );
    let config: BTreeMap<String, String> =
        Figment::new().merge(Bindings(provider)).extract().unwrap();
    let mut expected = BTreeMap::new();
    expected.insert("api_base_url".to_string(), "https://x".to_string());
    expected.insert("api_key".to_string(), "shh".to_string());
    expected.insert("max_retries".to_string(), "3".to_string());
    assert_eq!(config, expected);
}

#[test]
fn extraction_leaves_optional_fields_absent() {
    // Shape {api_base_url, missing_field, api_key} with only API_BASE_URL
    // populated: the present field is set, the others have no entry.
    let mut env = Env::new();
    env.add_var("API_BASE_URL".to_string(), "https://x".to_string());
    let provider = CloudflareWorkersBindings::from_struct(
        &env,
        field_list(&["api_base_url", "missing_field", "api_key"]),
    );
    let config: BTreeMap<String, String> =
        Figment::new().merge(Bindings(provider)).extract().unwrap();
    assert_eq!(config.get("api_base_url"), Some(&"https://x".to_string()));
    assert!(!config.contains_key("missing_field"));
    assert!(!config.contains_key("api_key"));
}

#[test]
fn extraction_of_required_missing_field_fails() {
    // Shape {api_base_url} with an empty environment: downstream
    // extraction reports the missing field by name.
    let env = Env::new();
    let provider = CloudflareWorkersBindings::from_struct(&env, field_list(&["api_base_url"]));
    let result: Result<String, figment2::Error> =
        Figment::new().merge(Bindings(provider)).extract_inner("api_base_url");
    let error = result.unwrap_err();
    assert!(error.missing());
    assert!(error.to_string().contains("api_base_url"));
}

#[test]
fn staging_profile_data_is_found_only_under_staging() {
    let mut env = Env::new();
    env.add_var("API_BASE_URL".to_string(), "https://x".to_string());
    let fields = field_list(&["api_base_url"]);

    let staged = CloudflareWorkersBindings::from_struct(&env, fields.clone()).profile("staging");
    let value: String = Figment::new()
        .merge(Bindings(staged))
        .select("staging")
        .extract_inner("api_base_url")
        .unwrap();
    assert_eq!(value, "https://x");

    let staged_again = CloudflareWorkersBindings::from_struct(&env, fields).profile("staging");
    let unselected: Result<String, figment2::Error> =
        Figment::new().merge(Bindings(staged_again)).extract_inner("api_base_url");
    assert!(unselected.unwrap_err().missing());
}
