use flakehub_push_config::{
    choose_raw, env_names, parse_decimal_u64, parse_empty_bool, parse_list, parse_option_path,
    parse_option_spdx, parse_option_string, parse_option_u64, parse_visibility, resolve,
    ConfigError, EnvVars, Field, FlakeHubPushCli, NumberError, OptionPathBuf, OptionString,
    OptionU64, Platform, RawInputs, RawSource, ValidationError, Visibility,
};

fn absent() -> RawSource {
    RawSource { flag: None, env: vec![] }
}

fn flag(v: &str) -> RawSource {
    RawSource { flag: Some(v.to_string()), env: vec![] }
}

fn nothing_given() -> RawInputs {
    RawInputs {
        host: absent(),
        visibility: absent(),
        tag: absent(),
        rolling_minor: absent(),
        rolling: absent(),
        github_token: absent(),
        name: absent(),
        repository: absent(),
        directory: absent(),
        git_root: absent(),
        mirror: false,
        jwt_issuer_uri: absent(),
        extra_labels: absent(),
        extra_tags: absent(),
        spdx_expression: absent(),
        error_on_conflict: absent(),
        include_output_paths: absent(),
    }
}

fn resolved(i: &RawInputs) -> FlakeHubPushCli {
    match resolve(i) {
        Ok(c) => c,
        Err(e) => panic!("unexpected usage error: {:?}", e),
    }
}

fn rejected(i: &RawInputs) -> ConfigError {
    match resolve(i) {
        Ok(_) => panic!("inputs were accepted"),
        Err(e) => e,
    }
}

#[test]
fn empty_text_is_unset_for_every_optional_parser() {
    assert_eq!(parse_option_string("").0, None);
    assert_eq!(parse_option_path("").0, None);
    assert_eq!(parse_option_u64("").unwrap(), OptionU64(None));
    assert!(parse_option_spdx("").unwrap().0.is_none());
}

#[test]
fn non_empty_text_round_trips() {
    assert_eq!(parse_option_string("acme/widget").0, Some("acme/widget".to_string()));
    assert_eq!(parse_option_string(" Mixed Case ").0, Some(" Mixed Case ".to_string()));
    assert_eq!(parse_option_path("/src/flake").0, Some("/src/flake".to_string()));
    assert_eq!(parse_option_u64("42").unwrap(), OptionU64(Some(42)));
    assert_eq!(parse_option_u64("0").unwrap(), OptionU64(Some(0)));
}

#[test]
fn largest_number_is_accepted() {
    assert_eq!(parse_option_u64("18446744073709551615").unwrap(), OptionU64(Some(u64::MAX)));
    assert_eq!(parse_decimal_u64("+7"), Ok(7));
}

#[test]
fn malformed_numbers_are_rejected() {
    assert_eq!(
        parse_option_u64("18446744073709551616"),
        Err(ValidationError::InvalidNumber(NumberError::TooLarge))
    );
    assert_eq!(
        parse_option_u64("abc"),
        Err(ValidationError::InvalidNumber(NumberError::InvalidDigit))
    );
    assert_eq!(
        parse_option_u64("-1"),
        Err(ValidationError::InvalidNumber(NumberError::InvalidDigit))
    );
    assert_eq!(parse_decimal_u64("+"), Err(NumberError::InvalidDigit));
    assert_eq!(parse_decimal_u64(""), Err(NumberError::Empty));
    assert_eq!(parse_decimal_u64("99999999999999999999x"), Err(NumberError::TooLarge));
    assert_eq!(parse_decimal_u64("12x99999999999999999999"), Err(NumberError::InvalidDigit));
    assert_eq!(NumberError::InvalidDigit.message(), "invalid digit found in string");
}

#[test]
fn license_expressions() {
    let parsed = parse_option_spdx("MIT OR Apache-2.0").unwrap();
    let expr = parsed.0.expect("a parsed expression");
    assert_eq!(expr.as_ref(), "MIT OR Apache-2.0");
    match parse_option_spdx("MIT OR (") {
        Err(ValidationError::InvalidLicense(msg)) => assert!(!msg.is_empty()),
        other => panic!("expected a license error, got {:?}", other.is_ok()),
    }
}

#[test]
fn tri_state_boolean() {
    assert_eq!(parse_empty_bool(""), Ok(false));
    assert_eq!(parse_empty_bool("true"), Ok(true));
    assert_eq!(parse_empty_bool("false"), Ok(false));
    assert_eq!(parse_empty_bool("yes"), Err(ValidationError::InvalidBool("yes".to_string())));
    assert_eq!(parse_empty_bool("TRUE"), Err(ValidationError::InvalidBool("TRUE".to_string())));
}

#[test]
fn visibility_names() {
    assert_eq!(parse_visibility(""), Ok(None));
    assert_eq!(parse_visibility("public"), Ok(Some(Visibility::Public)));
    assert_eq!(parse_visibility("unlisted"), Ok(Some(Visibility::Unlisted)));
    assert_eq!(parse_visibility("private"), Ok(Some(Visibility::Private)));
    assert_eq!(
        parse_visibility("secret"),
        Err(ValidationError::InvalidVisibility("secret".to_string()))
    );
}

#[test]
fn comma_delimited_lists_keep_order_and_duplicates() {
    assert_eq!(parse_list("a,b,,a"), vec!["a", "b", "", "a"]);
    assert_eq!(parse_list("nix"), vec!["nix"]);
    assert!(parse_list("").is_empty());
}

#[test]
fn visibility_has_a_legacy_binding() {
    assert_eq!(
        env_names(Field::Visibility),
        vec!["FLAKEHUB_PUSH_VISIBILITY", "FLAKEHUB_PUSH_VISIBLITY"]
    );
    assert_eq!(env_names(Field::RollingMinor), vec!["FLAKEHUB_PUSH_ROLLING_MINOR"]);
}

#[test]
fn defaults_when_nothing_is_given() {
    let c = resolved(&nothing_given());
    assert_eq!(c.host.as_str(), "https://api.flakehub.com/");
    assert_eq!(c.visibility, None);
    assert_eq!(c.tag.0, None);
    assert_eq!(c.rolling_minor, OptionU64(None));
    assert!(!c.rolling);
    assert!(!c.mirror);
    assert!(c.extra_labels.is_empty());
    assert!(c.spdx_expression.0.is_none());
    assert!(!c.error_on_conflict);
    assert!(!c.include_output_paths);
}

#[test]
fn flag_wins_over_environment() {
    let mut i = nothing_given();
    i.tag = RawSource { flag: Some("v2".to_string()), env: vec![Some("v1".to_string())] };
    i.name = RawSource { flag: None, env: vec![Some("acme/flake".to_string())] };
    i.extra_labels = flag("nix,flakes");
    i.rolling_minor = flag("3");
    i.rolling = flag("true");
    let c = resolved(&i);
    assert_eq!(c.tag.0, Some("v2".to_string()));
    assert_eq!(c.name.0, Some("acme/flake".to_string()));
    assert_eq!(c.extra_labels, vec!["nix", "flakes"]);
    assert_eq!(c.rolling_minor, OptionU64(Some(3)));
    assert!(c.rolling);
}

#[test]
fn first_set_variable_then_default_wins() {
    let both = RawSource {
        flag: None,
        env: vec![None, Some("public".to_string()), Some("private".to_string())],
    };
    assert_eq!(choose_raw(&both, "x"), "public");
    assert_eq!(choose_raw(&absent(), "fallback"), "fallback");
    assert_eq!(choose_raw(&flag(""), "fallback"), "");
}

#[test]
fn legacy_visibility_variable_is_equivalent() {
    let mut current = nothing_given();
    current.visibility = RawSource { flag: None, env: vec![Some("private".to_string()), None] };
    let mut legacy = nothing_given();
    legacy.visibility = RawSource { flag: None, env: vec![None, Some("private".to_string())] };
    assert_eq!(resolved(&current).visibility, Some(Visibility::Private));
    assert_eq!(resolved(&legacy).visibility, Some(Visibility::Private));
}

#[test]
fn malformed_rolling_minor_is_a_usage_error() {
    let mut i = nothing_given();
    i.rolling_minor = flag("abc");
    let e = rejected(&i);
    assert_eq!(e.field, Field::RollingMinor);
    assert_eq!(e.error, ValidationError::InvalidNumber(NumberError::InvalidDigit));
}

#[test]
fn first_rejected_field_is_reported() {
    let mut i = nothing_given();
    i.rolling = flag("maybe");
    i.include_output_paths = flag("nope");
    let e = rejected(&i);
    assert_eq!(e.field, Field::Rolling);
    assert_eq!(e.error, ValidationError::InvalidBool("maybe".to_string()));
}

#[test]
fn malformed_host_is_a_usage_error() {
    let mut i = nothing_given();
    i.host = flag("not a url");
    let e = rejected(&i);
    assert_eq!(e.field, Field::Host);
    assert!(matches!(e.error, ValidationError::InvalidUrl(_)));
    let mut ok = nothing_given();
    ok.host = flag("http://localhost:8080");
    assert_eq!(resolved(&ok).host.as_str(), "http://localhost:8080/");
}

#[test]
fn malformed_license_is_a_usage_error() {
    let mut i = nothing_given();
    i.spdx_expression = flag("MIT AND");
    assert_eq!(rejected(&i).field, Field::SpdxExpression);
}

fn github_env() -> EnvVars {
    let mut env = EnvVars::new();
    env.set("GITHUB_WORKSPACE", "/home/runner/work/widget");
    env.set("GITHUB_REPOSITORY", "other/repo");
    env.set("GITHUB_REF_NAME", "v1.2.3");
    env
}

#[test]
fn backfill_does_not_overwrite() {
    let mut i = nothing_given();
    i.repository = flag("acme/widget");
    let mut c = resolved(&i);
    c.backfill_from_github_env(&github_env());
    assert_eq!(c.repository.0, Some("acme/widget".to_string()));
}

#[test]
fn backfill_fills_unset_tag() {
    let mut c = resolved(&nothing_given());
    c.backfill_from_github_env(&github_env());
    assert_eq!(c.tag.0, Some("v1.2.3".to_string()));
    assert_eq!(c.git_root.0, Some("/home/runner/work/widget".to_string()));
    assert_eq!(c.repository.0, Some("other/repo".to_string()));
}

#[test]
fn backfill_twice_equals_once() {
    let env = github_env();
    let mut once = resolved(&nothing_given());
    once.backfill_from_github_env(&env);
    let mut twice = resolved(&nothing_given());
    twice.backfill_from_github_env(&env);
    twice.backfill_from_github_env(&env);
    assert_eq!(once.tag.0, twice.tag.0);
    assert_eq!(once.repository.0, twice.repository.0);
    assert_eq!(once.git_root.0, twice.git_root.0);
}

#[test]
fn gitlab_backfill_uses_its_own_variables() {
    let mut env = github_env();
    env.set("CI_PROJECT_DIR", "/builds/acme/widget");
    env.set("CI_PROJECT_ID", "1234");
    let mut c = resolved(&nothing_given());
    c.backfill_from_gitlab_env(&env);
    assert_eq!(c.git_root.0, Some("/builds/acme/widget".to_string()));
    assert_eq!(c.repository.0, Some("1234".to_string()));
    assert_eq!(c.tag.0, None);
}

#[test]
fn backfill_without_platform_changes_nothing() {
    let mut c = resolved(&nothing_given());
    c.backfill(Platform::Local, &github_env());
    assert_eq!(c.tag.0, None);
    assert_eq!(c.repository.0, None);
}

#[test]
fn later_variable_hides_earlier() {
    let mut env = EnvVars::new();
    env.set("GITHUB_REF_NAME", "v1");
    env.set("GITHUB_REF_NAME", "v2");
    assert_eq!(env.get("GITHUB_REF_NAME"), Some("v2".to_string()));
    assert_eq!(env.get("GITHUB_REPOSITORY"), None);
}

#[test]
fn option_types_hold_plain_values() {
    let s = OptionString(Some("x".to_string()));
    let p = OptionPathBuf(None);
    assert_eq!(s.0.as_deref(), Some("x"));
    assert!(p.0.is_none());
}
