use treasury::error::ContractError;
use treasury::params::{valid_params, validate_params, Params};

#[test]
fn validate_params_accepts_well_formed_input() {
    validate_params(&valid_params()).unwrap();
}

#[test]
fn validate_params_rejects_a_malformed_redirect_url() {
    let params = Params {
        redirect_url: "not a url".to_string(),
        ..valid_params()
    };
    assert!(matches!(
        validate_params(&params),
        Err(ContractError::URLParse(_))
    ));
}

#[test]
fn validate_params_rejects_a_malformed_icon_url() {
    let params = Params {
        icon_url: "://missing-scheme".to_string(),
        ..valid_params()
    };
    assert!(matches!(
        validate_params(&params),
        Err(ContractError::URLParse(_))
    ));
}

#[test]
fn validate_params_rejects_metadata_that_is_not_json() {
    let params = Params {
        metadata: "{not json".to_string(),
        ..valid_params()
    };
    assert!(matches!(
        validate_params(&params),
        Err(ContractError::JsonError(_))
    ));
}

#[test]
fn valid_params_holds_the_example_values() {
    let p = valid_params();
    assert_eq!(p.redirect_url, "https://example.com/redirect");
    assert_eq!(p.icon_url, "https://example.com/icon.png");
    assert_eq!(p.metadata, r#"{"name":"test treasury"}"#);
}

#[test]
fn validate_params_checks_the_redirect_url_before_the_metadata() {
    let params = Params {
        redirect_url: "not a url".to_string(),
        metadata: "{not json".to_string(),
        ..valid_params()
    };
    assert!(matches!(
        validate_params(&params),
        Err(ContractError::URLParse(_))
    ));
}

#[test]
fn validate_params_accepts_any_json_value_as_metadata() {
    let params = Params {
        metadata: "[1, 2, 3]".to_string(),
        ..valid_params()
    };
    assert!(validate_params(&params).is_ok());
}

#[test]
fn validate_params_accepts_urls_of_other_schemes() {
    let params = Params {
        redirect_url: "myapp://callback".to_string(),
        ..valid_params()
    };
    assert!(validate_params(&params).is_ok());
}

#[test]
fn validate_params_reports_the_url_parser_text() {
    let params = Params {
        redirect_url: "not a url".to_string(),
        ..valid_params()
    };
    match validate_params(&params) {
        Err(ContractError::URLParse(text)) => {
            assert_eq!(text, url::Url::parse("not a url").unwrap_err().to_string())
        }
        other => panic!("expected a URL error, got {other:?}"),
    }
}

#[test]
fn validate_params_reports_the_json_parser_text() {
    let params = Params {
        metadata: "{not json".to_string(),
        ..valid_params()
    };
    match validate_params(&params) {
        Err(ContractError::JsonError(text)) => assert_eq!(
            text,
            serde_json::from_str::<serde_json::Value>("{not json").unwrap_err().to_string()
        ),
        other => panic!("expected a JSON error, got {other:?}"),
    }
}
