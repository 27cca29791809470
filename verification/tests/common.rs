use fakey_cognito::common::{decimal, digit};
use fakey_cognito::opts::{get_opt_config, get_opt_templates, Opt};
use fakey_cognito::templates::{find_field, push_number_field, push_text_field, Field};
use std::path::PathBuf;

#[test]
fn decimal_digits() {
    assert_eq!(decimal(0), "0");
    assert_eq!(decimal(7), "7");
    assert_eq!(decimal(9), "9");
    assert_eq!(decimal(10), "10");
    assert_eq!(decimal(42), "42");
    assert_eq!(decimal(99), "99");
    assert_eq!(decimal(100), "100");
    assert_eq!(decimal(105), "105");
    assert_eq!(decimal(250), "250");
    assert_eq!(decimal(255), "255");
    assert_eq!(digit(3), "3");
}

#[test]
fn every_number_below_256_is_written_as_std_writes_it() {
    for n in 0..=255u8 {
        assert_eq!(decimal(n), n.to_string());
    }
}

#[test]
fn options_are_handed_out() {
    let opt = Opt { config: Some(PathBuf::from("/etc/fakey.yml")), templates: None };
    assert_eq!(get_opt_config(&opt), Some(&PathBuf::from("/etc/fakey.yml")));
    assert_eq!(get_opt_templates(&opt), None);
    let opt = Opt { config: None, templates: Some("templates".to_string()) };
    assert_eq!(get_opt_config(&opt), None);
    assert_eq!(get_opt_templates(&opt), Some(&"templates".to_string()));
}

#[test]
fn fields_are_pushed_when_present() {
    let mut fields: Vec<Field> = Vec::new();
    push_text_field(&mut fields, "Username", &Some("alice".to_string()));
    push_text_field(&mut fields, "NextToken", &None);
    push_number_field(&mut fields, "Limit", &Some(5));
    push_number_field(&mut fields, "MaxResults", &None);
    assert_eq!(
        fields,
        vec![
            Field { name: "Username".to_string(), value: "alice".to_string() },
            Field { name: "Limit".to_string(), value: "5".to_string() },
        ]
    );
    assert_eq!(find_field(&fields, "Limit"), Some(&"5".to_string()));
    assert_eq!(find_field(&fields, "limit"), None);
}
