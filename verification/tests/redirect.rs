use dlocal_connector::enums::Method;
use dlocal_connector::redirect::{collect_form_fields, RedirectForm};
use url::Url;

fn pairs_of(pairs: &[(&str, &str)]) -> Vec<(String, String)> {
    pairs.iter().map(|(name, value)| (name.to_string(), value.to_string())).collect()
}

#[test]
fn pairs_fill_the_fields_of_a_form() {
    let fields = collect_form_fields(&pairs_of(&[("a", "1"), ("b", "2")]));
    assert_eq!(fields.len(), 2);
    assert_eq!(fields.get("a").map(String::as_str), Some("1"));
    assert_eq!(fields.get("b").map(String::as_str), Some("2"));
    assert!(fields.get("c").is_none());
}

#[test]
fn a_later_pair_replaces_an_earlier_one_of_the_same_name() {
    let fields = collect_form_fields(&pairs_of(&[("a", "1"), ("b", "2"), ("a", "3")]));
    assert_eq!(fields.len(), 2);
    assert_eq!(fields.get("a").map(String::as_str), Some("3"));
    assert_eq!(fields.get("b").map(String::as_str), Some("2"));
}

#[test]
fn no_pairs_leave_the_form_empty() {
    let fields = collect_form_fields(&Vec::new());
    assert!(fields.is_empty());
}

#[test]
fn the_endpoint_of_a_form_is_the_url_without_its_query() {
    let url = Url::parse("https://example.com/3ds?a=1&b=two+words&a=3").unwrap();
    match RedirectForm::from((url, Method::Get)) {
        RedirectForm::Form { endpoint, method, form_fields } => {
            assert_eq!(endpoint, "https://example.com/3ds");
            assert_eq!(method, Method::Get);
            assert_eq!(form_fields.len(), 2);
            assert_eq!(form_fields.get("a").map(String::as_str), Some("3"));
            assert_eq!(form_fields.get("b").map(String::as_str), Some("two words"));
        }
        RedirectForm::Html { .. } => panic!("a page in place of a form"),
    }
}

#[test]
fn the_method_of_a_form_is_the_one_given() {
    let url = Url::parse("https://example.com/pay").unwrap();
    match RedirectForm::from((url, Method::Post)) {
        RedirectForm::Form { endpoint, method, form_fields } => {
            assert_eq!(endpoint, "https://example.com/pay");
            assert_eq!(method, Method::Post);
            assert!(form_fields.is_empty());
        }
        RedirectForm::Html { .. } => panic!("a page in place of a form"),
    }
}

#[test]
fn the_fragment_of_a_url_stays_with_the_endpoint() {
    let url = Url::parse("https://example.com/pay?x=%C3%A9#step").unwrap();
    match RedirectForm::from((url, Method::Get)) {
        RedirectForm::Form { endpoint, form_fields, .. } => {
            assert_eq!(endpoint, "https://example.com/pay#step");
            assert_eq!(form_fields.get("x").map(String::as_str), Some("é"));
        }
        RedirectForm::Html { .. } => panic!("a page in place of a form"),
    }
}
