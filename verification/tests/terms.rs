use pecast_broadcast::settings::Settings;
use pecast_broadcast::terms_check::{
    check_expired_terms, expired_yp_terms, fetch_hash, hex, terms_to_check, PAGE_LIMIT,
};
use pecast_broadcast::yp_config::YPConfig;

fn config(host: &str, ignore_terms_check: bool, selector: Option<&str>) -> YPConfig {
    YPConfig {
        name: host.to_owned(),
        terms_url: format!("https://{}/terms.html", host),
        terms_selector: selector.map(|x| x.to_owned()),
        ignore_terms_check,
        host: host.to_owned(),
        support_ipv6: true,
        prefix_header: String::new(),
        supported_params: vec![],
    }
}

fn pair(url: &str, hash: &str) -> (String, String) {
    (url.to_owned(), hash.to_owned())
}

#[test]
fn hex_writes_two_digits_in_lower_case() {
    assert_eq!(hex(&[]), "");
    assert_eq!(hex(&[0]), "00");
    assert_eq!(hex(&[0x0f, 0xa0, 0xff, 0x10, 0x9c]), "0fa0ff109c");
}

#[test]
fn hash_of_a_whole_page() {
    assert_eq!(
        fetch_hash("", None),
        Some("e3b0c44298fc1c149afbf4c8996fb92427ae41e4649b934ca495991b7852b855".to_owned())
    );
    assert_eq!(
        fetch_hash("abc", None),
        Some("ba7816bf8f01cfea414140de5dae2223b00361a396177a9cb410ff61f20015ad".to_owned())
    );
}

#[test]
fn hash_of_a_selected_part() {
    let page = "<html><body><div id=\"terms\">abc</div><p>today</p></body></html>";
    assert_eq!(
        fetch_hash(page, Some("#terms")),
        fetch_hash("<div id=\"terms\">abc</div>", None)
    );
    let later = "<html><body><div id=\"terms\">abc</div><p>tomorrow</p></body></html>";
    assert_eq!(fetch_hash(later, Some("#terms")), fetch_hash(page, Some("#terms")));
    assert_ne!(fetch_hash(later, None), fetch_hash(page, None));
    assert_eq!(fetch_hash(page, Some("#none")), fetch_hash("", None));
}

#[test]
fn no_hash_for_what_is_no_selector() {
    assert_eq!(fetch_hash("<p>abc</p>", Some("<<<")), None);
}

#[test]
fn pages_to_check_follow_the_stacks() {
    let configs = vec![
        config("v4.example", false, None),
        config("v6.example", false, Some("#terms")),
        config("free.example", true, None),
    ];
    let mut settings = Settings::default();
    assert_eq!(terms_to_check(&configs, &settings).len(), 0);
    settings.yellow_pages_settings.ipv4.host = "v4.example".to_owned();
    settings.yellow_pages_settings.ipv6.host = "v6.example".to_owned();
    let pages = terms_to_check(&configs, &settings);
    assert_eq!(pages.len(), 2);
    assert_eq!(pages[0].url, "https://v4.example/terms.html");
    assert_eq!(pages[0].selector, None);
    assert_eq!(pages[1].url, "https://v6.example/terms.html");
    assert_eq!(pages[1].selector, Some("#terms".to_owned()));
    settings.yellow_pages_settings.ipv4.host = "free.example".to_owned();
    let pages = terms_to_check(&configs, &settings);
    assert_eq!(pages.len(), 1);
    assert_eq!(pages[0].url, "https://v6.example/terms.html");
}

#[test]
fn terms_with_another_hash_have_expired() {
    let mut settings = Settings::default();
    settings.yellow_pages_settings.agreed_terms =
        vec![pair("https://a/", "1"), pair("https://b/", "2"), pair("https://d/", "3")];
    assert!(settings.yellow_pages_settings.is_wf());
    assert_eq!(expired_yp_terms(&settings, &[]), Vec::<String>::new());
    assert_eq!(
        expired_yp_terms(&settings, &[pair("https://a/", "1"), pair("https://b/", "2")]),
        Vec::<String>::new()
    );
    assert_eq!(
        expired_yp_terms(
            &settings,
            &[pair("https://a/", "3"), pair("https://b/", "2"), pair("https://c/", "0")]
        ),
        vec!["https://a/".to_owned(), "https://c/".to_owned()]
    );
    assert!(settings.yellow_pages_settings.contains_terms("https://a/"));
    assert!(!settings.yellow_pages_settings.contains_terms("https://c/"));
    assert!(settings.yellow_pages_settings.agreed_to("https://a/", "1"));
    assert!(!settings.yellow_pages_settings.agreed_to("https://a/", "3"));
    assert!(settings.yellow_pages_settings.agreed_to("https://d/", "3"));
    assert!(!settings.yellow_pages_settings.agreed_to("https://c/", "1"));
}

#[test]
fn expired_agreements_are_taken_out() {
    let mut settings = Settings::default();
    settings.yellow_pages_settings.ipv4.host = "v4.example".to_owned();
    settings.yellow_pages_settings.agreed_terms =
        vec![pair("https://a/", "1"), pair("https://b/", "2"), pair("https://d/", "3")];
    assert!(check_expired_terms(&mut settings, &[pair("https://b/", "2")]));
    assert_eq!(settings.yellow_pages_settings.agreed_terms.len(), 3);
    assert!(!check_expired_terms(
        &mut settings,
        &[pair("https://a/", "9"), pair("https://b/", "2"), pair("https://d/", "4")]
    ));
    assert_eq!(settings.yellow_pages_settings.agreed_terms, vec![pair("https://b/", "2")]);
    assert!(settings.yellow_pages_settings.is_wf());
    assert_eq!(settings.yellow_pages_settings.ipv4.host, "v4.example");
    assert!(!check_expired_terms(&mut settings, &[pair("https://c/", "1")]));
    assert_eq!(settings.yellow_pages_settings.agreed_terms, vec![pair("https://b/", "2")]);
}

#[test]
fn agreements_with_one_address_twice_are_no_map() {
    let mut settings = Settings::default();
    assert!(settings.yellow_pages_settings.is_wf());
    settings.yellow_pages_settings.agreed_terms = vec![pair("https://a/", "1")];
    assert!(settings.yellow_pages_settings.is_wf());
    settings.yellow_pages_settings.agreed_terms =
        vec![pair("https://a/", "1"), pair("https://b/", "1"), pair("https://c/", "1")];
    assert!(settings.yellow_pages_settings.is_wf());
    settings.yellow_pages_settings.agreed_terms =
        vec![pair("https://a/", "1"), pair("https://b/", "2"), pair("https://a/", "3")];
    assert!(!settings.yellow_pages_settings.is_wf());
    settings.yellow_pages_settings.agreed_terms =
        vec![pair("https://a/", "1"), pair("https://b/", "2"), pair("https://b/", "2")];
    assert!(!settings.yellow_pages_settings.is_wf());
}

#[test]
fn no_part_is_selected_from_too_long_a_page() {
    assert_eq!(PAGE_LIMIT, 16384);
    let head = "<div id=\"terms\">abc</div>";
    let within = format!("{}{}", head, " ".repeat(PAGE_LIMIT - head.len()));
    assert_eq!(within.len(), PAGE_LIMIT);
    assert_eq!(fetch_hash(&within, Some("#terms")), fetch_hash(head, None));
    let beyond = format!("{} ", within);
    assert_eq!(fetch_hash(&beyond, Some("#terms")), None);
    assert!(fetch_hash(&beyond, None).is_some());
    assert_ne!(fetch_hash(&beyond, None), fetch_hash(&within, None));
    let wide = "あ".repeat(PAGE_LIMIT / 3 + 1);
    assert!(wide.chars().count() < PAGE_LIMIT);
    assert_eq!(fetch_hash(&wide, Some("p")), None);
}
