use dscrd_status::scraper::{
    asset_names, asset_url, build_number_in, discord_info_from, parse_u64, BuildScraper,
    ScrapeStep, FALLBACK_BUILD_NUMBER,
};

#[test]
fn parse_u64_follows_std() {
    for s in ["0", "42", "+7", "18446744073709551615", "", "+", "-1", "18446744073709551616", "1a", " 1", "٣"] {
        assert_eq!(parse_u64(s), s.parse::<u64>().ok(), "input {:?}", s);
    }
    assert_eq!(parse_u64("308796"), Some(308796));
}

#[test]
fn build_number_in_each_notation() {
    assert_eq!(build_number_in(r#"x=YA("buildNumber","123456");"#), Some(123456));
    assert_eq!(build_number_in(r#"{buildNumber:"234567"}"#), Some(234567));
    assert_eq!(build_number_in("{build_number:345678,"), Some(345678));
    assert_eq!(build_number_in(r#"["BUILD_NUMBER","456789"]"#), Some(456789));
    assert_eq!(build_number_in("{buildNumber:567890}"), Some(567890));
    assert_eq!(build_number_in("nothing here"), None);
}

#[test]
fn build_number_in_takes_first_match() {
    assert_eq!(build_number_in("build_number:11 buildNumber:22"), Some(11));
}

#[test]
fn build_number_too_large_is_none() {
    assert_eq!(build_number_in("build_number:99999999999999999999999"), None);
}

#[test]
fn asset_names_lists_scripts_up_to_ten() {
    let html = r#"<script src="/assets/web.b583426249e4da72.js"></script><script src="/assets/abc123.js"></script><link href="/assets/style.css">"#;
    assert_eq!(asset_names(html), vec!["web.b583426249e4da72".to_string(), "abc123".to_string()]);
    let many: String = (0..15).map(|i| format!("/assets/a{}.js ", i)).collect();
    let names = asset_names(&many);
    assert_eq!(names.len(), 10);
    assert_eq!(names[0], "a0");
    assert_eq!(names[9], "a9");
    assert!(asset_names("<html></html>").is_empty());
}

#[test]
fn asset_url_format() {
    assert_eq!(asset_url("abc123"), "https://discord.com/assets/abc123.js");
}

#[test]
fn discord_info_falls_back() {
    assert_eq!(discord_info_from(Some(1)).build_number, 1);
    assert_eq!(discord_info_from(None).build_number, FALLBACK_BUILD_NUMBER);
    assert_eq!(FALLBACK_BUILD_NUMBER, 508471);
}

#[test]
fn scraper_fetches_in_order_and_stops_at_first_build_number() {
    let mut s = BuildScraper::from_page("/assets/one.js /assets/two.js /assets/three.js");
    match s.step(None) {
        ScrapeStep::Fetch(u) => assert_eq!(u, "https://discord.com/assets/one.js"),
        other => panic!("unexpected step {:?}", other),
    }
    match s.step(Some("no number here")) {
        ScrapeStep::Fetch(u) => assert_eq!(u, "https://discord.com/assets/two.js"),
        other => panic!("unexpected step {:?}", other),
    }
    match s.step(None) {
        ScrapeStep::Fetch(u) => assert_eq!(u, "https://discord.com/assets/three.js"),
        other => panic!("unexpected step {:?}", other),
    }
    match s.step(Some("build_number:4242")) {
        ScrapeStep::Found(n) => assert_eq!(n, 4242),
        other => panic!("unexpected step {:?}", other),
    }
}

#[test]
fn scraper_exhausts_without_build_number() {
    let mut s = BuildScraper::from_page("/assets/one.js");
    assert!(matches!(s.step(None), ScrapeStep::Fetch(_)));
    assert!(matches!(s.step(Some("nothing")), ScrapeStep::Exhausted));
    let mut empty = BuildScraper::from_page("");
    assert!(matches!(empty.step(None), ScrapeStep::Exhausted));
}
