use sspi::{kdc_type_from_scheme, kdc_url_scheme, normalize_kdc_url, parse_kdc_url, KdcType};
use url::Url;

#[test]
fn a_bare_address_is_reached_directly_over_tcp() {
    let (normalized, kdc_type) = parse_kdc_url("192.168.0.1:88");
    assert_eq!(normalized, "tcp://192.168.0.1:88");
    assert_eq!(kdc_type, KdcType::Kdc);
}

#[test]
fn a_url_with_a_scheme_is_kept_verbatim() {
    let (normalized, kdc_type) = parse_kdc_url("udp://kdc.example.com:88");
    assert_eq!(normalized, "udp://kdc.example.com:88");
    assert_eq!(kdc_type, KdcType::Kdc);
}

#[test]
fn http_and_https_reach_a_kdc_proxy() {
    assert_eq!(parse_kdc_url("http://proxy.example.com/kdc").1, KdcType::KdcProxy);
    assert_eq!(parse_kdc_url("https://proxy.example.com/kdc").1, KdcType::KdcProxy);
    assert_eq!(parse_kdc_url("tcp://kdc.example.com:88").1, KdcType::Kdc);
    assert_eq!(kdc_type_from_scheme("http"), KdcType::KdcProxy);
    assert_eq!(kdc_type_from_scheme("https"), KdcType::KdcProxy);
    assert_eq!(kdc_type_from_scheme("tcp"), KdcType::Kdc);
    assert_eq!(kdc_type_from_scheme("udp"), KdcType::Kdc);
    // An unknown scheme reaches the KDC directly.
    assert_eq!(kdc_type_from_scheme("ftp"), KdcType::Kdc);
}

#[test]
fn the_scheme_case_does_not_matter() {
    // A URL parser folds the scheme's case away, so the classification
    // must not read it.
    assert_eq!(parse_kdc_url("HTTP://proxy.example.com/kdc").1, KdcType::KdcProxy);
    assert_eq!(parse_kdc_url("Https://proxy.example.com/kdc").1, KdcType::KdcProxy);
    assert_eq!(kdc_type_from_scheme("HTTP"), KdcType::KdcProxy);
    assert_eq!(kdc_type_from_scheme("hTtPs"), KdcType::KdcProxy);
    assert_eq!(kdc_type_from_scheme("TCP"), KdcType::Kdc);
    assert_eq!(kdc_type_from_scheme("UDP"), KdcType::Kdc);
}

#[test]
fn the_scheme_is_the_text_before_the_separator() {
    assert_eq!(kdc_url_scheme("https://h"), Some("https".to_string()));
    assert_eq!(kdc_url_scheme("tcp://h"), Some("tcp".to_string()));
    assert_eq!(kdc_url_scheme("host:88"), None);
    assert_eq!(kdc_url_scheme(""), None);
}

#[test]
fn normalization_agrees_with_a_full_url_parser() {
    for raw in [
        "192.168.0.1:88",
        "kdc.example.com:88",
        "tcp://kdc.example.com:88",
        "udp://10.0.0.3:88",
        "http://proxy.example.com/KdcProxy",
        "https://proxy.example.com/KdcProxy",
        "HTTP://proxy.example.com/KdcProxy",
        "HTTPS://proxy.example.com/KdcProxy",
    ] {
        let (normalized, kdc_type) = parse_kdc_url(raw);
        let parsed = Url::parse(&normalized).unwrap();
        // The full parser folds the scheme to lowercase; the scheme this
        // crate reads off is the raw text.
        assert_eq!(
            Some(parsed.scheme().to_string()),
            kdc_url_scheme(&normalized).map(|s| s.to_lowercase())
        );
        let expected = match parsed.scheme() {
            "http" | "https" => KdcType::KdcProxy,
            _ => KdcType::Kdc,
        };
        assert_eq!(kdc_type, expected);
    }
}

#[test]
fn normalize_only_prefixes_bare_addresses() {
    assert_eq!(normalize_kdc_url("h"), "tcp://h");
    assert_eq!(normalize_kdc_url(""), "tcp://");
    assert_eq!(normalize_kdc_url("a://b"), "a://b");
}
