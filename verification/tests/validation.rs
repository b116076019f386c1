use nvhosts::domain::domain_is_valid;
use nvhosts::model::{Header, HeaderValue, Site, UnverifiedConfig};
use nvhosts::validate::Violation;

fn plain_site(domain: &str) -> Site {
    Site {
        domain: String::from(domain),
        cache_control: None,
        headers: None,
        redirects: None,
        extra: None,
    }
}

#[test]
fn test_domain_grammar() {
    assert!(domain_is_valid("example.com"));
    assert!(domain_is_valid("dev.example.co.uk"));
    assert!(domain_is_valid("www.example.com"));
    assert!(domain_is_valid("a-b.c-2.de"));
    assert!(domain_is_valid("0.com"));

    assert!(!domain_is_valid(""));
    assert!(!domain_is_valid("not a domain"));
    assert!(!domain_is_valid("UPPER.COM"));
    assert!(!domain_is_valid("nodots"));
    assert!(!domain_is_valid("a.b"));
    assert!(!domain_is_valid("a.c0m"));
    assert!(!domain_is_valid("-a.com"));
    assert!(!domain_is_valid("a-.com"));
    assert!(!domain_is_valid("a--b.com"));
    assert!(!domain_is_valid("a..com"));
    assert!(!domain_is_valid(".a.com"));
    assert!(!domain_is_valid("a.com."));
    assert!(!domain_is_valid("caf\u{e9}.com"));
}

#[test]
fn test_validate_accepts_valid_domains() {
    let config = UnverifiedConfig {
        sites: vec![plain_site("example.com"), plain_site("dev.example.co.uk")],
    };
    let verified = config.validate();
    assert!(verified.is_ok());
    assert_eq!(verified.unwrap().sites().len(), 2);
}

#[test]
fn test_validate_collects_every_violation() {
    let mut bad_header_site = plain_site("ok.example.com");
    bad_header_site.headers = Some(vec![Header {
        for_field: String::from("/*"),
        values: vec![HeaderValue {
            name: String::from("Cache-Control"),
            value: String::from("no-store"),
        }],
    }]);
    let config = UnverifiedConfig {
        sites: vec![
            plain_site("not a domain"),
            plain_site("UPPER.COM"),
            bad_header_site,
        ],
    };
    let err = config.validate().err().expect("validation must fail");
    assert_eq!(err.violations.len(), 3);
    assert!(matches!(
        &err.violations[0],
        Violation::BadDomain { domain } if domain == "not a domain"
    ));
    assert!(matches!(
        &err.violations[1],
        Violation::BadDomain { domain } if domain == "UPPER.COM"
    ));
    assert!(matches!(
        &err.violations[2],
        Violation::CacheControlHeader { for_field } if for_field == "/*"
    ));
}

#[test]
fn test_validate_allows_other_headers() {
    let mut site = plain_site("example.com");
    site.headers = Some(vec![Header {
        for_field: String::from("/*"),
        values: vec![HeaderValue {
            name: String::from("Referrer-Policy"),
            value: String::from("no-referrer"),
        }],
    }]);
    let config = UnverifiedConfig { sites: vec![site] };
    assert!(config.validate().is_ok());
}

#[test]
fn test_example_is_one_documented_site() {
    let config = UnverifiedConfig::example();
    assert_eq!(config.sites.len(), 1);
    let site = &config.sites[0];
    assert_eq!(site.domain, "example.com");
    assert!(site.cache_control.is_none());
    assert!(site.extra.is_none());
    let headers = site.headers.as_ref().expect("example has headers");
    assert_eq!(headers.len(), 1);
    assert_eq!(headers[0].for_field, "/*");
    assert_eq!(headers[0].values.len(), 3);
    assert_eq!(headers[0].values[0].name, "Cache-Control");
    assert_eq!(headers[0].values[0].value, "public");
    assert_eq!(headers[0].values[1].name, "Referrer-Policy");
    assert_eq!(headers[0].values[1].value, "strict-origin-when-cross-origin");
    assert_eq!(headers[0].values[2].name, "Strict-Transport-Security");
    assert_eq!(
        headers[0].values[2].value,
        "max-age=31536000; includeSubDomains; preload"
    );
    let redirects = site.redirects.as_ref().expect("example has a redirect");
    assert_eq!(redirects.len(), 1);
    assert_eq!(redirects[0].from_field, "/example");
    assert_eq!(redirects[0].to, "http://example.com");
    assert_eq!(redirects[0].status_code, 301);
}
