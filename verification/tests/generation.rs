use nvhosts::model::{
    default_redirect_status_code, Header, HeaderValue, Redirect, Site, UnverifiedConfig,
};
use nvhosts::numeral::u16_to_decimal;
use nvhosts::render::render_site;
use nvhosts::{first_error, run};

fn plain_site(domain: &str) -> Site {
    Site {
        domain: String::from(domain),
        cache_control: None,
        headers: None,
        redirects: None,
        extra: None,
    }
}

#[test]
fn test_run_renders_one_file_per_site() {
    let config = UnverifiedConfig {
        sites: vec![plain_site("a.com"), plain_site("b.com")],
    };
    let files = run(config).expect("two plain sites validate");
    assert_eq!(files.len(), 2);
    assert_eq!(files[0].name, "a.com.conf");
    assert_eq!(files[1].name, "b.com.conf");
    assert!(files[0].content.contains("server_name a.com;"));
    assert!(files[1].content.contains("server_name b.com;"));
    assert!(!files[0].content.contains("b.com"));
    assert!(!files[1].content.contains("a.com"));
}

#[test]
fn test_run_with_empty_site_list_is_a_noop() {
    let config = UnverifiedConfig { sites: vec![] };
    let files = run(config).expect("an empty site list validates");
    assert_eq!(files.len(), 0);
}

#[test]
fn test_run_rejects_invalid_input() {
    let config = UnverifiedConfig {
        sites: vec![plain_site("not a domain")],
    };
    let err = run(config).err().expect("validation must fail");
    assert_eq!(err.violations.len(), 1);
}

#[test]
fn test_filename_appends_conf() {
    assert_eq!(plain_site("a.com").filename(), "a.com.conf");
}

#[test]
fn test_render_site_exact_text() {
    let mut site = plain_site("a.com");
    site.redirects = Some(vec![Redirect {
        from_field: String::from("/x"),
        to: String::from("https://y"),
        status_code: 301,
    }]);
    site.extra = Some(String::from("# note"));
    let expected = "server {\n    listen 80;\n    listen [::]:80;\n    server_name a.com;\n\n    location /x {\n        return 301 https://y;\n    }\n# note\n}\n\nserver {\n    listen 80;\n    listen [::]:80;\n    server_name www.a.com;\n    return 301 $scheme://a.com$request_uri;\n}\n";
    assert_eq!(render_site(&site), expected);
}

#[test]
fn test_render_site_pads_header_names() {
    let mut site = plain_site("a.com");
    site.headers = Some(vec![Header {
        for_field: String::from("/*"),
        values: vec![HeaderValue {
            name: String::from("X-Test"),
            value: String::from("1"),
        }],
    }]);
    let content = render_site(&site);
    let padded = format!("        add_header {:35} \"1\";\n", "X-Test");
    assert!(content.contains(&padded));
    assert!(content.contains("    location /* {\n"));
}

#[test]
fn test_render_site_cache_control_section() {
    let mut site = plain_site("a.com");
    site.cache_control = Some(vec![nvhosts::model::CacheControl {
        mime: String::from("css"),
        value: String::from("max-age=3600"),
    }]);
    let content = render_site(&site);
    assert!(content.contains("    location ~* \\.css$ {\n"));
    assert!(content.contains("        add_header Cache-Control \"max-age=3600\";\n"));
}

#[test]
fn test_render_site_strips_www_for_companion_block() {
    let site = plain_site("www.a.com");
    let content = render_site(&site);
    assert!(content.contains("server_name www.a.com;\n"));
    assert!(content.contains("    server_name a.com;\n"));
}

#[test]
fn test_u16_to_decimal() {
    assert_eq!(u16_to_decimal(0), "0");
    assert_eq!(u16_to_decimal(302), "302");
    assert_eq!(u16_to_decimal(65535), "65535");
}

#[test]
fn test_default_redirect_status_code_is_302() {
    assert_eq!(default_redirect_status_code(), 302);
}

#[test]
fn test_first_error_reports_the_first_failure() {
    let outcomes: Vec<Result<(), String>> = vec![
        Ok(()),
        Err(String::from("first failure")),
        Err(String::from("second failure")),
    ];
    assert_eq!(first_error(&outcomes), Some(String::from("first failure")));
}

#[test]
fn test_first_error_is_none_when_all_units_succeed() {
    let all_ok: Vec<Result<(), String>> = vec![Ok(()), Ok(())];
    assert_eq!(first_error(&all_ok), None);
    assert_eq!(first_error(&Vec::new()), None);
}
