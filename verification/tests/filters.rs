use nvhosts::filters::{pad_right, pad_right_default, redirect_domain};

#[test]
fn test_redirect_domain() {
    assert_eq!(redirect_domain("www.mlcdf.fr"), "mlcdf.fr");
    assert_eq!(redirect_domain("mlcdf.fr"), "www.mlcdf.fr");
    assert_eq!(redirect_domain("dev.www.mlcdf.fr"), "www.dev.www.mlcdf.fr");
}

#[test]
fn test_redirect_domain_round_trip() {
    assert_eq!(redirect_domain(&redirect_domain("mlcdf.fr")), "mlcdf.fr");
    assert_eq!(
        redirect_domain(&redirect_domain("dev.example.co.uk")),
        "dev.example.co.uk"
    );
}

#[test]
fn test_redirect_domain_strips_one_prefix_only() {
    assert_eq!(redirect_domain("www.www.a.com"), "www.a.com");
}

#[test]
fn test_pad_right_pads_to_width() {
    assert_eq!(pad_right("abc", 5), "abc  ");
}

#[test]
fn test_pad_right_never_truncates() {
    assert_eq!(pad_right("abcdefgh", 5), "abcdefgh");
}

#[test]
fn test_pad_right_default_width_is_35() {
    let padded = pad_right_default("abc");
    assert_eq!(padded.len(), 35);
    assert_eq!(padded, format!("{:35}", "abc"));
    assert_eq!(pad_right_default(""), " ".repeat(35));
}
