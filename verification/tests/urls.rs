use dvhost::urlfmt::format_server_url;

#[test]
fn empty_url_stays_empty() {
    assert_eq!(format_server_url(""), "");
}

#[test]
fn missing_slash_is_appended() {
    assert_eq!(format_server_url("http://x"), "http://x/");
}

#[test]
fn present_slash_is_kept() {
    assert_eq!(format_server_url("http://x/"), "http://x/");
}

#[test]
fn single_slash_is_kept() {
    assert_eq!(format_server_url("/"), "/");
}
