use proton_downloader::checksum::first_token;

#[test]
fn token_before_double_space_and_filename() {
    let hex = "deadbeef0123456789abcdef";
    let body = format!("{}  myfile.tar.gz\n", hex);
    assert_eq!(first_token(&body), Some(hex.to_string()));
}

#[test]
fn empty_body_has_no_token() {
    assert_eq!(first_token(""), None);
}

#[test]
fn whitespace_only_body_has_no_token() {
    assert_eq!(first_token(" \t\r\n "), None);
}

#[test]
fn leading_whitespace_and_tab_separator() {
    assert_eq!(first_token("\n  abc12\tfile.tar.gz"), Some("abc12".to_string()));
}

#[test]
fn body_without_filename_is_one_token() {
    assert_eq!(first_token("abc"), Some("abc".to_string()));
}

#[test]
fn only_the_first_line_counts() {
    assert_eq!(first_token("aa one.tar.gz\nbb two.tar.gz\n"), Some("aa".to_string()));
}
