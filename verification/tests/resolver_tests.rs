use classgate::resolver::{resolve_container, url_decode};

#[test]
fn decodes_escaped_slashes() {
    assert_eq!(url_decode("%2Fhome%2Fuser%2Fapp.jar"), "/home/user/app.jar");
}

#[test]
fn decodes_plus_and_escaped_plus() {
    assert_eq!(url_decode("a%2Bb"), "a+b");
    assert_eq!(url_decode("a+b%2Bc"), "a b+c");
}

#[test]
fn decodes_lower_and_upper_hex() {
    assert_eq!(url_decode("%2f%2F%41%61"), "//Aa");
    assert_eq!(url_decode("%7e"), "~");
}

#[test]
fn decodes_high_bytes_to_code_points() {
    assert_eq!(url_decode("%E9"), "\u{e9}");
    assert_eq!(url_decode("%ff"), "\u{ff}");
}

#[test]
fn leaves_plain_text_alone() {
    assert_eq!(url_decode(""), "");
    assert_eq!(url_decode("C:/apps/demo.jar"), "C:/apps/demo.jar");
}

#[test]
fn drops_an_escape_cut_short() {
    assert_eq!(url_decode("abc%"), "abc");
    assert_eq!(url_decode("abc%4"), "abc");
}

#[test]
fn keeps_a_malformed_escape_in_part() {
    assert_eq!(url_decode("%zz"), "%z");
    assert_eq!(url_decode("%4gxy"), "%4xxy");
    assert_eq!(url_decode("%g1+"), "%g+ ");
}

#[test]
fn resolves_file_scheme() {
    assert_eq!(
        resolve_container("file:/C:/apps/demo.jar!/BOOT-INF/classes/"),
        Some("C:/apps/demo.jar".to_string())
    );
}

#[test]
fn strips_one_leading_slash() {
    assert_eq!(resolve_container("/C:/apps/demo.jar"), Some("C:/apps/demo.jar".to_string()));
    assert_eq!(resolve_container("//srv/demo.jar"), Some("/srv/demo.jar".to_string()));
}

#[test]
fn keeps_a_slash_that_was_escaped() {
    assert_eq!(
        resolve_container("%2Fhome%2Fuser%2Fapp.jar"),
        Some("/home/user/app.jar".to_string())
    );
}

#[test]
fn leaves_relative_paths() {
    assert_eq!(resolve_container("lib/app.jar"), Some("lib/app.jar".to_string()));
    assert_eq!(resolve_container("my+app.jar"), Some("my app.jar".to_string()));
}

#[test]
fn truncates_behind_the_first_token() {
    assert_eq!(
        resolve_container("file:/opt/old.jar.jar_backup/app.jar"),
        Some("opt/old.jar".to_string())
    );
    assert_eq!(
        resolve_container("file:/opt/outer.jar!/lib/inner.jar!/"),
        Some("opt/outer.jar".to_string())
    );
}

#[test]
fn finds_no_container_without_token() {
    assert_eq!(resolve_container(""), None);
    assert_eq!(resolve_container("file:/opt/classes/"), None);
    assert_eq!(resolve_container("/opt/app.ja"), None);
}

#[test]
fn scheme_and_leading_slash_name_one_container() {
    for path in ["C:/apps/demo.jar", "opt/a%20b.jar!/x", "x", "", "+.jar"] {
        assert_eq!(
            resolve_container(&format!("file:/{}", path)),
            resolve_container(&format!("/{}", path))
        );
    }
}

#[test]
fn encodings_of_one_path_name_one_container() {
    let expected = Some("opt/my app.jar".to_string());
    assert_eq!(resolve_container("file:/opt/my%20app.jar"), expected);
    assert_eq!(resolve_container("file:/opt/my+app.jar"), expected);
    assert_eq!(resolve_container("file:/opt%2Fmy%20app%2Ejar"), expected);
    assert_eq!(resolve_container("/opt/my%20app.jar!/pkg/Foo.class"), expected);
}
