use minifetch::distro::detect_distro;

#[test]
fn detect_ubuntu_id_line() {
    let content = "NAME=Ubuntu\nVERSION=22.04\nID=ubuntu\n";
    assert_eq!(detect_distro(Some(content)), "ubuntu");
}

#[test]
fn detect_no_id_line_is_unknown() {
    let content = "NAME=Something\nVERSION=1.0\n";
    assert_eq!(detect_distro(Some(content)), "unknown");
}

#[test]
fn detect_missing_file_is_unknown() {
    assert_eq!(detect_distro(None), "unknown");
}

#[test]
fn detect_empty_content_is_unknown() {
    assert_eq!(detect_distro(Some("")), "unknown");
}

#[test]
fn detect_first_id_line_wins() {
    let content = "ID=arch\nID=fedora\n";
    assert_eq!(detect_distro(Some(content)), "arch");
}

#[test]
fn detect_value_stops_at_second_equals() {
    assert_eq!(detect_distro(Some("ID=a=b\n")), "a");
}

#[test]
fn detect_empty_value() {
    assert_eq!(detect_distro(Some("ID=\n")), "");
}

#[test]
fn detect_id_like_is_not_id() {
    let content = "ID_LIKE=debian\nID=fedora\n";
    assert_eq!(detect_distro(Some(content)), "fedora");
}

#[test]
fn detect_crlf_line_ending() {
    assert_eq!(detect_distro(Some("ID=fedora\r\n")), "fedora");
}

#[test]
fn detect_no_trailing_newline() {
    assert_eq!(detect_distro(Some("ID=ubuntu")), "ubuntu");
}
