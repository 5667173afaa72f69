use minifetch::art::get_ascii_art;

#[test]
fn art_supported_distros_nonempty() {
    assert!(!get_ascii_art("ubuntu").is_empty());
    assert!(!get_ascii_art("arch").is_empty());
    assert!(!get_ascii_art("fedora").is_empty());
}

#[test]
fn art_is_stable_across_calls() {
    assert_eq!(get_ascii_art("ubuntu"), get_ascii_art("ubuntu"));
    assert_eq!(get_ascii_art("arch"), get_ascii_art("arch"));
    assert_eq!(get_ascii_art("fedora"), get_ascii_art("fedora"));
}

#[test]
fn art_unrecognized_is_empty() {
    assert_eq!(get_ascii_art("unknown"), "");
    assert_eq!(get_ascii_art(""), "");
    assert_eq!(get_ascii_art("debian"), "");
}

#[test]
fn art_match_is_case_sensitive() {
    assert_eq!(get_ascii_art("Ubuntu"), "");
    assert_eq!(get_ascii_art("ARCH"), "");
}

#[test]
fn art_blocks_differ_per_distro() {
    assert_ne!(get_ascii_art("ubuntu"), get_ascii_art("arch"));
    assert_ne!(get_ascii_art("arch"), get_ascii_art("fedora"));
    assert_ne!(get_ascii_art("ubuntu"), get_ascii_art("fedora"));
}
