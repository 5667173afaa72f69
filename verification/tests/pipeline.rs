use minifetch::art::get_ascii_art;
use minifetch::distro::detect_distro;
use minifetch::render::render_side_by_side;
use minifetch::run;

#[test]
fn pure_pipeline_is_reproducible() {
    let content = "NAME=Fedora\nID=fedora\n";
    let info = vec![
        "u@".to_string(),
        "h".to_string(),
        "OS: Linux".to_string(),
        "Kernel: 6.1".to_string(),
        "CPU Speed: 2500 MHz".to_string(),
        "Memory: 5859 MB / 7812 MB".to_string(),
    ];
    let first = {
        let distro = detect_distro(Some(content));
        render_side_by_side(get_ascii_art(&distro), &info)
    };
    let second = {
        let distro = detect_distro(Some(content));
        render_side_by_side(get_ascii_art(&distro), &info)
    };
    assert_eq!(first, second);
}

#[test]
fn run_with_unknown_distro_has_six_rows() {
    // No art, six info lines: six rows, each with an empty art column.
    let rows = run(None);
    assert_eq!(rows.len(), 6);
    for row in &rows {
        assert!(row.starts_with(&" ".repeat(31)));
    }
}

#[test]
fn run_with_ubuntu_has_art_rows() {
    let rows = run(Some("ID=ubuntu\n"));
    let art_line_count = get_ascii_art("ubuntu").lines().count();
    assert!(art_line_count > 6);
    assert_eq!(rows.len(), art_line_count);
}
