use minifetch::info::{format_info_lines, get_system_info};

#[test]
fn info_six_lines_when_every_query_fails() {
    let lines = format_info_lines("u".to_string(), "h".to_string(), None, None, None, None);
    assert_eq!(
        lines,
        vec![
            "u@".to_string(),
            "h".to_string(),
            "OS: Unknown".to_string(),
            "Kernel: Unknown".to_string(),
            "CPU Speed: Unknown".to_string(),
            "Memory: Unknown".to_string(),
        ]
    );
}

#[test]
fn info_six_lines_when_every_query_succeeds() {
    let lines = format_info_lines(
        "alice".to_string(),
        "box".to_string(),
        Some("Linux".to_string()),
        Some("6.1.0-generic".to_string()),
        Some(2500),
        Some((8000000, 2000000)),
    );
    assert_eq!(
        lines,
        vec![
            "alice@".to_string(),
            "box".to_string(),
            "OS: Linux".to_string(),
            "Kernel: 6.1.0-generic".to_string(),
            "CPU Speed: 2500 MHz".to_string(),
            "Memory: 5859 MB / 7812 MB".to_string(),
        ]
    );
}

#[test]
fn info_independent_failures_keep_order() {
    let lines = format_info_lines(
        "u".to_string(),
        "h".to_string(),
        None,
        Some("5.15".to_string()),
        None,
        Some((2048, 1024)),
    );
    assert_eq!(lines.len(), 6);
    assert_eq!(lines[2], "OS: Unknown");
    assert_eq!(lines[3], "Kernel: 5.15");
    assert_eq!(lines[4], "CPU Speed: Unknown");
    assert_eq!(lines[5], "Memory: 1 MB / 2 MB");
}

#[test]
fn memory_line_integer_division() {
    let lines = format_info_lines(
        "u".to_string(),
        "h".to_string(),
        None,
        None,
        None,
        Some((8000000, 2000000)),
    );
    assert_eq!(lines[5], "Memory: 5859 MB / 7812 MB");
}

#[test]
fn memory_line_anomalous_avail_above_total() {
    let lines =
        format_info_lines("u".to_string(), "h".to_string(), None, None, None, Some((100, 200)));
    assert_eq!(lines[5], "Memory: Unknown");
}

#[test]
fn memory_line_zero_used() {
    let lines =
        format_info_lines("u".to_string(), "h".to_string(), None, None, None, Some((2048, 2048)));
    assert_eq!(lines[5], "Memory: 0 MB / 2 MB");
}

#[test]
fn cpu_line_zero_mhz() {
    let lines = format_info_lines("u".to_string(), "h".to_string(), None, None, Some(0), None);
    assert_eq!(lines[4], "CPU Speed: 0 MHz");
}

#[test]
fn cpu_line_large_value() {
    let lines =
        format_info_lines("u".to_string(), "h".to_string(), None, None, Some(1234567890), None);
    assert_eq!(lines[4], "CPU Speed: 1234567890 MHz");
}

#[test]
fn system_info_returns_six_lines() {
    let lines = get_system_info();
    assert_eq!(lines.len(), 6);
}
