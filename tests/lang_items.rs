use os::lang_items::panic_report;

#[test]
fn located_panic_report() {
    let r = panic_report(Some(("foo.rs", 42)), "bad state");
    assert_eq!(r, "[kernel] Panicked at foo.rs:42 bad state");
    let file = r.find("foo.rs").unwrap();
    let line = r.find("42").unwrap();
    let message = r.find("bad state").unwrap();
    assert!(file < line && line < message);
}

#[test]
fn unlocated_panic_report() {
    let r = panic_report(None, "out of memory");
    assert_eq!(r, "[kernel] Panicked: out of memory");
    assert_ne!(r, panic_report(Some(("", 0)), "out of memory"));
}

#[test]
fn panic_report_line_numbers() {
    assert_eq!(panic_report(Some(("a.rs", 0)), "m"), "[kernel] Panicked at a.rs:0 m");
    assert_eq!(panic_report(Some(("a.rs", 7)), "m"), "[kernel] Panicked at a.rs:7 m");
    assert_eq!(panic_report(Some(("a.rs", 1009)), "m"), "[kernel] Panicked at a.rs:1009 m");
    assert_eq!(
        panic_report(Some(("a.rs", u32::MAX)), "m"),
        "[kernel] Panicked at a.rs:4294967295 m"
    );
}

#[test]
fn panic_report_empty_message() {
    assert_eq!(panic_report(None, ""), "[kernel] Panicked: ");
    assert_eq!(panic_report(Some(("src/main.rs", 12)), ""), "[kernel] Panicked at src/main.rs:12 ");
}
