use invaders::debugger::Counter;

#[test]
fn breakpoint_command() {
    let mut c = Counter::new();
    assert!(c.valid(0));
    c.command("  1a2B \n");
    assert_eq!(c.line, Some(0x1A2B));
    assert!(c.valid(0x1A2B));
    assert!(!c.valid(0x1A2C));
}

#[test]
fn step_count_command() {
    let mut c = Counter::new();
    c.command(": 10\n");
    assert_eq!(c.line, None);
    assert_eq!(c.add, 16);
    assert!(!c.valid(0));
    for _ in 0..16 {
        c.decrement();
    }
    assert!(c.valid(0));
    c.decrement();
    assert_eq!(c.add, 0);
}

#[test]
fn other_commands_clear() {
    let mut c = Counter::new();
    c.command("100");
    c.command("next");
    assert_eq!(c, Counter { line: None, add: 0 });
    c.command(":zz");
    assert_eq!(c.add, 0);
}

#[test]
fn apply_parsed_command() {
    let mut c = Counter::new();
    c.apply(None, Some(5));
    assert_eq!(c, Counter { line: None, add: 5 });
    c.apply(Some(0x20), Some(9));
    assert_eq!(c, Counter { line: Some(0x20), add: 5 });
    c.apply(None, None);
    assert_eq!(c, Counter { line: None, add: 0 });
}

#[test]
fn hex_forms() {
    let mut c = Counter::new();
    c.command("+ff");
    assert_eq!(c.line, Some(0xFF));
    c.command("+");
    assert_eq!(c.line, None);
    c.command("-1");
    assert_eq!(c.line, None);
    c.command("1ffffffffffffffffffff");
    assert_eq!(c.line, None);
    c.command(":+A\r\n");
    assert_eq!(c, Counter { line: None, add: 10 });
    c.command("\t:A");
    assert_eq!(c, Counter { line: None, add: 0 });
}

#[test]
fn tracing_while_counting_or_free() {
    let mut c = Counter::new();
    assert!(c.tracing());
    c.command(":2");
    assert!(c.tracing());
    c.decrement();
    c.decrement();
    assert!(c.tracing());
    c.command("40");
    assert!(!c.tracing());
}
