use early_boot::board::ExitStatus;
use early_boot::console::Console;
use early_boot::fault::{handle_panic, Location, PanicReport};

#[test]
fn panic_with_a_location_names_file_line_and_message() {
    let mut console = Console::new();
    let report = PanicReport {
        location: Some(Location { file: "src/main.rs", line: 42 }),
        message: "index out of bounds",
    };
    let status = handle_panic(&mut console, &report);
    assert_eq!(status, ExitStatus::Failure);
    assert_eq!(console.bytes(), b"panicked at src/main.rs:42 index out of bounds\n");
}

#[test]
fn panic_without_a_location_gives_the_message_alone() {
    let mut console = Console::new();
    let report = PanicReport { location: None, message: "unreachable code" };
    let status = handle_panic(&mut console, &report);
    assert_eq!(status, ExitStatus::Failure);
    assert_eq!(console.bytes(), b"panicked: unreachable code\n");
}

#[test]
fn panic_line_follows_what_was_printed_before() {
    let mut console = Console::new();
    console.putchar(b'>');
    let report = PanicReport {
        location: Some(Location { file: "a.rs", line: 0 }),
        message: "",
    };
    assert_eq!(handle_panic(&mut console, &report), ExitStatus::Failure);
    assert_eq!(console.bytes(), b">panicked at a.rs:0 \n");
}

#[test]
fn panic_line_holds_the_largest_line_number() {
    let mut console = Console::new();
    let report = PanicReport {
        location: Some(Location { file: "src/lang_items.rs", line: u32::MAX }),
        message: "assertion failed: `left == right`",
    };
    handle_panic(&mut console, &report);
    let out = String::from_utf8(console.take()).unwrap();
    assert_eq!(out, "panicked at src/lang_items.rs:4294967295 assertion failed: `left == right`\n");
    assert!(out.contains("src/lang_items.rs:4294967295"));
    assert!(out.contains("assertion failed: `left == right`"));
}

#[test]
fn panic_always_ends_in_failure() {
    for message in ["", "x", "a longer message with words"] {
        let mut console = Console::new();
        let report = PanicReport { location: None, message };
        assert_eq!(handle_panic(&mut console, &report), ExitStatus::Failure);
        assert_ne!(handle_panic(&mut console, &report), ExitStatus::Success);
    }
}
