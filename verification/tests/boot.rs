use early_boot::board::ExitStatus;
use early_boot::console::Console;
use early_boot::layout::{MemoryLayout, Segment};
use early_boot::rust_main;

const BASE: usize = 0x8020_0000;

fn layout() -> MemoryLayout {
    MemoryLayout {
        text: Segment { start: 0x8020_0000, end: 0x8020_2000 },
        rodata: Segment { start: 0x8020_2000, end: 0x8020_3000 },
        data: Segment { start: 0x8020_3000, end: 0x8020_4000 },
        boot_stack: Segment { start: 0x8020_4000, end: 0x8021_4000 },
        bss: Segment { start: 0x8021_4000, end: 0x8021_5000 },
    }
}

fn boot(config: Option<&str>) -> (Vec<u8>, String, ExitStatus) {
    let mut memory = vec![0xa5u8; 0x15100];
    let mut console = Console::new();
    let status = rust_main(&mut memory, BASE, &layout(), config, &mut console);
    (memory, String::from_utf8(console.take()).unwrap(), status)
}

const BANNER: &str = "\x1b[31m[kernel] Hello, world!\x1b[0m\n";
const TRACE: &str =
    "\x1b[90m[TRACE] \x1b[90m[kernel] .text [0x80200000, 0x80202000)\x1b[0m\x1b[0m\n";
const DEBUG: &str =
    "\x1b[32m[DEBUG] \x1b[32m[kernel] .rodata [0x80202000, 0x80203000)\x1b[0m\x1b[0m\n";
const INFO: &str =
    "\x1b[34m[ INFO] \x1b[34m[kernel] .data [0x80203000, 0x80204000)\x1b[0m\x1b[0m\n";
const WARN: &str = "\x1b[93m[ WARN] \x1b[93m[kernel] boot_stack top=bottom=0x80214000, \
                    lower_bound=0x80204000\x1b[0m\x1b[0m\n";
const ERROR: &str =
    "\x1b[31m[ERROR] \x1b[31m[kernel] .bss [0x80214000, 0x80215000)\x1b[0m\x1b[0m\n";

#[test]
fn boot_without_configuration_prints_the_banner_and_five_lines() {
    let (_, out, status) = boot(None);
    assert_eq!(status, ExitStatus::Success);
    assert_eq!(out, [BANNER, TRACE, DEBUG, INFO, WARN, ERROR].concat());
    let lines: Vec<&str> = out.lines().collect();
    assert_eq!(lines.len(), 6);
    assert!(lines[0].contains("Hello, world!"));
    let tags = ["[TRACE]", "[DEBUG]", "[ INFO]", "[ WARN]", "[ERROR]"];
    for (line, tag) in lines[1..].iter().zip(tags) {
        assert!(line.contains(tag));
        assert_eq!(line.matches("0x").count(), 2);
    }
}

#[test]
fn boot_clears_the_bss_segment_and_nothing_else() {
    let (memory, _, _) = boot(None);
    let bss = layout().bss;
    for (i, byte) in memory.iter().enumerate() {
        let addr = BASE + i;
        if bss.start <= addr && addr < bss.end {
            assert_eq!(*byte, 0);
        } else {
            assert_eq!(*byte, 0xa5);
        }
    }
}

#[test]
fn boot_honours_the_configured_threshold() {
    assert_eq!(boot(Some("TRACE")).1, [BANNER, TRACE, DEBUG, INFO, WARN, ERROR].concat());
    assert_eq!(boot(Some("DEBUG")).1, [BANNER, DEBUG, INFO, WARN, ERROR].concat());
    assert_eq!(boot(Some("INFO")).1, [BANNER, INFO, WARN, ERROR].concat());
    assert_eq!(boot(Some("WARN")).1, [BANNER, WARN, ERROR].concat());
    assert_eq!(boot(Some("ERROR")).1, [BANNER, ERROR].concat());
}

#[test]
fn boot_with_an_unrecognised_configuration_is_as_verbose_as_can_be() {
    let verbose = boot(None).1;
    for config in ["", "info", "OFF", "everything"] {
        let (_, out, status) = boot(Some(config));
        assert_eq!(out, verbose);
        assert_eq!(status, ExitStatus::Success);
    }
}

#[test]
fn boot_always_ends_in_success() {
    for config in [None, Some("ERROR"), Some("WARN"), Some("bogus")] {
        assert_eq!(boot(config).2, ExitStatus::Success);
    }
}

#[test]
fn boot_writes_behind_what_is_on_the_console() {
    let mut memory = vec![1u8; 4];
    let mut console = Console::new();
    console.putchar(b'!');
    let small = MemoryLayout {
        text: Segment { start: 0, end: 0 },
        rodata: Segment { start: 0, end: 0 },
        data: Segment { start: 0, end: 0 },
        boot_stack: Segment { start: 0, end: 0 },
        bss: Segment { start: 1, end: 3 },
    };
    let status = rust_main(&mut memory, 0, &small, Some("ERROR"), &mut console);
    assert_eq!(status, ExitStatus::Success);
    assert_eq!(memory, vec![1u8, 0, 0, 1]);
    assert_eq!(
        String::from_utf8(console.take()).unwrap(),
        format!("!{}\x1b[31m[ERROR] \x1b[31m[kernel] .bss [0x1, 0x3)\x1b[0m\x1b[0m\n", BANNER)
    );
}
