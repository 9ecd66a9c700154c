//! Early-boot runtime of a small RISC-V teaching kernel.
//!
//! The crate takes the machine from firmware hand-off to the point where
//! formatted output, levelled logging and a controlled shutdown are
//! available. Everything here is pure: the console is a byte channel whose
//! traffic is recorded, memory is a byte slice, and the way the machine is
//! finally switched off is left to the caller, who is handed an
//! [`board::ExitStatus`].

use vstd::prelude::*;

pub mod board;
pub mod console;
pub mod fault;
pub mod layout;
pub mod logging;

use vstd::string::StringSliceAdditionalSpecFns;

use crate::board::ExitStatus;
use crate::console::{newline, put_bytes, Arg, Console, LINE_FEED};
use crate::layout::{in_memory, zeroed, MemoryLayout, Segment};
use crate::logging::{logged, output, threshold_for, Level, Logger};

verus! {

/// Clears the BSS segment: writes zero to every byte of `bss`.
///
/// `memory` is the memory that starts at the address `base`; `bss` must lie
/// in it. Bytes outside `bss` keep their value.
pub fn clear_bss(memory: &mut [u8], base: usize, bss: Segment)
    requires
        in_memory(old(memory)@.len(), base as int, bss),
    ensures
        final(memory)@ == zeroed(old(memory)@, base as int, bss),
{
    let mut addr: usize = bss.start;
    while addr < bss.end
        invariant
            in_memory(old(memory)@.len(), base as int, bss),
            bss.start <= addr,
            addr <= bss.end || addr == bss.start,
            memory@.len() == old(memory)@.len(),
            memory@ == zeroed(old(memory)@, base as int, Segment { start: bss.start, end: addr }),
        decreases bss.end - addr,
    {
        memory[addr - base] = 0;
        addr += 1;
    }
    assert(memory@ =~= zeroed(old(memory)@, base as int, bss));
}

/// The line that announces the kernel. It is printed whatever the
/// threshold of the logger is.
pub open spec fn banner() -> Seq<u8> {
    "\x1b[31m[kernel] Hello, world!\x1b[0m".spec_bytes() + newline()
}

/// The message that reports where the code lies.
pub open spec fn text_message(layout: MemoryLayout) -> Seq<Arg<'static>> {
    seq![
        Arg::Text("\x1b[90m[kernel] .text ["),
        Arg::Hex(layout.text.start),
        Arg::Text(", "),
        Arg::Hex(layout.text.end),
        Arg::Text(")\x1b[0m"),
    ]
}

/// The message that reports where the read-only data lie.
pub open spec fn rodata_message(layout: MemoryLayout) -> Seq<Arg<'static>> {
    seq![
        Arg::Text("\x1b[32m[kernel] .rodata ["),
        Arg::Hex(layout.rodata.start),
        Arg::Text(", "),
        Arg::Hex(layout.rodata.end),
        Arg::Text(")\x1b[0m"),
    ]
}

/// The message that reports where the initialised data lie.
pub open spec fn data_message(layout: MemoryLayout) -> Seq<Arg<'static>> {
    seq![
        Arg::Text("\x1b[34m[kernel] .data ["),
        Arg::Hex(layout.data.start),
        Arg::Text(", "),
        Arg::Hex(layout.data.end),
        Arg::Text(")\x1b[0m"),
    ]
}

/// The message that reports the boot stack: its top first, then its lower
/// bound.
pub open spec fn boot_stack_message(layout: MemoryLayout) -> Seq<Arg<'static>> {
    seq![
        Arg::Text("\x1b[93m[kernel] boot_stack top=bottom="),
        Arg::Hex(layout.boot_stack.end),
        Arg::Text(", lower_bound="),
        Arg::Hex(layout.boot_stack.start),
        Arg::Text("\x1b[0m"),
    ]
}

/// The message that reports where the BSS segment lies.
pub open spec fn bss_message(layout: MemoryLayout) -> Seq<Arg<'static>> {
    seq![
        Arg::Text("\x1b[31m[kernel] .bss ["),
        Arg::Hex(layout.bss.start),
        Arg::Text(", "),
        Arg::Hex(layout.bss.end),
        Arg::Text(")\x1b[0m"),
    ]
}

/// The records that the kernel logs while it boots, in the order in which it
/// logs them: one for each level, from the least severe to the most severe,
/// each about another segment.
pub open spec fn boot_records(layout: MemoryLayout) -> Seq<(Level, Seq<Arg<'static>>)> {
    seq![
        (Level::Trace, text_message(layout)),
        (Level::Debug, rodata_message(layout)),
        (Level::Info, data_message(layout)),
        (Level::Warn, boot_stack_message(layout)),
        (Level::Error, bss_message(layout)),
    ]
}

/// What the kernel writes to the console while it boots: the banner, then
/// the line of each boot record that the configured threshold lets through.
pub open spec fn boot_output(layout: MemoryLayout, config: Option<&str>) -> Seq<u8> {
    let threshold = Some(threshold_for(config));
    banner() + output(threshold, Level::Trace, text_message(layout)) + output(
        threshold,
        Level::Debug,
        rodata_message(layout),
    ) + output(threshold, Level::Info, data_message(layout)) + output(
        threshold,
        Level::Warn,
        boot_stack_message(layout),
    ) + output(threshold, Level::Error, bss_message(layout))
}

/// The entry point of the kernel, once a stack exists.
///
/// Clears the BSS segment, initialises the logger from `config`, prints the
/// banner, logs one record of each level, each about another segment of
/// `layout`, and answers with the status with which execution has to end,
/// which is success.
///
/// `memory` is the memory that starts at the address `base`; the BSS segment
/// must lie in it.
pub fn rust_main(
    memory: &mut [u8],
    base: usize,
    layout: &MemoryLayout,
    config: Option<&str>,
    console: &mut Console,
) -> (status: ExitStatus)
    requires
        in_memory(old(memory)@.len(), base as int, layout.bss),
    ensures
        final(memory)@ == zeroed(old(memory)@, base as int, layout.bss),
        final(console)@ == old(console)@ + boot_output(*layout, config),
        status == ExitStatus::Success,
{
    clear_bss(memory, base, layout.bss);
    let mut logger = Logger::new();
    logger.init(config);
    put_bytes(console, "\x1b[31m[kernel] Hello, world!\x1b[0m".as_bytes());
    console.putchar(LINE_FEED);
    let text = [
        Arg::Text("\x1b[90m[kernel] .text ["),
        Arg::Hex(layout.text.start),
        Arg::Text(", "),
        Arg::Hex(layout.text.end),
        Arg::Text(")\x1b[0m"),
    ];
    assert(text@ == text_message(*layout));
    logger.trace(console, text.as_slice());
    let rodata = [
        Arg::Text("\x1b[32m[kernel] .rodata ["),
        Arg::Hex(layout.rodata.start),
        Arg::Text(", "),
        Arg::Hex(layout.rodata.end),
        Arg::Text(")\x1b[0m"),
    ];
    assert(rodata@ == rodata_message(*layout));
    logger.debug(console, rodata.as_slice());
    let data = [
        Arg::Text("\x1b[34m[kernel] .data ["),
        Arg::Hex(layout.data.start),
        Arg::Text(", "),
        Arg::Hex(layout.data.end),
        Arg::Text(")\x1b[0m"),
    ];
    assert(data@ == data_message(*layout));
    logger.info(console, data.as_slice());
    let boot_stack = [
        Arg::Text("\x1b[93m[kernel] boot_stack top=bottom="),
        Arg::Hex(layout.boot_stack.end),
        Arg::Text(", lower_bound="),
        Arg::Hex(layout.boot_stack.start),
        Arg::Text("\x1b[0m"),
    ];
    assert(boot_stack@ == boot_stack_message(*layout));
    logger.warn(console, boot_stack.as_slice());
    let bss = [
        Arg::Text("\x1b[31m[kernel] .bss ["),
        Arg::Hex(layout.bss.start),
        Arg::Text(", "),
        Arg::Hex(layout.bss.end),
        Arg::Text(")\x1b[0m"),
    ];
    assert(bss@ == bss_message(*layout));
    logger.error(console, bss.as_slice());
    ExitStatus::Success
}

/// The boot records reach the console behind the banner, in their order:
/// booting writes what logging them one after another writes.
pub proof fn lemma_boot_output_in_order(before: Seq<u8>, layout: MemoryLayout, config: Option<&str>)
    ensures
        before + boot_output(layout, config) == logged(
            Some(threshold_for(config)),
            before + banner(),
            boot_records(layout),
        ),
{
    reveal_with_fuel(logged, 6);
    let records = boot_records(layout);
    assert(records.drop_last().drop_last().drop_last().drop_last().drop_last().len() == 0);
    assert(records.last() == (Level::Error, bss_message(layout)));
    assert(records.drop_last().last() == (Level::Warn, boot_stack_message(layout)));
    assert(records.drop_last().drop_last().last() == (Level::Info, data_message(layout)));
    assert(records.drop_last().drop_last().drop_last().last() == (
        Level::Debug,
        rodata_message(layout),
    ));
    assert(records.drop_last().drop_last().drop_last().drop_last().last() == (
        Level::Trace,
        text_message(layout),
    ));
}

} // verus!

