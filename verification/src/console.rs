//! The console channel: a synchronous, byte-oriented output stream.

use vstd::prelude::*;
use vstd::string::StringSliceAdditionalSpecFns;

verus! {

/// The byte channel towards the firmware console.
///
/// A `Console` records, in order, every byte that has been written to it and
/// not yet taken out by [`Console::take`]. Its view is that sequence of bytes.
pub struct Console {
    sent: Vec<u8>,
}

impl View for Console {
    type V = Seq<u8>;

    closed spec fn view(&self) -> Seq<u8> {
        self.sent@
    }
}

impl Console {
    /// A console on which nothing has been written yet.
    pub fn new() -> (console: Console)
        ensures
            console@ == Seq::<u8>::empty(),
    {
        Console { sent: Vec::new() }
    }

    /// Writes one byte. The byte is on the channel when the call returns.
    pub fn putchar(&mut self, byte: u8)
        ensures
            final(self)@ == old(self)@.push(byte),
    {
        self.sent.push(byte);
    }

    /// The bytes written so far, oldest first.
    pub fn bytes(&self) -> (out: &[u8])
        ensures
            out@ == self@,
    {
        self.sent.as_slice()
    }

    /// Hands out the bytes written so far, oldest first, and leaves the
    /// channel empty, ready for the bytes that follow.
    pub fn take(&mut self) -> (out: Vec<u8>)
        ensures
            out@ == old(self)@,
            final(self)@ == Seq::<u8>::empty(),
    {
        let mut out: Vec<u8> = Vec::new();
        std::mem::swap(&mut self.sent, &mut out);
        out
    }
}

/// One piece of a formatted message: plain text, or a number and the way it
/// is written.
pub enum Arg<'a> {
    /// Text, written as its UTF-8 bytes.
    Text(&'a str),
    /// A number written in hexadecimal: `0x`, then lower-case digits without
    /// leading zeros.
    Hex(usize),
    /// A number written in decimal, without leading zeros.
    Dec(usize),
}

/// ASCII `0`.
pub const DIGIT_ZERO: u8 = 0x30;

/// ASCII `a`.
pub const DIGIT_A: u8 = 0x61;

/// ASCII line feed.
pub const LINE_FEED: u8 = 0x0a;

/// The ASCII digit for `d`: `0` to `9`, then `a` to `f`.
pub open spec fn digit(d: nat) -> u8
    recommends
        d < 16,
{
    if d < 10 {
        (DIGIT_ZERO + d) as u8
    } else {
        (DIGIT_A + d - 10) as u8
    }
}

/// The decimal digits of `n`, most significant first.
pub open spec fn dec_digits(n: nat) -> Seq<u8>
    decreases n,
{
    if n < 10 {
        seq![digit(n)]
    } else {
        dec_digits(n / 10).push(digit(n % 10))
    }
}

/// The hexadecimal digits of `n`, most significant first.
pub open spec fn hex_digits(n: nat) -> Seq<u8>
    decreases n,
{
    if n < 16 {
        seq![digit(n)]
    } else {
        hex_digits(n / 16).push(digit(n % 16))
    }
}

/// The line feed that ends a line.
pub open spec fn newline() -> Seq<u8> {
    seq![LINE_FEED]
}

/// The bytes that one piece of a message puts on the console.
pub open spec fn render_arg(arg: Arg) -> Seq<u8> {
    match arg {
        Arg::Text(text) => text.spec_bytes(),
        Arg::Hex(n) => "0x".spec_bytes() + hex_digits(n as nat),
        Arg::Dec(n) => dec_digits(n as nat),
    }
}

/// The bytes that a message puts on the console: those of its pieces, one
/// piece after the other.
pub open spec fn render(args: Seq<Arg>) -> Seq<u8>
    decreases args.len(),
{
    if args.len() == 0 {
        Seq::empty()
    } else {
        render(args.drop_last()) + render_arg(args.last())
    }
}

fn digit_of(d: usize) -> (byte: u8)
    requires
        d < 16,
    ensures
        byte == digit(d as nat),
{
    if d < 10 {
        DIGIT_ZERO + d as u8
    } else {
        DIGIT_A + (d - 10) as u8
    }
}

pub(crate) fn put_bytes(console: &mut Console, bytes: &[u8])
    ensures
        final(console)@ == old(console)@ + bytes@,
{
    let mut i: usize = 0;
    while i < bytes.len()
        invariant
            i <= bytes.len(),
            console@ == old(console)@ + bytes@.take(i as int),
        decreases bytes.len() - i,
    {
        console.putchar(bytes[i]);
        assert(bytes@.take(i + 1) == bytes@.take(i as int).push(bytes@[i as int]));
        i += 1;
    }
    assert(bytes@.take(i as int) == bytes@);
}

pub(crate) fn put_dec(console: &mut Console, n: usize)
    ensures
        final(console)@ == old(console)@ + dec_digits(n as nat),
    decreases n,
{
    if n >= 10 {
        put_dec(console, n / 10);
    }
    console.putchar(digit_of(n % 10));
}

pub(crate) fn put_hex(console: &mut Console, n: usize)
    ensures
        final(console)@ == old(console)@ + hex_digits(n as nat),
    decreases n,
{
    if n >= 16 {
        put_hex(console, n / 16);
    }
    console.putchar(digit_of(n % 16));
}

fn put_arg(console: &mut Console, arg: &Arg<'_>)
    ensures
        final(console)@ == old(console)@ + render_arg(*arg),
{
    match arg {
        Arg::Text(text) => {
            put_bytes(console, text.as_bytes());
        },
        Arg::Hex(n) => {
            put_bytes(console, "0x".as_bytes());
            put_hex(console, *n);
        },
        Arg::Dec(n) => {
            put_dec(console, *n);
        },
    }
}

/// Prints a formatted message: renders `args` and writes the bytes to the
/// console, one at a time and in order.
pub fn print(console: &mut Console, args: &[Arg<'_>])
    ensures
        final(console)@ == old(console)@ + render(args@),
{
    let mut i: usize = 0;
    while i < args.len()
        invariant
            i <= args.len(),
            console@ == old(console)@ + render(args@.take(i as int)),
        decreases args.len() - i,
    {
        put_arg(console, &args[i]);
        proof {
            let next = args@.take(i + 1);
            assert(next.drop_last() == args@.take(i as int));
            assert(next.last() == args@[i as int]);
        }
        i += 1;
    }
    assert(args@.take(i as int) == args@);
}

/// Prints a formatted message as [`print`] does, and ends the line.
pub fn println(console: &mut Console, args: &[Arg<'_>])
    ensures
        final(console)@ == old(console)@ + render(args@) + newline(),
{
    print(console, args);
    console.putchar(LINE_FEED);
}

} // verus!
