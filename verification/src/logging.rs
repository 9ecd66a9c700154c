//! The levelled logger: severity filtering and colourised lines on top of
//! the console.

use vstd::prelude::*;
use vstd::string::StringSliceAdditionalSpecFns;
use vstd::utf8::{encode_utf8, encode_utf8_decode_utf8, is_ascii_chars, is_ascii_chars_encode_utf8};

use crate::console::{
    dec_digits, newline, print, put_bytes, put_dec, render, Arg, Console, LINE_FEED,
};

verus! {

/// The severity of a log record, from the most to the least severe.
#[derive(Clone, Copy, Debug, PartialEq, Eq, Structural)]
pub enum Level {
    Error,
    Warn,
    Info,
    Debug,
    Trace,
}

impl Level {
    /// The place of the level in the order of severities: 1 for the most
    /// severe, 5 for the least severe.
    pub open spec fn severity(self) -> nat {
        match self {
            Level::Error => 1,
            Level::Warn => 2,
            Level::Info => 3,
            Level::Debug => 4,
            Level::Trace => 5,
        }
    }

    /// The number of the colour in which a line of this level is shown: red
    /// for errors, bright yellow for warnings, blue for information, green
    /// for debugging, grey for traces.
    pub open spec fn color(self) -> nat {
        match self {
            Level::Error => 31,
            Level::Warn => 93,
            Level::Info => 34,
            Level::Debug => 32,
            Level::Trace => 90,
        }
    }

    /// The name of the level, as it is written in a log line and in the
    /// configuration.
    pub open spec fn name(self) -> Seq<char> {
        match self {
            Level::Error => "ERROR"@,
            Level::Warn => "WARN"@,
            Level::Info => "INFO"@,
            Level::Debug => "DEBUG"@,
            Level::Trace => "TRACE"@,
        }
    }
}

/// The width of the column that holds the level's name in a log line.
pub const TAG_WIDTH: usize = 5;

/// ASCII space.
pub const SPACE: u8 = 0x20;

/// The level whose name is `name`, if there is one. Names are compared
/// letter for letter, so `error` names no level.
pub open spec fn level_named(name: Seq<char>) -> Option<Level> {
    if name == Level::Error.name() {
        Some(Level::Error)
    } else if name == Level::Warn.name() {
        Some(Level::Warn)
    } else if name == Level::Info.name() {
        Some(Level::Info)
    } else if name == Level::Debug.name() {
        Some(Level::Debug)
    } else if name == Level::Trace.name() {
        Some(Level::Trace)
    } else {
        None
    }
}

/// The threshold that a configuration value asks for: the level that it
/// names, and `Trace`, which lets every record through, where it is absent
/// or names none.
pub open spec fn threshold_for(config: Option<&str>) -> Level {
    match config {
        Some(name) => match level_named(name@) {
            Some(level) => level,
            None => Level::Trace,
        },
        None => Level::Trace,
    }
}

/// Whether a record of severity `level` is let through by `threshold`.
/// Without a threshold, that is before the logger is initialised, nothing is.
pub open spec fn passes(threshold: Option<Level>, level: Level) -> bool {
    match threshold {
        Some(least) => level.severity() <= least.severity(),
        None => false,
    }
}

/// The name of the level, moved to the right of a column of `TAG_WIDTH`
/// characters.
pub open spec fn tag(level: Level) -> Seq<u8> {
    Seq::new((TAG_WIDTH - level.name().len()) as nat, |i: int| SPACE) + encode_utf8(level.name())
}

/// The line that a record of severity `level` with the given message puts on
/// the console: the colour of the level is switched on, the name of the level
/// follows in square brackets, then the message; the colour is switched off
/// and the line ends.
pub open spec fn line(level: Level, message: Seq<Arg>) -> Seq<u8> {
    "\x1b[".spec_bytes() + dec_digits(level.color()) + "m[".spec_bytes() + tag(level)
        + "] ".spec_bytes() + render(message) + "\x1b[0m".spec_bytes() + newline()
}

/// What a logging call puts on the console under `threshold`: the record's
/// line where the record passes, and nothing where it does not.
pub open spec fn output(threshold: Option<Level>, level: Level, message: Seq<Arg>) -> Seq<u8> {
    if passes(threshold, level) {
        line(level, message)
    } else {
        Seq::empty()
    }
}

/// The name of a level, taken from `log::Level::as_str`.
///
/// Trusted: the names that the `log` crate gives its five levels are
/// `ERROR`, `WARN`, `INFO`, `DEBUG` and `TRACE`.
#[verifier::external_body]
fn level_name(level: Level) -> (name: &'static str)
    ensures
        name@ == level.name(),
{
    let level = match level {
        Level::Error => log::Level::Error,
        Level::Warn => log::Level::Warn,
        Level::Info => log::Level::Info,
        Level::Debug => log::Level::Debug,
        Level::Trace => log::Level::Trace,
    };
    level.as_str()
}

/// Whether a level passes a threshold, decided by the `log` crate's
/// comparison of a `log::Level` with a `log::LevelFilter`.
///
/// Trusted: that comparison orders the two by their numbers, which are 1 for
/// `Error` up to 5 for `Trace` on both sides.
#[verifier::external_body]
fn level_passes(level: Level, threshold: Level) -> (passes: bool)
    ensures
        passes == (level.severity() <= threshold.severity()),
{
    let level = match level {
        Level::Error => log::Level::Error,
        Level::Warn => log::Level::Warn,
        Level::Info => log::Level::Info,
        Level::Debug => log::Level::Debug,
        Level::Trace => log::Level::Trace,
    };
    let filter = match threshold {
        Level::Error => log::LevelFilter::Error,
        Level::Warn => log::LevelFilter::Warn,
        Level::Info => log::LevelFilter::Info,
        Level::Debug => log::LevelFilter::Debug,
        Level::Trace => log::LevelFilter::Trace,
    };
    level <= filter
}

/// The names of the levels are ASCII, at most five characters long, and
/// differ from one another.
pub proof fn lemma_level_names(level: Level)
    ensures
        is_ascii_chars(level.name()),
        1 <= level.name().len() <= 5,
        encode_utf8(level.name()).len() == level.name().len(),
        forall|other: Level| other.name() == level.name() ==> other == level,
{
    reveal_strlit("ERROR");
    reveal_strlit("WARN");
    reveal_strlit("INFO");
    reveal_strlit("DEBUG");
    reveal_strlit("TRACE");
    is_ascii_chars_encode_utf8(level.name());
    assert forall|other: Level| other.name() == level.name() implies other == level by {
        if other != level {
            assert(other.name().len() != level.name().len() || other.name()[0] != level.name()[0]);
        }
    }
}

/// Whether two strings hold the same text.
fn same_text(a: &str, b: &str) -> (same: bool)
    ensures
        same == (a@ == b@),
{
    let x = a.as_bytes();
    let y = b.as_bytes();
    if x.len() != y.len() {
        return false;
    }
    let mut i: usize = 0;
    while i < x.len()
        invariant
            i <= x.len(),
            x.len() == y.len(),
            x@ == a.spec_bytes(),
            y@ == b.spec_bytes(),
            x@.take(i as int) == y@.take(i as int),
        decreases x.len() - i,
    {
        if x[i] != y[i] {
            return false;
        }
        assert(x@.take(i + 1) == x@.take(i as int).push(x@[i as int]));
        assert(y@.take(i + 1) == y@.take(i as int).push(y@[i as int]));
        i += 1;
    }
    assert(x@.take(i as int) == x@);
    assert(y@.take(i as int) == y@);
    proof {
        encode_utf8_decode_utf8(a@);
        encode_utf8_decode_utf8(b@);
    }
    true
}

impl Level {
    /// The number of the level's colour.
    pub fn color_code(self) -> (code: usize)
        ensures
            code == self.color(),
    {
        match self {
            Level::Error => 31,
            Level::Warn => 93,
            Level::Info => 34,
            Level::Debug => 32,
            Level::Trace => 90,
        }
    }

    /// The name of the level.
    pub fn as_str(self) -> (name: &'static str)
        ensures
            name@ == self.name(),
    {
        level_name(self)
    }

    /// The level that `name` names, if it names one.
    pub fn parse(name: &str) -> (level: Option<Level>)
        ensures
            level == level_named(name@),
    {
        if same_text(name, level_name(Level::Error)) {
            Some(Level::Error)
        } else if same_text(name, level_name(Level::Warn)) {
            Some(Level::Warn)
        } else if same_text(name, level_name(Level::Info)) {
            Some(Level::Info)
        } else if same_text(name, level_name(Level::Debug)) {
            Some(Level::Debug)
        } else if same_text(name, level_name(Level::Trace)) {
            Some(Level::Trace)
        } else {
            None
        }
    }

    /// The threshold that a configuration value asks for.
    pub fn threshold(config: Option<&str>) -> (level: Level)
        ensures
            level == threshold_for(config),
    {
        match config {
            Some(name) => match Level::parse(name) {
                Some(level) => level,
                None => Level::Trace,
            },
            None => Level::Trace,
        }
    }
}

/// A log record: a severity and a formatted message. It lives for one logging
/// call.
pub struct Record<'a> {
    pub level: Level,
    pub args: &'a [Arg<'a>],
}

impl<'a> View for Record<'a> {
    type V = (Level, Seq<Arg<'a>>);

    open spec fn view(&self) -> (Level, Seq<Arg<'a>>) {
        (self.level, self.args@)
    }
}

/// The logger. It starts uninitialised and lets nothing through; it is
/// initialised once, with a threshold that stays for good.
pub struct Logger {
    threshold: Option<Level>,
}

fn put_tag(console: &mut Console, level: Level)
    ensures
        final(console)@ == old(console)@ + tag(level),
{
    let name = level_name(level).as_bytes();
    proof {
        lemma_level_names(level);
    }
    let mut pad: usize = TAG_WIDTH - name.len();
    let ghost width = pad;
    while pad > 0
        invariant
            pad <= width,
            console@ == old(console)@ + Seq::new((width - pad) as nat, |i: int| SPACE),
        decreases pad,
    {
        console.putchar(SPACE);
        pad -= 1;
    }
    put_bytes(console, name);
}

impl Logger {
    /// The threshold, once the logger is initialised.
    pub closed spec fn threshold(&self) -> Option<Level> {
        self.threshold
    }

    /// Whether the logger has been initialised.
    pub open spec fn is_initialized(&self) -> bool {
        self.threshold() is Some
    }

    /// Whether the logger lets a record of severity `level` through.
    pub open spec fn emits(&self, level: Level) -> bool {
        passes(self.threshold(), level)
    }

    /// An uninitialised logger.
    pub fn new() -> (logger: Logger)
        ensures
            logger.threshold() is None,
    {
        Logger { threshold: None }
    }

    /// Initialises the logger with the threshold that `config` asks for, and
    /// says whether it did. A logger that is initialised already stays as it
    /// is.
    pub fn init(&mut self, config: Option<&str>) -> (installed: bool)
        ensures
            installed == !old(self).is_initialized(),
            installed ==> final(self).threshold() == Some(threshold_for(config)),
            !installed ==> final(self).threshold() == old(self).threshold(),
    {
        match self.threshold {
            Some(_) => false,
            None => {
                self.threshold = Some(Level::threshold(config));
                true
            },
        }
    }

    /// The threshold, once the logger is initialised.
    pub fn max_level(&self) -> (threshold: Option<Level>)
        ensures
            threshold == self.threshold(),
    {
        self.threshold
    }

    /// Whether the logger lets a record of severity `level` through.
    pub fn enabled(&self, level: Level) -> (yes: bool)
        ensures
            yes == self.emits(level),
    {
        match self.threshold {
            Some(threshold) => level_passes(level, threshold),
            None => false,
        }
    }

    /// Logs a record: writes its line to the console if the logger lets it
    /// through, and does nothing otherwise.
    pub fn log(&self, console: &mut Console, record: &Record<'_>)
        ensures
            final(console)@ == old(console)@ + output(self.threshold(), record@.0, record@.1),
    {
        if self.enabled(record.level) {
            put_bytes(console, "\x1b[".as_bytes());
            put_dec(console, record.level.color_code());
            put_bytes(console, "m[".as_bytes());
            put_tag(console, record.level);
            put_bytes(console, "] ".as_bytes());
            print(console, record.args);
            put_bytes(console, "\x1b[0m".as_bytes());
            console.putchar(LINE_FEED);
        }
    }

    /// Logs an error.
    pub fn error(&self, console: &mut Console, args: &[Arg<'_>])
        ensures
            final(console)@ == old(console)@ + output(self.threshold(), Level::Error, args@),
    {
        self.log(console, &Record { level: Level::Error, args });
    }

    /// Logs a warning.
    pub fn warn(&self, console: &mut Console, args: &[Arg<'_>])
        ensures
            final(console)@ == old(console)@ + output(self.threshold(), Level::Warn, args@),
    {
        self.log(console, &Record { level: Level::Warn, args });
    }

    /// Logs a piece of information.
    pub fn info(&self, console: &mut Console, args: &[Arg<'_>])
        ensures
            final(console)@ == old(console)@ + output(self.threshold(), Level::Info, args@),
    {
        self.log(console, &Record { level: Level::Info, args });
    }

    /// Logs a debugging message.
    pub fn debug(&self, console: &mut Console, args: &[Arg<'_>])
        ensures
            final(console)@ == old(console)@ + output(self.threshold(), Level::Debug, args@),
    {
        self.log(console, &Record { level: Level::Debug, args });
    }

    /// Logs a trace.
    pub fn trace(&self, console: &mut Console, args: &[Arg<'_>])
        ensures
            final(console)@ == old(console)@ + output(self.threshold(), Level::Trace, args@),
    {
        self.log(console, &Record { level: Level::Trace, args });
    }
}

/// The console after `records` have been logged under `threshold`, one after
/// another and in their order, on a console that held `before`.
pub open spec fn logged(
    threshold: Option<Level>,
    before: Seq<u8>,
    records: Seq<(Level, Seq<Arg>)>,
) -> Seq<u8>
    decreases records.len(),
{
    if records.len() == 0 {
        before
    } else {
        logged(threshold, before, records.drop_last()) + output(
            threshold,
            records.last().0,
            records.last().1,
        )
    }
}

/// A stricter threshold lets through no more than a laxer one does, level by
/// level: if a record of some severity is suppressed, so is every record
/// that is no more severe; if a record is emitted, so is every record that is
/// at least as severe. A suppressed record leaves the console untouched, an
/// emitted one never does.
pub proof fn lemma_threshold_monotonic(
    logger: Logger,
    severe: Level,
    mild: Level,
    message: Seq<Arg>,
)
    requires
        severe.severity() <= mild.severity(),
    ensures
        !logger.emits(severe) ==> !logger.emits(mild),
        logger.emits(mild) ==> logger.emits(severe),
        logger.emits(severe) <==> output(logger.threshold(), severe, message).len() > 0,
        logger.emits(mild) <==> output(logger.threshold(), mild, message).len() > 0,
{
}

/// A configuration value that is absent, or that is none of the five level
/// names, gives the threshold `Trace`, and a logger with that threshold lets
/// records of all five levels through.
pub proof fn lemma_unrecognised_config_is_permissive(config: Option<&str>, logger: Logger)
    requires
        config matches Some(name) ==> forall|level: Level| name@ != level.name(),
        logger.threshold() == Some(threshold_for(config)),
    ensures
        threshold_for(config) == Level::Trace,
        forall|level: Level| logger.emits(level),
        forall|level: Level, message: Seq<Arg>|
            output(logger.threshold(), level, message) == line(level, message),
{
    if let Some(name) = config {
        assert(name@ != Level::Error.name());
        assert(name@ != Level::Warn.name());
        assert(name@ != Level::Info.name());
        assert(name@ != Level::Debug.name());
        assert(name@ != Level::Trace.name());
    }
}

/// A configuration value that names a level gives that level as threshold.
pub proof fn lemma_named_config(config: &str, level: Level)
    requires
        config@ == level.name(),
    ensures
        threshold_for(Some(config)) == level,
{
    lemma_level_names(level);
}

/// Logging never touches what is on the console already: it only adds
/// behind it.
pub proof fn lemma_logged_extends(
    threshold: Option<Level>,
    before: Seq<u8>,
    records: Seq<(Level, Seq<Arg>)>,
)
    ensures
        before.is_prefix_of(logged(threshold, before, records)),
    decreases records.len(),
{
    if records.len() > 0 {
        lemma_logged_extends(threshold, before, records.drop_last());
    }
}

/// Logging `first` and then `second` is logging the two in a row.
pub proof fn lemma_logged_in_turn(
    threshold: Option<Level>,
    before: Seq<u8>,
    first: Seq<(Level, Seq<Arg>)>,
    second: Seq<(Level, Seq<Arg>)>,
)
    ensures
        logged(threshold, before, first + second) == logged(
            threshold,
            logged(threshold, before, first),
            second,
        ),
    decreases second.len(),
{
    if second.len() == 0 {
        assert(first + second == first);
    } else {
        assert((first + second).drop_last() == first + second.drop_last());
        lemma_logged_in_turn(threshold, before, first, second.drop_last());
    }
}

/// Logging calls reach the console in the order in which they are made.
/// What was on the console stays in front. The line of the call in place `i`
/// stands, whole, right behind what the calls before it have written, and
/// the calls after it write behind that line: no line is dropped, moved or
/// mixed with another.
pub proof fn lemma_logged_in_order(
    threshold: Option<Level>,
    before: Seq<u8>,
    records: Seq<(Level, Seq<Arg>)>,
    i: int,
)
    requires
        0 <= i < records.len(),
    ensures
        before.is_prefix_of(logged(threshold, before, records)),
        ({
            let earlier = logged(threshold, before, records.take(i));
            let own = output(threshold, records[i].0, records[i].1);
            let all = logged(threshold, before, records);
            &&& all == logged(threshold, earlier + own, records.skip(i + 1))
            &&& (earlier + own).is_prefix_of(all)
            &&& all.subrange(earlier.len() as int, (earlier.len() + own.len()) as int) == own
        }),
{
    let upto = records.take(i + 1);
    let earlier = logged(threshold, before, records.take(i));
    let own = output(threshold, records[i].0, records[i].1);
    assert(upto.drop_last() == records.take(i));
    assert(upto.last() == records[i]);
    assert(logged(threshold, before, upto) == earlier + own);
    assert(upto + records.skip(i + 1) == records);
    lemma_logged_in_turn(threshold, before, upto, records.skip(i + 1));
    lemma_logged_extends(threshold, earlier + own, records.skip(i + 1));
    lemma_logged_extends(threshold, before, records);
    let all = logged(threshold, before, records);
    let written = earlier + own;
    assert(all.subrange(0, written.len() as int) == written);
    assert(written.subrange(earlier.len() as int, written.len() as int) == own);
}

} // verus!
