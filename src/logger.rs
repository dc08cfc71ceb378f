use vstd::prelude::*;
use vstd::string::StringExecFns;

verus! {

#[verifier::external_type_specification]
pub struct ExLevel(log::Level);

#[verifier::external_type_specification]
pub struct ExLevelFilter(log::LevelFilter);

/// Severity order of `log::Level`, from its discriminants: `Error` is the
/// most severe and lowest, `Trace` the least severe and highest.
pub open spec fn level_rank(level: log::Level) -> nat {
    match level {
        log::Level::Error => 1,
        log::Level::Warn => 2,
        log::Level::Info => 3,
        log::Level::Debug => 4,
        log::Level::Trace => 5,
    }
}

/// The filter that lets through `level` and everything more severe.
pub open spec fn filter_of(level: log::Level) -> log::LevelFilter {
    match level {
        log::Level::Error => log::LevelFilter::Error,
        log::Level::Warn => log::LevelFilter::Warn,
        log::Level::Info => log::LevelFilter::Info,
        log::Level::Debug => log::LevelFilter::Debug,
        log::Level::Trace => log::LevelFilter::Trace,
    }
}

/// The upper-case name of a level.
pub open spec fn level_name(level: log::Level) -> Seq<char> {
    match level {
        log::Level::Error => seq!['E', 'R', 'R', 'O', 'R'],
        log::Level::Warn => seq!['W', 'A', 'R', 'N'],
        log::Level::Info => seq!['I', 'N', 'F', 'O'],
        log::Level::Debug => seq!['D', 'E', 'B', 'U', 'G'],
        log::Level::Trace => seq!['T', 'R', 'A', 'C', 'E'],
    }
}

/// Relies on `log::Level::to_level_filter`: the filter of the same name.
pub assume_specification[ log::Level::to_level_filter ](level: &log::Level) -> (r: log::LevelFilter)
    ensures
        r == filter_of(*level),
;

/// Relies on `log::Level::as_str`: the level's upper-case name, which is
/// also what its `Display` writes.
pub assume_specification[ log::Level::as_str ](level: &log::Level) -> (r: &'static str)
    ensures
        r@ == level_name(*level),
;

/// One output line: `<timestamp> - <LEVEL> - [<target>] <message>`.
pub open spec fn line_of(
    timestamp: Seq<char>,
    level: log::Level,
    target: Seq<char>,
    message: Seq<char>,
) -> Seq<char> {
    timestamp + seq![' ', '-', ' '] + level_name(level) + seq![' ', '-', ' ', '['] + target
        + seq![']', ' '] + message
}

/// A logger that writes every record at or above a minimum severity.
pub struct SimpleLogger {
    level: log::Level,
}

impl SimpleLogger {
    /// The least severe level written.
    pub closed spec fn spec_level(&self) -> log::Level {
        self.level
    }

    /// A logger at level `Info`.
    pub fn new() -> (l: SimpleLogger)
        ensures
            l.spec_level() == log::Level::Info,
    {
        SimpleLogger { level: log::Level::Info }
    }

    /// A logger at the given level.
    pub fn new_with_level(level: log::Level) -> (l: SimpleLogger)
        ensures
            l.spec_level() == level,
    {
        SimpleLogger { level }
    }

    /// Changes the level.
    pub fn set_level(&mut self, level: log::Level)
        ensures
            final(self).spec_level() == level,
    {
        self.level = level;
    }

    /// The level.
    pub fn level(&self) -> (r: log::Level)
        ensures
            r == self.spec_level(),
    {
        self.level
    }

    /// The global maximum level to install along with this logger.
    pub fn max_level_filter(&self) -> (r: log::LevelFilter)
        ensures
            r == filter_of(self.spec_level()),
    {
        self.level.to_level_filter()
    }

    /// Whether a record at `level` is written: it is at least as severe as
    /// the logger's level.
    pub fn enabled(&self, level: log::Level) -> (r: bool)
        ensures
            r == (level_rank(level) <= level_rank(self.spec_level())),
    {
        rank(level) <= rank(self.level)
    }

    /// The line written for a record, or `None` where its level is filtered out.
    pub fn render(&self, timestamp: &str, level: log::Level, target: &str, message: &str) -> (r:
        Option<String>)
        ensures
            r is Some <==> level_rank(level) <= level_rank(self.spec_level()),
            r matches Some(line) ==> line@ == line_of(timestamp@, level, target@, message@),
    {
        if self.enabled(level) {
            Some(format_line(timestamp, level, target, message))
        } else {
            None
        }
    }
}

impl Default for SimpleLogger {
    fn default() -> (l: SimpleLogger)
        ensures
            l.spec_level() == log::Level::Info,
    {
        SimpleLogger::new()
    }
}

/// The severity rank of a level.
fn rank(level: log::Level) -> (r: u8)
    ensures
        r as nat == level_rank(level),
{
    match level {
        log::Level::Error => 1,
        log::Level::Warn => 2,
        log::Level::Info => 3,
        log::Level::Debug => 4,
        log::Level::Trace => 5,
    }
}

/// Builds one output line from its parts.
pub fn format_line(timestamp: &str, level: log::Level, target: &str, message: &str) -> (r: String)
    ensures
        r@ == line_of(timestamp@, level, target@, message@),
{
    let mut line = String::from_str(timestamp);
    line.append(" - ");
    line.append(level.as_str());
    line.append(" - [");
    line.append(target);
    line.append("] ");
    line.append(message);
    proof {
        reveal_strlit(" - ");
        reveal_strlit(" - [");
        reveal_strlit("] ");
    }
    line
}

} // verus!
