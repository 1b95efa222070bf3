//! Reading the command line: the subcommand, the plugin port, the output
//! format and the animation settings.

use vstd::prelude::*;
use vstd::string::*;

use crate::format::{format_names, spec_parse_format, Format};
use crate::spinner::{spec_parse_animate, spec_parse_spinner, Anim, AnimateMode, SpinnerStyle};
use crate::text::joined;

verus! {

/// The plugin's port when neither the environment nor `--port` names one.
pub const DEFAULT_PORT: u16 = 4098;

/// The spinner frame interval, in milliseconds, when `--tick` is not given.
pub const DEFAULT_TICK_MS: u16 = 100;

/// The texts of the arguments.
pub open spec fn arg_views(args: Seq<String>) -> Seq<Seq<char>> {
    args.map_values(|s: String| s@)
}

/// An ASCII decimal digit.
pub open spec fn is_digit(c: char) -> bool {
    '0' <= c && c <= '9'
}

/// The number written by a string of decimal digits.
pub open spec fn digits_value(d: Seq<char>) -> nat
    decreases d.len(),
{
    if d.len() == 0 {
        0
    } else {
        digits_value(d.drop_last()) * 10 + ((d.last() as int) - ('0' as int)) as nat
    }
}

/// The digits of a number: the text without one leading `+`.
pub open spec fn unsigned_digits(s: Seq<char>) -> Seq<char> {
    if s.len() > 0 && s[0] == '+' {
        s.drop_first()
    } else {
        s
    }
}

/// Every character is a decimal digit.
pub open spec fn all_digits(d: Seq<char>) -> bool {
    forall|i: int| 0 <= i < d.len() ==> is_digit(#[trigger] d[i])
}

/// `str::parse::<u16>`: an optional `+`, then one or more decimal digits
/// whose value fits in 16 bits; anything else (white space included) is an
/// error.
pub open spec fn spec_parse_u16(s: Seq<char>) -> Option<u16> {
    let d = unsigned_digits(s);
    if d.len() > 0 && all_digits(d) && digits_value(d) <= 65535 {
        Some(digits_value(d) as u16)
    } else {
        None
    }
}

proof fn lemma_digits_value_grows(d: Seq<char>, k: int)
    requires
        0 <= k <= d.len(),
        forall|i: int| 0 <= i < d.len() ==> is_digit(#[trigger] d[i]),
    ensures
        digits_value(d.take(k)) <= digits_value(d),
    decreases d.len() - k,
{
    if k < d.len() {
        assert(d.drop_last().take(k) =~= d.take(k));
        assert forall|i: int| 0 <= i < d.drop_last().len() implies is_digit(#[trigger] d.drop_last()[i]) by {
            assert(d.drop_last()[i] == d[i]);
        }
        lemma_digits_value_grows(d.drop_last(), k);
        assert(is_digit(d[d.len() - 1]));
    } else {
        assert(d.take(k) =~= d);
    }
}

/// Parses a decimal `u16` the way `str::parse::<u16>` does.
pub fn parse_u16(s: &str) -> (r: Option<u16>)
    ensures
        r == spec_parse_u16(s@),
{
    let n = s.unicode_len();
    let start: usize = if n > 0 && s.get_char(0) == '+' { 1 } else { 0 };
    let ghost d = unsigned_digits(s@);
    assert(d =~= s@.skip(start as int));
    if start >= n {
        return None;
    }
    let mut acc: u32 = 0;
    let mut i: usize = start;
    while i < n
        invariant
            n == s@.len(),
            start <= i <= n,
            d == s@.skip(start as int),
            d == unsigned_digits(s@),
            forall|j: int| 0 <= j < i - start ==> is_digit(#[trigger] d[j]),
            acc as nat == digits_value(d.take(i - start)),
            acc <= 65535,
        decreases n - i,
    {
        let c = s.get_char(i);
        assert(d[i - start] == c);
        if !('0' <= c && c <= '9') {
            assert(!is_digit(d[i - start]));
            assert(!all_digits(d));
            return None;
        }
        let v: u32 = (c as u32) - ('0' as u32);
        assert(d.take(i + 1 - start).drop_last() =~= d.take(i - start));
        assert(d.take(i + 1 - start).last() == c);
        assert(v == (c as int) - ('0' as int));
        acc = acc * 10 + v;
        i = i + 1;
        assert(acc as nat == digits_value(d.take(i - start)));
        if acc > 65535 {
            proof {
                if all_digits(d) {
                    lemma_digits_value_grows(d, i - start);
                    assert(digits_value(d) > 65535);
                }
            }
            return None;
        }
    }
    assert(d.take(n - start) =~= d);
    Some(acc as u16)
}

/// A usable port: a parsed, non-zero `u16`.
pub open spec fn port_value(v: Seq<char>) -> Option<u16> {
    match spec_parse_u16(v) {
        Some(p) => if p > 0 { Some(p) } else { None },
        None => None,
    }
}

/// The first usable port that follows a `--port` argument, scanning from
/// position `i`; a `--port` with a missing or unusable value is skipped.
pub open spec fn port_flag(args: Seq<Seq<char>>, i: int) -> Option<u16>
    decreases args.len() - i,
{
    if i < 0 || i >= args.len() {
        None
    } else if args[i] == "--port"@ && i + 1 < args.len() && port_value(args[i + 1]) is Some {
        port_value(args[i + 1])
    } else {
        port_flag(args, i + 1)
    }
}

/// The port from the environment value when usable, else from `--port`,
/// else the default.
pub open spec fn spec_parse_port(env: Option<Seq<char>>, args: Seq<Seq<char>>) -> u16 {
    let from_env = match env {
        Some(e) => port_value(e),
        None => None,
    };
    match from_env {
        Some(p) => p,
        None => match port_flag(args, 0) {
            Some(p) => p,
            None => DEFAULT_PORT,
        },
    }
}

fn usable_port(v: &str) -> (r: Option<u16>)
    ensures
        r == port_value(v@),
{
    match parse_u16(v) {
        Some(p) => if p > 0 { Some(p) } else { None },
        None => None,
    }
}

/// The plugin port: `OPENCODE_SESSIONBAR_PORT` (passed in as `env`) wins,
/// then `--port N`, then 4098. Zero and unparsable values are ignored.
pub fn parse_port(env: Option<&str>, args: &Vec<String>) -> (r: u16)
    ensures
        r == spec_parse_port(crate::format::opt_str_view(env), arg_views(args@)),
{
    match env {
        Some(e) => match usable_port(e) {
            Some(p) => return p,
            None => {},
        },
        None => {},
    }
    let ghost views = arg_views(args@);
    let n = args.len();
    let mut i: usize = 0;
    while i < n
        invariant
            n == args@.len(),
            views == arg_views(args@),
            i <= n,
            port_flag(views, 0) == port_flag(views, i as int),
            (match crate::format::opt_str_view(env) {
                Some(e) => port_value(e),
                None => None,
            }) is None,
        decreases n - i,
    {
        assert(views[i as int] == args@[i as int]@);
        if crate::text::str_eq(args[i].as_str(), "--port") && i + 1 < n {
            assert(views[i + 1] == args@[i + 1]@);
            match usable_port(args[i + 1].as_str()) {
                Some(v) => {
                    return v;
                },
                None => {},
            }
        }
        i = i + 1;
    }
    DEFAULT_PORT
}

/// Where a flag stands among the arguments: the position of the first
/// argument equal to `long` or `short` at or after `i`, or the number of
/// arguments when there is none.
pub open spec fn first_flag(args: Seq<Seq<char>>, long: Seq<char>, short: Seq<char>, i: int) -> int
    decreases args.len() - i,
{
    if i < 0 || i >= args.len() {
        args.len() as int
    } else if args[i] == long || args[i] == short {
        i
    } else {
        first_flag(args, long, short, i + 1)
    }
}

/// What the first occurrence of a flag gives.
pub enum FlagValue {
    /// The flag is not there.
    Absent,
    /// The flag is the last argument.
    Missing,
    /// The argument after the flag.
    Given(String),
}

/// The flag's value: `None` when absent, `Some(None)` when it is the last
/// argument, `Some(Some(v))` for the argument `v` after it.
pub open spec fn spec_flag(args: Seq<Seq<char>>, long: Seq<char>, short: Seq<char>) -> Option<
    Option<Seq<char>>,
> {
    let k = first_flag(args, long, short, 0);
    if k >= args.len() {
        None
    } else if k + 1 >= args.len() {
        Some(None)
    } else {
        Some(Some(args[k + 1]))
    }
}

/// The view of a flag lookup.
pub open spec fn flag_view(f: FlagValue) -> Option<Option<Seq<char>>> {
    match f {
        FlagValue::Absent => None,
        FlagValue::Missing => Some(None),
        FlagValue::Given(v) => Some(Some(v@)),
    }
}

/// The value of the first `long` or `short` flag.
pub fn flag_value(args: &Vec<String>, long: &str, short: &str) -> (r: FlagValue)
    ensures
        flag_view(r) == spec_flag(arg_views(args@), long@, short@),
{
    let ghost views = arg_views(args@);
    let n = args.len();
    let mut i: usize = 0;
    while i < n
        invariant
            n == args@.len(),
            views == arg_views(args@),
            i <= n,
            first_flag(views, long@, short@, 0) == first_flag(views, long@, short@, i as int),
        decreases n - i,
    {
        let a = args[i].as_str();
        if crate::text::str_eq(a, long) || crate::text::str_eq(a, short) {
            if i + 1 < n {
                return FlagValue::Given(args[i + 1].clone());
            } else {
                return FlagValue::Missing;
            }
        }
        i = i + 1;
    }
    FlagValue::Absent
}

/// The view of a parse result whose error is a message.
pub open spec fn result_view<T>(r: Result<T, String>) -> Result<T, Seq<char>> {
    match r {
        Ok(v) => Ok(v),
        Err(e) => Err(e@),
    }
}

/// The format chosen by `--format`/`-f`: the default when absent, an error
/// when the value is missing or names no format.
pub open spec fn spec_parse_format_arg(args: Seq<Seq<char>>, default: Format) -> Result<Format, Seq<char>> {
    match spec_flag(args, "--format"@, "-f"@) {
        None => Ok(default),
        Some(None) => Err("--format requires a value"@),
        Some(Some(name)) => match spec_parse_format(name) {
            Some(f) => Ok(f),
            None => Err(
                "unknown format '"@ + name + "' (try: "@ + joined(format_names(), ", "@) + ")"@,
            ),
        },
    }
}

/// The output format named by `--format F` (or `-f F`), or `default`.
pub fn parse_format(args: &Vec<String>, default: Format) -> (r: Result<Format, String>)
    ensures
        result_view(r) == spec_parse_format_arg(arg_views(args@), default),
{
    match flag_value(args, "--format", "-f") {
        FlagValue::Absent => Ok(default),
        FlagValue::Missing => Err(String::from_str("--format requires a value")),
        FlagValue::Given(name) => match Format::parse(name.as_str()) {
            Some(f) => Ok(f),
            None => {
                let mut msg = String::from_str("unknown format '");
                msg.append(name.as_str());
                msg.append("' (try: ");
                let names = crate::text::join(Format::all(), ", ");
                msg.append(names.as_str());
                msg.append(")");
                Err(msg)
            },
        },
    }
}

/// The animation chosen by `--animate`/`-a` and `--spinner`: off and
/// braille when absent; an error for a missing or unknown value (the
/// animate flag is checked first). The frame counter starts at 0.
pub open spec fn spec_parse_anim(args: Seq<Seq<char>>) -> Result<Anim, Seq<char>> {
    let mode = match spec_flag(args, "--animate"@, "-a"@) {
        None => Ok(AnimateMode::Off),
        Some(None) => Err("--animate requires a value"@),
        Some(Some(v)) => match spec_parse_animate(v) {
            Some(m) => Ok(m),
            None => Err("unknown animation '"@ + v + "' (try: off, glyph, pulse)"@),
        },
    };
    let spinner = match spec_flag(args, "--spinner"@, "--spinner"@) {
        None => Ok(SpinnerStyle::Braille),
        Some(None) => Err("--spinner requires a value"@),
        Some(Some(v)) => match spec_parse_spinner(v) {
            Some(s) => Ok(s),
            None => Err(
                "unknown spinner '"@ + v + "' (try: braille, shimmer, dots, ring, ring-comet)"@,
            ),
        },
    };
    match mode {
        Err(e) => Err(e),
        Ok(m) => match spinner {
            Err(e) => Err(e),
            Ok(s) => Ok(Anim { mode: m, spinner: s, tick: 0 }),
        },
    }
}

/// The animation settings named by `--animate` and `--spinner`.
pub fn parse_anim(args: &Vec<String>) -> (r: Result<Anim, String>)
    ensures
        result_view(r) == spec_parse_anim(arg_views(args@)),
{
    let mode = match flag_value(args, "--animate", "-a") {
        FlagValue::Absent => AnimateMode::Off,
        FlagValue::Missing => return Err(String::from_str("--animate requires a value")),
        FlagValue::Given(v) => match AnimateMode::parse(v.as_str()) {
            Some(m) => m,
            None => {
                let mut msg = String::from_str("unknown animation '");
                msg.append(v.as_str());
                msg.append("' (try: off, glyph, pulse)");
                return Err(msg);
            },
        },
    };
    let spinner = match flag_value(args, "--spinner", "--spinner") {
        FlagValue::Absent => SpinnerStyle::Braille,
        FlagValue::Missing => return Err(String::from_str("--spinner requires a value")),
        FlagValue::Given(v) => match SpinnerStyle::parse(v.as_str()) {
            Some(s) => s,
            None => {
                let mut msg = String::from_str("unknown spinner '");
                msg.append(v.as_str());
                msg.append("' (try: braille, shimmer, dots, ring, ring-comet)");
                return Err(msg);
            },
        },
    };
    Ok(Anim { mode, spinner, tick: 0 })
}

/// The spinner frame interval from `--tick MS`: 100 when absent; an error
/// for a missing value or one that is not a positive 16-bit number.
pub open spec fn spec_parse_tick(args: Seq<Seq<char>>) -> Result<u16, Seq<char>> {
    match spec_flag(args, "--tick"@, "--tick"@) {
        None => Ok(DEFAULT_TICK_MS),
        Some(None) => Err("--tick requires a value"@),
        Some(Some(v)) => match port_value(v) {
            Some(ms) => Ok(ms),
            None => Err("invalid --tick '"@ + v + "' (milliseconds, 1 to 65535)"@),
        },
    }
}

/// The frame interval of the glyph animation under `watch`.
pub fn parse_tick(args: &Vec<String>) -> (r: Result<u16, String>)
    ensures
        result_view(r) == spec_parse_tick(arg_views(args@)),
{
    match flag_value(args, "--tick", "--tick") {
        FlagValue::Absent => Ok(DEFAULT_TICK_MS),
        FlagValue::Missing => Err(String::from_str("--tick requires a value")),
        FlagValue::Given(v) => match usable_port(v.as_str()) {
            Some(ms) => Ok(ms),
            None => {
                let mut msg = String::from_str("invalid --tick '");
                msg.append(v.as_str());
                msg.append("' (milliseconds, 1 to 65535)");
                Err(msg)
            },
        },
    }
}

/// The subcommands of the program.
#[derive(Debug, Clone, Copy, PartialEq, Eq, Structural)]
pub enum Command {
    Bar,
    Watch,
    Tui,
    Json,
    Plugin,
    Help,
    Version,
    Unknown,
}

/// The subcommand a name selects.
pub open spec fn spec_command_named(name: Seq<char>) -> Command {
    if name == "bar"@ {
        Command::Bar
    } else if name == "watch"@ {
        Command::Watch
    } else if name == "tui"@ {
        Command::Tui
    } else if name == "json"@ {
        Command::Json
    } else if name == "plugin"@ || name == "plug"@ {
        Command::Plugin
    } else if name == "help"@ || name == "-h"@ || name == "--help"@ {
        Command::Help
    } else if name == "-v"@ || name == "--version"@ {
        Command::Version
    } else {
        Command::Unknown
    }
}

/// The subcommand of a command line: the first argument, `bar` when there
/// is none.
pub open spec fn spec_command(args: Seq<Seq<char>>) -> Command {
    if args.len() == 0 {
        Command::Bar
    } else {
        spec_command_named(args[0])
    }
}

/// The subcommand selected by the first argument (`bar` without one).
pub fn command(args: &Vec<String>) -> (r: Command)
    ensures
        r == spec_command(arg_views(args@)),
{
    if args.len() == 0 {
        return Command::Bar;
    }
    let name = args[0].as_str();
    if crate::text::str_eq(name, "bar") {
        Command::Bar
    } else if crate::text::str_eq(name, "watch") {
        Command::Watch
    } else if crate::text::str_eq(name, "tui") {
        Command::Tui
    } else if crate::text::str_eq(name, "json") {
        Command::Json
    } else if crate::text::str_eq(name, "plugin") || crate::text::str_eq(name, "plug") {
        Command::Plugin
    } else if crate::text::str_eq(name, "help") || crate::text::str_eq(name, "-h")
        || crate::text::str_eq(name, "--help") {
        Command::Help
    } else if crate::text::str_eq(name, "-v") || crate::text::str_eq(name, "--version") {
        Command::Version
    } else {
        Command::Unknown
    }
}


proof fn lemma_port_flag_nonzero(args: Seq<Seq<char>>, i: int)
    ensures
        port_flag(args, i) matches Some(p) ==> p > 0,
    decreases args.len() - i,
{
    if 0 <= i < args.len() {
        lemma_port_flag_nonzero(args, i + 1);
    }
}

/// The chosen port is never 0: a zero port is ignored wherever it is
/// given, and the default is not zero.
pub proof fn lemma_port_nonzero(env: Option<Seq<char>>, args: Seq<Seq<char>>)
    ensures
        spec_parse_port(env, args) > 0,
{
    lemma_port_flag_nonzero(args, 0);
}

proof fn lemma_digit_char_value(k: nat)
    requires
        k < 10,
    ensures
        is_digit(crate::text::digit_char(k)),
        (crate::text::digit_char(k) as int) - ('0' as int) == k,
{
}

proof fn lemma_decimal_digits(n: nat)
    ensures
        decimal_value_ok(n),
    decreases n,
{
    lemma_digit_char_value(n % 10);
    if n < 10 {
        let d = crate::text::decimal(n);
        assert(n % 10 == n);
        assert(d.last() == crate::text::digit_char(n));
        assert(d.drop_last() =~= Seq::<char>::empty());
        assert(digits_value(d.drop_last()) == 0);
    } else {
        lemma_decimal_digits(n / 10);
        let d = crate::text::decimal(n);
        let p = crate::text::decimal(n / 10);
        assert(d.drop_last() =~= p);
        assert forall|i: int| 0 <= i < d.len() implies is_digit(#[trigger] d[i]) by {
            if i < p.len() {
                assert(d[i] == p[i]);
            }
        }
        assert(d[0] == p[0]);
        assert(digits_value(d) == digits_value(p) * 10 + n % 10);
        assert(n == (n / 10) * 10 + n % 10);
    }
}

/// The decimal text of `n` is all digits, does not start with `+`, and
/// reads back as `n`.
pub open spec fn decimal_value_ok(n: nat) -> bool {
    let d = crate::text::decimal(n);
    &&& d.len() > 0
    &&& d[0] != '+'
    &&& all_digits(d)
    &&& digits_value(d) == n
}

/// Reading back the decimal text of a 16-bit number gives that number,
/// so a port written by `Client::new` or `--port` parses to itself.
pub proof fn lemma_parse_decimal(n: u16)
    ensures
        spec_parse_u16(crate::text::decimal(n as nat)) == Some(n),
{
    lemma_decimal_digits(n as nat);
}


proof fn lemma_no_port_flag(args: Seq<Seq<char>>, i: int)
    requires
        forall|j: int| 0 <= j < args.len() ==> args[j] != "--port"@,
    ensures
        port_flag(args, i) is None,
    decreases args.len() - i,
{
    if 0 <= i < args.len() {
        lemma_no_port_flag(args, i + 1);
    }
}

proof fn lemma_no_flag(args: Seq<Seq<char>>, long: Seq<char>, short: Seq<char>, i: int)
    requires
        0 <= i,
        forall|j: int| 0 <= j < args.len() ==> args[j] != long && args[j] != short,
    ensures
        first_flag(args, long, short, i) == args.len(),
    decreases args.len() - i,
{
    if i < args.len() {
        lemma_no_flag(args, long, short, i + 1);
    }
}

/// Where the port comes from: a usable environment value wins over
/// `--port`, a zero in the environment is passed over, `--port N` is used
/// without one, and 4098 is the port when neither names one.
pub proof fn lemma_port_sources(n: u16, m: u16, args: Seq<Seq<char>>)
    requires
        n > 0,
    ensures
        spec_parse_port(Some(crate::text::decimal(n as nat)), args) == n,
        spec_parse_port(None, seq!["--port"@, crate::text::decimal(m as nat)]) == if m > 0 {
            m
        } else {
            4098
        },
        spec_parse_port(Some(crate::text::decimal(0)), seq!["--port"@, crate::text::decimal(n as nat)])
            == n,
        (forall|j: int| 0 <= j < args.len() ==> args[j] != "--port"@) ==> spec_parse_port(None, args)
            == 4098,
{
    lemma_parse_decimal(n);
    lemma_parse_decimal(m);
    lemma_parse_decimal(0);
    let a = seq!["--port"@, crate::text::decimal(m as nat)];
    lemma_no_port_flag(a.drop_first().drop_first(), 0);
    assert(port_flag(a, 2) is None);
    assert(port_flag(a, 1) is None) by {
        reveal_strlit("--port");
        if a[1] == "--port"@ {
            assert(a[1].len() == 6);
        }
    }
    if forall|j: int| 0 <= j < args.len() ==> args[j] != "--port"@ {
        lemma_no_port_flag(args, 0);
    }
}

/// The format flag: `--format NAME` and `-f NAME` select the format of
/// each listed name, a flag without a value is an error, and without the
/// flag the caller's default holds.
pub proof fn lemma_format_flag(i: int, default: Format, args: Seq<Seq<char>>)
    requires
        0 <= i < format_names().len(),
    ensures
        spec_parse_format_arg(seq!["--format"@, format_names()[i]], default) == Ok::<Format, Seq<char>>(
            crate::format::format_at(i),
        ),
        spec_parse_format_arg(seq!["-f"@, format_names()[i]], default) == Ok::<Format, Seq<char>>(
            crate::format::format_at(i),
        ),
        spec_parse_format_arg(seq!["--format"@], default) == Err::<Format, Seq<char>>(
            "--format requires a value"@,
        ),
        (forall|j: int| 0 <= j < args.len() ==> args[j] != "--format"@ && args[j] != "-f"@)
            ==> spec_parse_format_arg(args, default) == Ok::<Format, Seq<char>>(default),
{
    crate::format::lemma_format_names_parse(i, default);
    if forall|j: int| 0 <= j < args.len() ==> args[j] != "--format"@ && args[j] != "-f"@ {
        lemma_no_flag(args, "--format"@, "-f"@, 0);
    }
}

/// The frame interval: 100 ms without `--tick`; `--tick N` gives N for a
/// positive N and an error for zero.
pub proof fn lemma_tick_flag(n: u16, args: Seq<Seq<char>>)
    ensures
        (forall|j: int| 0 <= j < args.len() ==> args[j] != "--tick"@) ==> spec_parse_tick(args)
            == Ok::<u16, Seq<char>>(100),
        n > 0 ==> spec_parse_tick(seq!["--tick"@, crate::text::decimal(n as nat)]) == Ok::<
            u16,
            Seq<char>,
        >(n),
        spec_parse_tick(seq!["--tick"@, crate::text::decimal(0)]) == Err::<u16, Seq<char>>(
            "invalid --tick '"@ + crate::text::decimal(0) + "' (milliseconds, 1 to 65535)"@,
        ),
{
    lemma_parse_decimal(n);
    lemma_parse_decimal(0);
    if forall|j: int| 0 <= j < args.len() ==> args[j] != "--tick"@ {
        lemma_no_flag(args, "--tick"@, "--tick"@, 0);
    }
}

/// Without `--animate`, `-a` and `--spinner` the animation is off, the
/// spinner braille and the frame counter 0.
pub proof fn lemma_anim_defaults(args: Seq<Seq<char>>)
    requires
        forall|j: int| 0 <= j < args.len() ==> args[j] != "--animate"@ && args[j] != "-a"@ && args[j]
            != "--spinner"@,
    ensures
        spec_parse_anim(args) == Ok::<Anim, Seq<char>>(
            Anim { mode: AnimateMode::Off, spinner: SpinnerStyle::Braille, tick: 0 },
        ),
{
    lemma_no_flag(args, "--animate"@, "-a"@, 0);
    lemma_no_flag(args, "--spinner"@, "--spinner"@, 0);
}


/// The subcommand: `bar` without arguments; `plugin` also as `plug`, help
/// as `help`, `-h` or `--help`, the version as `-v` or `--version`; only
/// the first argument decides.
pub proof fn lemma_command_names(rest: Seq<Seq<char>>)
    ensures
        spec_command(Seq::empty()) == Command::Bar,
        spec_command(seq!["bar"@] + rest) == Command::Bar,
        spec_command(seq!["watch"@] + rest) == Command::Watch,
        spec_command(seq!["tui"@] + rest) == Command::Tui,
        spec_command(seq!["json"@] + rest) == Command::Json,
        spec_command(seq!["plugin"@] + rest) == Command::Plugin,
        spec_command(seq!["plug"@] + rest) == Command::Plugin,
        spec_command(seq!["help"@] + rest) == Command::Help,
        spec_command(seq!["-h"@] + rest) == Command::Help,
        spec_command(seq!["--help"@] + rest) == Command::Help,
        spec_command(seq!["-v"@] + rest) == Command::Version,
        spec_command(seq!["--version"@] + rest) == Command::Version,
{
    reveal_strlit("bar");
    reveal_strlit("watch");
    reveal_strlit("tui");
    reveal_strlit("json");
    reveal_strlit("plugin");
    reveal_strlit("plug");
    reveal_strlit("help");
    reveal_strlit("-h");
    reveal_strlit("--help");
    reveal_strlit("-v");
    reveal_strlit("--version");
    let names = seq!["bar"@, "watch"@, "tui"@, "json"@, "plugin"@, "plug"@, "help"@, "-h"@, "--help"@,
        "-v"@, "--version"@];
    assert forall|i: int| 0 <= i < names.len() implies (seq![#[trigger] names[i]] + rest)[0] == names[i] by {}
    assert("bar"@[0] != "watch"@[0] && "bar"@[0] != "tui"@[0] && "bar"@[0] != "json"@[0]);
    assert("watch"@[0] != "tui"@[0] && "watch"@[0] != "json"@[0] && "tui"@[0] != "json"@[0]);
    assert("plugin"@[0] != "bar"@[0] && "plugin"@[0] != "watch"@[0] && "plugin"@[0] != "tui"@[0]);
    assert("plugin"@[0] != "json"@[0] && "plug"@[0] != "bar"@[0] && "plug"@[0] != "watch"@[0]);
    assert("plug"@[0] != "tui"@[0] && "plug"@[0] != "json"@[0]);
    assert("help"@[0] != "bar"@[0] && "help"@[0] != "watch"@[0] && "help"@[0] != "tui"@[0]);
    assert("help"@[0] != "json"@[0] && "help"@[0] != "plugin"@[0] && "help"@[0] != "plug"@[0]);
    assert("-h"@[0] != "bar"@[0] && "-h"@[0] != "watch"@[0] && "-h"@[0] != "tui"@[0]);
    assert("-h"@[0] != "json"@[0] && "-h"@[0] != "plugin"@[0] && "-h"@[0] != "plug"@[0]);
    assert("-h"@[0] != "help"@[0]);
    assert("--help"@[0] != "bar"@[0] && "--help"@[0] != "watch"@[0] && "--help"@[0] != "tui"@[0]);
    assert("--help"@[0] != "json"@[0] && "--help"@[0] != "plugin"@[0] && "--help"@[0] != "plug"@[0]);
    assert("--help"@[0] != "help"@[0] && "--help"@.len() != "-h"@.len());
    assert("-v"@[0] != "bar"@[0] && "-v"@[0] != "watch"@[0] && "-v"@[0] != "tui"@[0]);
    assert("-v"@[0] != "json"@[0] && "-v"@[0] != "plugin"@[0] && "-v"@[0] != "plug"@[0]);
    assert("-v"@[0] != "help"@[0] && "-v"@[1] != "-h"@[1] && "-v"@.len() != "--help"@.len());
    assert("--version"@[0] != "bar"@[0] && "--version"@[0] != "watch"@[0]);
    assert("--version"@[0] != "tui"@[0] && "--version"@[0] != "json"@[0]);
    assert("--version"@[0] != "plugin"@[0] && "--version"@[0] != "plug"@[0]);
    assert("--version"@[0] != "help"@[0] && "--version"@.len() != "-h"@.len());
    assert("--version"@.len() != "--help"@.len());
    assert("plugin"@.len() != "plug"@.len());
}

} // verus!
