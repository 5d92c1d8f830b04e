//! Deterministic text formatting for one run: the timestamp rendering shared
//! by every generated name, the dump output-file name, the log-file name,
//! and the failure log entries.

use vstd::prelude::*;
use vstd::string::*;
use crate::time::Timestamp;
use crate::types::CredentialModel;

verus! {

/// The character a single decimal digit is written as.
pub open spec fn digit_char(d: int) -> char {
    if d == 0 {
        '0'
    } else if d == 1 {
        '1'
    } else if d == 2 {
        '2'
    } else if d == 3 {
        '3'
    } else if d == 4 {
        '4'
    } else if d == 5 {
        '5'
    } else if d == 6 {
        '6'
    } else if d == 7 {
        '7'
    } else if d == 8 {
        '8'
    } else {
        '9'
    }
}

/// A number below 100 written as exactly two decimal digits, zero-padded.
pub open spec fn two_digit_chars(n: int) -> Seq<char> {
    seq![digit_char(n / 10), digit_char(n % 10)]
}

/// A number below 10000 written as exactly four decimal digits, zero-padded.
pub open spec fn four_digit_chars(n: int) -> Seq<char> {
    seq![
        digit_char(n / 1000),
        digit_char((n / 100) % 10),
        digit_char((n / 10) % 10),
        digit_char(n % 10),
    ]
}

/// A timestamp rendered as `YYYY-MM-DD HHh MMm SSs`.
pub open spec fn spec_format_datetime(ts: Timestamp) -> Seq<char> {
    four_digit_chars(ts.year as int) + "-"@ + two_digit_chars(ts.month as int) + "-"@
        + two_digit_chars(ts.day as int) + " "@ + two_digit_chars(ts.hour as int) + "h "@
        + two_digit_chars(ts.minute as int) + "m "@ + two_digit_chars(ts.second as int) + "s"@
}

/// Appends the character of one decimal digit.
fn append_digit(s: &mut String, d: u16)
    requires
        d <= 9,
    ensures
        final(s)@ == old(s)@ + seq![digit_char(d as int)],
{
    proof {
        reveal_strlit("0");
        reveal_strlit("1");
        reveal_strlit("2");
        reveal_strlit("3");
        reveal_strlit("4");
        reveal_strlit("5");
        reveal_strlit("6");
        reveal_strlit("7");
        reveal_strlit("8");
        reveal_strlit("9");
    }
    if d == 0 {
        s.append("0");
    } else if d == 1 {
        s.append("1");
    } else if d == 2 {
        s.append("2");
    } else if d == 3 {
        s.append("3");
    } else if d == 4 {
        s.append("4");
    } else if d == 5 {
        s.append("5");
    } else if d == 6 {
        s.append("6");
    } else if d == 7 {
        s.append("7");
    } else if d == 8 {
        s.append("8");
    } else {
        s.append("9");
    }
    proof {
        assert(final(s)@ =~= old(s)@ + seq![digit_char(d as int)]);
    }
}

/// Appends a number below 100 as two zero-padded decimal digits.
fn append_two_digits(s: &mut String, n: u16)
    requires
        n <= 99,
    ensures
        final(s)@ == old(s)@ + two_digit_chars(n as int),
{
    append_digit(s, n / 10);
    append_digit(s, n % 10);
    proof {
        assert(final(s)@ =~= old(s)@ + two_digit_chars(n as int));
    }
}

/// Appends a number below 10000 as four zero-padded decimal digits.
fn append_four_digits(s: &mut String, n: u16)
    requires
        n <= 9999,
    ensures
        final(s)@ == old(s)@ + four_digit_chars(n as int),
{
    append_digit(s, n / 1000);
    append_digit(s, (n / 100) % 10);
    append_digit(s, (n / 10) % 10);
    append_digit(s, n % 10);
    proof {
        assert(final(s)@ =~= old(s)@ + four_digit_chars(n as int));
    }
}

/// Renders a timestamp as `YYYY-MM-DD HHh MMm SSs`.
pub fn format_datetime(ts: &Timestamp) -> (r: String)
    requires
        ts.wf(),
    ensures
        r@ == spec_format_datetime(*ts),
{
    let mut s = String::new();
    append_four_digits(&mut s, ts.year);
    s.append("-");
    append_two_digits(&mut s, ts.month as u16);
    s.append("-");
    append_two_digits(&mut s, ts.day as u16);
    s.append(" ");
    append_two_digits(&mut s, ts.hour as u16);
    s.append("h ");
    append_two_digits(&mut s, ts.minute as u16);
    s.append("m ");
    append_two_digits(&mut s, ts.second as u16);
    s.append("s");
    proof {
        assert(s@ =~= spec_format_datetime(*ts));
    }
    s
}

/// The output-file name for one captured dump:
/// `dump__<engine>__<timestamp>__<container>__<db>.sql`. For fixed inputs the
/// name is fixed: it is a function of exactly these four values.
pub open spec fn spec_output_file_name(
    engine: Seq<char>,
    ts: Timestamp,
    container: Seq<char>,
    db: Seq<char>,
) -> Seq<char> {
    "dump__"@ + engine + "__"@ + spec_format_datetime(ts) + "__"@ + container + "__"@ + db
        + ".sql"@
}

/// Synthesizes the output-file name for one captured dump.
pub fn output_file_name(engine: &str, ts: &Timestamp, container: &str, db: &str) -> (r: String)
    requires
        ts.wf(),
    ensures
        r@ == spec_output_file_name(engine@, *ts, container@, db@),
{
    let mut s = String::new();
    s.append("dump__");
    s.append(engine);
    s.append("__");
    let dt = format_datetime(ts);
    s.append(dt.as_str());
    s.append("__");
    s.append(container);
    s.append("__");
    s.append(db);
    s.append(".sql");
    proof {
        assert(s@ =~= spec_output_file_name(engine@, *ts, container@, db@));
    }
    s
}

/// The log-file name for one run: `logs-<timestamp>.txt`.
pub open spec fn spec_log_file_name(ts: Timestamp) -> Seq<char> {
    "logs-"@ + spec_format_datetime(ts) + ".txt"@
}

/// Synthesizes the log-file name for one run.
pub fn log_file_name(ts: &Timestamp) -> (r: String)
    requires
        ts.wf(),
    ensures
        r@ == spec_log_file_name(*ts),
{
    let mut s = String::new();
    s.append("logs-");
    let dt = format_datetime(ts);
    s.append(dt.as_str());
    s.append(".txt");
    proof {
        assert(s@ =~= spec_log_file_name(*ts));
    }
    s
}

/// A file name under a directory: `<dir>/<name>`.
pub open spec fn spec_join_path(dir: Seq<char>, name: Seq<char>) -> Seq<char> {
    dir + "/"@ + name
}

/// Joins a directory and a file name with a single separator.
pub fn join_path(dir: &str, name: &str) -> (r: String)
    ensures
        r@ == spec_join_path(dir@, name@),
{
    let mut s = String::new();
    s.append(dir);
    s.append("/");
    s.append(name);
    proof {
        assert(s@ =~= spec_join_path(dir@, name@));
    }
    s
}

/// The log entry appended when a credential's engine identifier is unknown.
pub open spec fn spec_unknown_engine_entry(ts: Timestamp, engine: Seq<char>) -> Seq<char> {
    "["@ + spec_format_datetime(ts) + " | Profugo] Unknown database engine: "@ + engine
}

/// Builds the log entry for an unknown engine identifier.
pub fn unknown_engine_entry(ts: &Timestamp, engine: &str) -> (r: String)
    requires
        ts.wf(),
    ensures
        r@ == spec_unknown_engine_entry(*ts, engine@),
{
    let mut s = String::new();
    s.append("[");
    let dt = format_datetime(ts);
    s.append(dt.as_str());
    s.append(" | Profugo] Unknown database engine: ");
    s.append(engine);
    proof {
        assert(s@ =~= spec_unknown_engine_entry(*ts, engine@));
    }
    s
}

/// The log entry appended when the dump command for a credential could not be
/// run: it names the container, the database and the error.
pub open spec fn spec_dump_error_entry(ts: Timestamp, cred: CredentialModel, err: Seq<char>) -> Seq<
    char,
> {
    "["@ + spec_format_datetime(ts) + " | Profugo, "@ + cred.container_name + " - "@ + cred.db_name
        + "] Error running dump: "@ + err
}

/// Builds the log entry for a dump-command execution failure.
pub fn dump_error_entry(ts: &Timestamp, cred: &crate::types::ProfugoContainersConfig, err: &str) -> (r:
    String)
    requires
        ts.wf(),
    ensures
        r@ == spec_dump_error_entry(*ts, cred@, err@),
{
    let mut s = String::new();
    s.append("[");
    let dt = format_datetime(ts);
    s.append(dt.as_str());
    s.append(" | Profugo, ");
    s.append(cred.container_name.as_str());
    s.append(" - ");
    s.append(cred.db_name.as_str());
    s.append("] Error running dump: ");
    s.append(err);
    proof {
        assert(s@ =~= spec_dump_error_entry(*ts, cred@, err@));
    }
    s
}

/// The log entry appended when a captured dump could not be persisted: it
/// names the container, the database, the target path and the error.
pub open spec fn spec_write_error_entry(
    ts: Timestamp,
    cred: CredentialModel,
    path: Seq<char>,
    err: Seq<char>,
) -> Seq<char> {
    "["@ + spec_format_datetime(ts) + " | Profugo, "@ + cred.container_name + " - "@ + cred.db_name
        + "] Error writing output to "@ + path + ": "@ + err
}

/// Builds the log entry for a dump-output write failure.
pub fn write_error_entry(
    ts: &Timestamp,
    cred: &crate::types::ProfugoContainersConfig,
    path: &str,
    err: &str,
) -> (r: String)
    requires
        ts.wf(),
    ensures
        r@ == spec_write_error_entry(*ts, cred@, path@, err@),
{
    let mut s = String::new();
    s.append("[");
    let dt = format_datetime(ts);
    s.append(dt.as_str());
    s.append(" | Profugo, ");
    s.append(cred.container_name.as_str());
    s.append(" - ");
    s.append(cred.db_name.as_str());
    s.append("] Error writing output to ");
    s.append(path);
    s.append(": ");
    s.append(err);
    proof {
        assert(s@ =~= spec_write_error_entry(*ts, cred@, path@, err@));
    }
    s
}

/// The log entry appended when the configuration cannot be loaded: the fatal
/// path that aborts the run.
pub open spec fn spec_config_error_entry(ts: Timestamp, err: Seq<char>) -> Seq<char> {
    "["@ + spec_format_datetime(ts) + " | Profugo] Error parsing config.json: "@ + err
}

/// Builds the log entry for a fatal configuration-load failure.
pub fn config_error_entry(ts: &Timestamp, err: &str) -> (r: String)
    requires
        ts.wf(),
    ensures
        r@ == spec_config_error_entry(*ts, err@),
{
    let mut s = String::new();
    s.append("[");
    let dt = format_datetime(ts);
    s.append(dt.as_str());
    s.append(" | Profugo] Error parsing config.json: ");
    s.append(err);
    proof {
        assert(s@ =~= spec_config_error_entry(*ts, err@));
    }
    s
}

} // verus!
