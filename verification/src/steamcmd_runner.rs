//! SteamCMD runner configuration, scripts and output interpretation.
//!
//! Running the SteamCMD process itself happens outside this library; here
//! are the configuration, the script it is given, and what its output means.
use vstd::prelude::*;
use vstd::arithmetic::power2::{
    lemma2_to64, lemma2_to64_rest, lemma_pow2_pos, lemma_pow2_strictly_increases, lemma_pow2_unfold,
    pow2,
};
use crate::steam_errors::{parse_exit_status, SteamCmdError};
use crate::text::{
    chars_to_string, contains, contains_chars, decimal, decimal_chars, digit_char,
    extend_with_chars, extend_with_str, push_decimal, str_chars,
};

verus! {

/// SteamCMD runner configuration.
#[derive(Clone, Debug)]
pub struct RunnerConfig {
    /// Path to steamcmd binary.
    pub steamcmd_path: String,
    /// Installation directory for ARK server.
    pub install_dir: Option<String>,
    /// Timeout for steamcmd operations (in seconds).
    pub timeout_secs: Option<u64>,
    /// Run with `login anonymous` (default true).
    pub anonymous_login: bool,
    /// Extra args to pass to steamcmd.
    pub extra_args: Vec<String>,
}

impl RunnerConfig {
    /// A runner config for the given steamcmd path: no install directory, a
    /// one-hour timeout, anonymous login, no extra arguments.
    pub fn new(steamcmd_path: String) -> (c: Self)
        ensures
            c.steamcmd_path == steamcmd_path,
            c.install_dir is None,
            c.timeout_secs == Some(3600u64),
            c.anonymous_login,
            c.extra_args@.len() == 0,
    {
        RunnerConfig {
            steamcmd_path,
            install_dir: None,
            timeout_secs: Some(3600),
            anonymous_login: true,
            extra_args: Vec::new(),
        }
    }

    /// Sets the install directory.
    pub fn with_install_dir(self, dir: String) -> (c: Self)
        ensures
            c.install_dir == Some(dir),
            c.steamcmd_path == self.steamcmd_path,
            c.timeout_secs == self.timeout_secs,
            c.anonymous_login == self.anonymous_login,
            c.extra_args == self.extra_args,
    {
        let mut c = self;
        c.install_dir = Some(dir);
        c
    }

    /// Login with credentials: only anonymous login is supported, so the
    /// configuration keeps anonymous login on.
    pub fn with_login(self, username: &str, password: &str) -> (c: Self)
        ensures
            c.anonymous_login,
            c.steamcmd_path == self.steamcmd_path,
            c.install_dir == self.install_dir,
            c.timeout_secs == self.timeout_secs,
            c.extra_args == self.extra_args,
    {
        let mut c = self;
        c.anonymous_login = true;
        c
    }
}

/// The script lines, each followed by a newline.
pub open spec fn script_body(lines: Seq<&str>) -> Seq<char>
    decreases lines.len(),
{
    if lines.len() == 0 {
        seq![]
    } else {
        script_body(lines.drop_last()) + lines.last()@ + seq!['\n']
    }
}

/// The SteamCMD script: `login anonymous` when anonymous login is on, then
/// the given lines, then `quit`, each on a line of its own.
pub open spec fn script_text(lines: Seq<&str>, anonymous_login: bool) -> Seq<char> {
    (if anonymous_login {
        "login anonymous\n"@
    } else {
        Seq::<char>::empty()
    }) + script_body(lines) + "quit\n"@
}

/// Builds a SteamCMD script from lines (see [`script_text`]).
pub fn build_script(lines: &[&str], config: &RunnerConfig) -> (s: String)
    ensures
        s@ == script_text(lines@, config.anonymous_login),
{
    let mut v: Vec<char> = Vec::new();
    if config.anonymous_login {
        extend_with_str(&mut v, "login anonymous\n");
    }
    let ghost head = v@;
    let mut i: usize = 0;
    while i < lines.len()
        invariant
            i <= lines@.len(),
            v@ == head + script_body(lines@.take(i as int)),
        decreases lines.len() - i,
    {
        extend_with_str(&mut v, lines[i]);
        v.push('\n');
        assert(lines@.take(i + 1).drop_last() =~= lines@.take(i as int));
        assert(v@ =~= head + script_body(lines@.take(i + 1)));
        i = i + 1;
    }
    assert(lines@.take(i as int) =~= lines@);
    extend_with_str(&mut v, "quit\n");
    chars_to_string(&v)
}

/// `force_install_dir "{dir}"` followed by an `app_update 376030` command line
/// ending in `suffix` (the ARK dedicated server's Steam app id is 376030).
pub open spec fn app_update_script(install_dir: Seq<char>, suffix: Seq<char>) -> Seq<char> {
    "force_install_dir \""@ + install_dir + "\"\napp_update 376030"@ + suffix
}

/// The script line that installs or updates the server into a directory,
/// with `suffix` appended to the `app_update` command (such as ` validate`).
pub fn app_update_command(install_dir: &str, suffix: &str) -> (s: String)
    ensures
        s@ == app_update_script(install_dir@, suffix@),
{
    let mut v: Vec<char> = Vec::new();
    extend_with_str(&mut v, "force_install_dir \"");
    extend_with_str(&mut v, install_dir);
    extend_with_str(&mut v, "\"\napp_update 376030");
    extend_with_str(&mut v, suffix);
    chars_to_string(&v)
}

/// Whether SteamCMD's output reports a successful validation: it mentions
/// `Success` or `Verification complete`.
pub open spec fn reports_success(output: Seq<char>) -> bool {
    contains(output, "Success"@) || contains(output, "Verification complete"@)
}

/// Whether SteamCMD's output reports a successful validation.
pub fn output_reports_success(output: &str) -> (r: bool)
    ensures
        r == reports_success(output@),
{
    let o = str_chars(output);
    let a = str_chars("Success");
    let b = str_chars("Verification complete");
    contains_chars(&o, &a) || contains_chars(&o, &b)
}

/// The `app_status 376030` script line for a directory.
pub open spec fn app_status_script(install_dir: Seq<char>) -> Seq<char> {
    "force_install_dir \""@ + install_dir + "\"\napp_status 376030"@
}

/// The script line that reports the installed server's status in a directory.
pub fn app_status_command(install_dir: &str) -> (s: String)
    ensures
        s@ == app_status_script(install_dir@),
{
    let mut v: Vec<char> = Vec::new();
    extend_with_str(&mut v, "force_install_dir \"");
    extend_with_str(&mut v, install_dir);
    extend_with_str(&mut v, "\"\napp_status 376030");
    chars_to_string(&v)
}

/// A runner configuration for a steamcmd path and an install directory
/// (see [`RunnerConfig::new`]).
pub fn runner_for(steamcmd_path: &str, install_dir: &str) -> (c: RunnerConfig)
    ensures
        c.steamcmd_path@ == steamcmd_path@,
        c.install_dir matches Some(d) && d@ == install_dir@,
        c.timeout_secs == Some(3600u64),
        c.anonymous_login,
        c.extra_args@.len() == 0,
{
    RunnerConfig::new(String::from_str(steamcmd_path)).with_install_dir(String::from_str(install_dir))
}

/// How a SteamCMD process ended.
#[derive(Clone, Debug)]
pub enum RunEnd {
    /// It exited: whether successfully, and its exit code (absent when a
    /// signal ended it).
    Exited { success: bool, code: Option<i32> },
    /// It did not finish within the timeout (in seconds) and was killed.
    TimedOut(u64),
    /// Waiting for it failed; the error's text.
    WaitFailed(String),
}

/// The error for a SteamCMD process that could not be started: `NotFound`
/// when the binary does not exist, else an IO error with the description.
pub fn spawn_error(not_found: bool, description: String) -> (e: SteamCmdError)
    ensures
        not_found ==> e == SteamCmdError::NotFound,
        !not_found ==> e == SteamCmdError::IoError(description),
{
    if not_found {
        SteamCmdError::NotFound
    } else {
        SteamCmdError::IoError(description)
    }
}

/// A line of SteamCMD's error stream as it is kept in the output.
pub fn stderr_output_line(line: &str) -> (s: String)
    ensures
        s@ == "[stderr] "@ + line@,
{
    let mut v: Vec<char> = Vec::new();
    extend_with_str(&mut v, "[stderr] ");
    extend_with_str(&mut v, line);
    chars_to_string(&v)
}

/// Texts joined with a newline between each two.
pub open spec fn joined_lines(ls: Seq<Seq<char>>) -> Seq<char>
    decreases ls.len(),
{
    if ls.len() == 0 {
        Seq::<char>::empty()
    } else if ls.len() == 1 {
        ls[0]
    } else {
        joined_lines(ls.drop_last()) + seq!['\n'] + ls.last()
    }
}

/// Joins output lines with newlines (`[..].join("\n")`).
pub fn join_lines(lines: &Vec<String>) -> (s: String)
    ensures
        s@ == joined_lines(lines@.map_values(|l: String| l@)),
{
    let ghost views = lines@.map_values(|l: String| l@);
    let mut v: Vec<char> = Vec::new();
    let mut i: usize = 0;
    while i < lines.len()
        invariant
            i <= lines@.len(),
            views == lines@.map_values(|l: String| l@),
            v@ == joined_lines(views.take(i as int)),
        decreases lines.len() - i,
    {
        if i > 0 {
            v.push('\n');
        }
        extend_with_str(&mut v, lines[i].as_str());
        assert(views.take(i + 1).drop_last() =~= views.take(i as int));
        assert(views.take(i + 1).last() == lines@[i as int]@);
        if i == 0 {
            assert(views.take(1)[0] == lines@[0]@);
        }
        assert(v@ =~= joined_lines(views.take(i + 1)));
        i = i + 1;
    }
    assert(views.take(i as int) =~= views);
    chars_to_string(&v)
}

/// What a SteamCMD run gives once the process has ended: a timeout and a
/// failed wait are errors, an unsuccessful exit is its exit-code error (see
/// [`parse_exit_status`]), and a successful one gives the collected output
/// lines joined with newlines.
pub fn finish_run(end: RunEnd, output_lines: &Vec<String>) -> (r: Result<String, SteamCmdError>)
    ensures
        match end {
            RunEnd::TimedOut(t) => r == Err::<String, SteamCmdError>(SteamCmdError::Timeout(t)),
            RunEnd::WaitFailed(d) => r == Err::<String, SteamCmdError>(SteamCmdError::IoError(d)),
            RunEnd::Exited { success, code } => if success {
                r matches Ok(s) && s@ == joined_lines(output_lines@.map_values(|l: String| l@))
            } else {
                r == Err::<String, SteamCmdError>(
                    SteamCmdError::ExitCode(
                        match code {
                            Some(c) => c,
                            None => -1i32,
                        },
                    ),
                )
            },
        },
{
    match end {
        RunEnd::TimedOut(t) => Err(SteamCmdError::Timeout(t)),
        RunEnd::WaitFailed(d) => Err(SteamCmdError::IoError(d)),
        RunEnd::Exited { success, code } => match parse_exit_status(success, code) {
            Some(e) => Err(e),
            None => Ok(join_lines(output_lines)),
        },
    }
}

/// The script line that validates the server files in a directory:
/// `app_update 376030 validate`.
pub fn validation_script(install_dir: &str) -> (s: String)
    ensures
        s@ == app_update_script(install_dir@, " validate"@),
{
    app_update_command(install_dir, " validate")
}

/// Reads the outcome of a validation run (see [`validation_script`]): a
/// failed run is its error; a completed one tells whether its output reports
/// success (see [`reports_success`]).
pub fn verify_install(outcome: Result<String, SteamCmdError>) -> (r: Result<bool, SteamCmdError>)
    ensures
        match outcome {
            Ok(output) => r == Ok::<bool, SteamCmdError>(reports_success(output@)),
            Err(e) => r == Err::<bool, SteamCmdError>(e),
        },
{
    match outcome {
        Ok(output) => Ok(output_reports_success(output.as_str())),
        Err(e) => Err(e),
    }
}

// ---------------------------------------------------------------------------
// Speed formatting
// ---------------------------------------------------------------------------

/// The smallest `e` from `from` on, at most 11, with `b < 2^(53 + e)`: the
/// number of low bits that do not fit an `f64` mantissa.
pub open spec fn excess_bits_from(b: nat, from: nat) -> nat
    decreases 11 - from,
{
    if from >= 11 || b < pow2(53 + from) {
        from
    } else {
        excess_bits_from(b, from + 1)
    }
}

/// The value of `b as f64` for a `u64` `b`: `b` rounded to 53 significant
/// bits, to nearest, ties to even.
pub open spec fn f64_value(b: nat) -> nat {
    let p = pow2(excess_bits_from(b, 0));
    let m = b / p;
    let r = b % p;
    let m2 = if 2 * r > p || (2 * r == p && m % 2 == 1) {
        m + 1
    } else {
        m
    };
    m2 * p
}

/// `v / unit` in tenths, rounded to nearest, ties to even.
pub open spec fn rounded_tenths(v: nat, unit: nat) -> nat {
    let t = v * 10;
    let q = t / unit;
    let r = t % unit;
    if 2 * r > unit || (2 * r == unit && q % 2 == 1) {
        q + 1
    } else {
        q
    }
}

/// A number of tenths written with one decimal, such as `1.5`.
pub open spec fn one_decimal(tenths: nat) -> Seq<char> {
    decimal(tenths / 10) + seq!['.'] + seq![digit_char(tenths % 10)]
}

/// `format_speed`: bytes per second in the largest unit (of B, KB, MB, GB,
/// each 1024 times the last) that is at most the speed; KB and above with
/// one decimal, as `{:.1}` prints the `f64` quotient.
pub open spec fn speed_text(b: u64) -> Seq<char> {
    if b >= 1073741824 {
        one_decimal(rounded_tenths(f64_value(b as nat), 1073741824)) + " GB/s"@
    } else if b >= 1048576 {
        one_decimal(rounded_tenths(f64_value(b as nat), 1048576)) + " MB/s"@
    } else if b >= 1024 {
        one_decimal(rounded_tenths(f64_value(b as nat), 1024)) + " KB/s"@
    } else {
        decimal(b as nat) + " B/s"@
    }
}

/// Rounds `b` to the value it has as an `f64` (see [`f64_value`]).
fn f64_value_exec(b: u64) -> (v: u128)
    ensures
        v == f64_value(b as nat),
        v <= 36893488147419103232,
{
    let mut p: u128 = 1;
    let mut e: u64 = 0;
    let mut limit: u128 = 9007199254740992;  // 2^53
    proof {
        lemma2_to64();
        lemma2_to64_rest();
    }
    while e < 11 && (b as u128) >= limit
        invariant
            e <= 11,
            p == pow2(e as nat),
            limit == pow2(53 + e as nat),
            p <= 2048,
            limit <= 18446744073709551616 * 2,
            excess_bits_from(b as nat, 0) == excess_bits_from(b as nat, e as nat),
        decreases 11 - e,
    {
        proof {
            lemma2_to64();
            lemma2_to64_rest();
            lemma_pow2_unfold(e as nat + 1);
            lemma_pow2_unfold(53 + e as nat + 1);
            if e + 1 < 11 {
                lemma_pow2_strictly_increases(e as nat + 1, 11);
                lemma_pow2_strictly_increases(53 + e as nat + 1, 64);
            }
        }
        p = p * 2;
        limit = limit * 2;
        e = e + 1;
    }
    proof {
        lemma_pow2_pos(e as nat);
    }
    let bb = b as u128;
    let m = bb / p;
    let r = bb % p;
    let m2 = if 2 * r > p || (2 * r == p && m % 2 == 1) { m + 1 } else { m };
    proof {
        assert(m <= bb);
        assert(m * p <= bb) by (nonlinear_arith)
            requires
                m == bb / p,
                p >= 1,
        ;
        assert(m2 * p <= bb + p) by (nonlinear_arith)
            requires
                m2 <= m + 1,
                m * p <= bb,
                p >= 1,
        ;
    }
    m2 * p
}

/// Writes `v / unit` with one decimal.
fn push_one_decimal(out: &mut Vec<char>, v: u128, unit: u128)
    requires
        1024 <= unit <= 1073741824,
        v <= 36893488147419103232,
    ensures
        final(out)@ == old(out)@ + one_decimal(rounded_tenths(v as nat, unit as nat)),
{
    let t = v * 10;
    let q = t / unit;
    let r = t % unit;
    let tenths = if 2 * r > unit || (2 * r == unit && q % 2 == 1) { q + 1 } else { q };
    proof {
        assert(q <= t);
        assert(tenths / 10 <= u64::MAX) by (nonlinear_arith)
            requires
                tenths <= q + 1,
                q == t / unit,
                unit >= 1024,
                t == v * 10,
                v <= 36893488147419103232,
        ;
    }
    push_decimal(out, (tenths / 10) as u64);
    out.push('.');
    let d = (tenths % 10) as u64;
    let mut dv: Vec<char> = Vec::new();
    push_decimal(&mut dv, d);
    proof {
        assert(decimal(d as nat) =~= seq![digit_char(d as nat)]);
    }
    extend_with_chars(out, &dv);
    assert(final(out)@ =~= old(out)@ + one_decimal(rounded_tenths(v as nat, unit as nat)));
}

/// Formats a speed in bytes per second (see [`speed_text`]).
pub fn format_speed(bytes_per_sec: u64) -> (s: String)
    ensures
        s@ == speed_text(bytes_per_sec),
{
    let mut v: Vec<char> = Vec::new();
    if bytes_per_sec >= 1073741824 {
        let x = f64_value_exec(bytes_per_sec);
        push_one_decimal(&mut v, x, 1073741824);
        extend_with_str(&mut v, " GB/s");
    } else if bytes_per_sec >= 1048576 {
        let x = f64_value_exec(bytes_per_sec);
        push_one_decimal(&mut v, x, 1048576);
        extend_with_str(&mut v, " MB/s");
    } else if bytes_per_sec >= 1024 {
        let x = f64_value_exec(bytes_per_sec);
        push_one_decimal(&mut v, x, 1024);
        extend_with_str(&mut v, " KB/s");
    } else {
        push_decimal(&mut v, bytes_per_sec);
        extend_with_str(&mut v, " B/s");
    }
    chars_to_string(&v)
}

} // verus!
