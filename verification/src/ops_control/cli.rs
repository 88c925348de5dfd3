//! The operator command line: parsing of the fixed subcommand set, the
//! routing split (daemon commands go over IPC; install and uninstall call
//! the lifecycle in-process), and the exit codes (health: healthy 0,
//! unhealthy 1, daemon unreachable or transport failure 2).

use vstd::prelude::*;

use crate::foundation::config::validator::join_with;
use crate::foundation::core_types::primitives::Timestamp;
use crate::foundation::core_types::sink::UploadHistoryRecord;
use crate::foundation::core_types::status::{Health, StatusSnapshot};
use crate::lifecycle::platform::windows_paths;
use crate::lifecycle::uninstall::{Artifact, ArtifactKind, ArtifactSet, UninstallOptions};
use crate::sync_state::store::{join_path, spec_join};
use crate::text::{chars_of, push_str, same_text, string_of};

use super::ipc::{spec_ipc_message, IpcError};
use super::protocol::{
    ConsentOp, ConsentView, ControlError, ControlOp, ControlResponse, ControlResult, HistoryFilter, StopMode,
};

verus! {

/// Process exit code: 0 success or healthy, 1 unhealthy or domain error,
/// 2 daemon unreachable, transport or usage error.
#[derive(Debug, Clone, Copy, PartialEq, Eq, Structural)]
pub struct ExitCode(pub u8);

/// A parsed subcommand.
#[derive(Debug, Clone, Copy, PartialEq, Eq)]
pub enum Command {
    /// Status.
    Status,
    /// Health (mapped to an exit code).
    Health,
    /// Pause watching.
    Pause,
    /// Resume watching.
    Resume,
    /// Immediate sync.
    SyncNow,
    /// Stop request.
    Stop(StopMode),
    /// History query.
    History(HistoryFilter),
    /// Consent control.
    Consent(ConsentOp),
    /// Configuration reload.
    Reload,
    /// Install the service (in-process).
    Install,
    /// Uninstall (in-process).
    Uninstall(UninstallOptions),
}

/// Parsed arguments.
#[derive(Debug, Clone, Copy, PartialEq, Eq)]
pub struct CliArgs {
    /// The command.
    pub command: Command,
    /// `--json` machine-readable output.
    pub json: bool,
}

/// Output and exit code of a run.
#[derive(Debug, Clone, PartialEq, Eq)]
pub struct CliResult {
    /// Rendered output.
    pub output: String,
    /// Exit code.
    pub exit_code: ExitCode,
}

/// The service lifecycle seam behind install and uninstall.
pub trait ServiceOps {
    /// Installs the service: a message, or an error message.
    fn install(&self) -> Result<String, String>;

    /// Uninstalls: a message, or an error message.
    fn uninstall(&self, opts: &UninstallOptions) -> Result<String, String>;
}

// ---------------------------------------------------------------------------
// Integers as `str::parse::<i64>` reads them.
// ---------------------------------------------------------------------------

/// An ASCII decimal digit.
pub open spec fn is_digit(c: char) -> bool {
    '0' <= c && c <= '9'
}

/// Every character is an ASCII decimal digit.
pub open spec fn all_digits(s: Seq<char>) -> bool {
    forall|i: int| 0 <= i < s.len() ==> is_digit(#[trigger] s[i])
}

/// The value of a string of decimal digits.
pub open spec fn digits_value(s: Seq<char>) -> nat
    decreases s.len(),
{
    if s.len() == 0 {
        0
    } else {
        digits_value(s.drop_last()) * 10 + ((s.last() as nat) - ('0' as nat)) as nat
    }
}

/// The value of a decimal `i64`: an optional `+` or `-`, then one or more
/// ASCII digits, within range; anything else (empty, a lone sign, another
/// character, whitespace, overflow) has none.
pub open spec fn spec_parse_i64(s: Seq<char>) -> Option<i64> {
    let neg = s.len() > 0 && s[0] == '-';
    let body = if s.len() > 0 && (s[0] == '-' || s[0] == '+') {
        s.drop_first()
    } else {
        s
    };
    if body.len() == 0 || !all_digits(body) {
        None
    } else if neg {
        if digits_value(body) <= 0x8000_0000_0000_0000 {
            Some((0 - digits_value(body)) as i64)
        } else {
            None
        }
    } else if digits_value(body) <= 0x7fff_ffff_ffff_ffff {
        Some(digits_value(body) as i64)
    } else {
        None
    }
}

/// `v` capped at `2^63 + 1`.
pub open spec fn capped(v: nat) -> nat {
    if v > 0x8000_0000_0000_0001 {
        0x8000_0000_0000_0001
    } else {
        v
    }
}

/// Reads a decimal `i64` (see `spec_parse_i64`).
pub fn parse_i64(s: &str) -> (r: Option<i64>)
    ensures
        r == spec_parse_i64(s@),
{
    let v = chars_of(s);
    let n = v.len();
    let neg = n > 0 && v[0] == '-';
    let start: usize = if n > 0 && (v[0] == '-' || v[0] == '+') {
        1
    } else {
        0
    };
    let ghost body = if s@.len() > 0 && (s@[0] == '-' || s@[0] == '+') {
        s@.drop_first()
    } else {
        s@
    };
    assert(body =~= v@.skip(start as int));
    if start == n {
        return None;
    }
    let mut acc: u128 = 0;
    let mut i: usize = start;
    while i < n
        invariant
            v@ == s@,
            n == v@.len(),
            start <= i <= n,
            body == v@.skip(start as int),
            body == (if s@.len() > 0 && (s@[0] == '-' || s@[0] == '+') {
                s@.drop_first()
            } else {
                s@
            }),
            forall|j: int| start <= j < i ==> is_digit(#[trigger] v@[j]),
            acc == capped(digits_value(v@.subrange(start as int, i as int))),
        decreases n - i,
    {
        let c = v[i];
        if !(c >= '0' && c <= '9') {
            assert(!all_digits(body)) by {
                assert(body[i - start] == v@[i as int]);
                assert(!is_digit(body[i - start]));
            }
            assert(spec_parse_i64(s@) is None);
            return None;
        }
        let d = (c as u32 - '0' as u32) as u128;
        assert(v@.subrange(start as int, i + 1).drop_last() =~= v@.subrange(start as int, i as int));
        let next = acc * 10 + d;
        acc = if next > 0x8000_0000_0000_0001 {
            0x8000_0000_0000_0001
        } else {
            next
        };
        i = i + 1;
    }
    assert(v@.subrange(start as int, n as int) =~= body);
    assert(all_digits(body)) by {
        assert forall|j: int| 0 <= j < body.len() implies is_digit(#[trigger] body[j]) by {
            assert(body[j] == v@[j + start]);
        }
    }
    if neg {
        if acc <= 0x8000_0000_0000_0000 {
            if acc == 0x8000_0000_0000_0000 {
                Some(i64::MIN)
            } else {
                Some(0 - (acc as i64))
            }
        } else {
            None
        }
    } else if acc <= 0x7fff_ffff_ffff_ffff {
        Some(acc as i64)
    } else {
        None
    }
}

// ---------------------------------------------------------------------------
// Parsing.
// ---------------------------------------------------------------------------

/// The text appended to every usage error.
pub open spec fn usage_tail() -> Seq<char> {
    "\n사용법: watcher <status|health|pause|resume|sync-now|stop|history|consent|reload|install|uninstall> [--json] [--immediate] [--since <nanos>] [--status <failed|success>] [--purge-token] [--purge-logs] [--keep-service]"@
}

/// A usage error: the reason, then the usage line.
pub open spec fn spec_usage(reason: Seq<char>) -> Seq<char> {
    reason + usage_tail()
}

/// Builds a usage error.
fn usage(reason: &str) -> (s: String)
    ensures
        s@ == spec_usage(reason@),
{
    let mut s = string_of(reason);
    push_str(
        &mut s,
        "\n사용법: watcher <status|health|pause|resume|sync-now|stop|history|consent|reload|install|uninstall> [--json] [--immediate] [--since <nanos>] [--status <failed|success>] [--purge-token] [--purge-logs] [--keep-service]",
    );
    s
}

/// A usage error whose reason is a fixed text followed by a value.
fn usage_with(reason: &str, value: &str) -> (s: String)
    ensures
        s@ == spec_usage(reason@ + value@),
{
    let mut r = string_of(reason);
    push_str(&mut r, value);
    usage(r.as_str())
}

/// The flags and words gathered while scanning the arguments.
pub struct ParseAcc {
    /// `--json`.
    pub json: bool,
    /// `--immediate`.
    pub immediate: bool,
    /// `--purge-token`.
    pub purge_token: bool,
    /// `--purge-logs`.
    pub purge_logs: bool,
    /// `--keep-service`.
    pub keep_service: bool,
    /// `--since <nanos>`.
    pub since: Option<i64>,
    /// `--status failed|success`.
    pub only_failures: Option<bool>,
    /// The other arguments, in order.
    pub words: Seq<Seq<char>>,
}

/// Scans the arguments: flags set their field (a later one wins), `--since`
/// and `--status` take the next argument, anything else is a word.
pub open spec fn spec_scan(args: Seq<Seq<char>>, acc: ParseAcc) -> Result<ParseAcc, Seq<char>>
    decreases args.len(),
{
    if args.len() == 0 {
        Ok(acc)
    } else {
        let a = args[0];
        let rest = args.drop_first();
        if a == "--json"@ {
            spec_scan(rest, ParseAcc { json: true, ..acc })
        } else if a == "--immediate"@ {
            spec_scan(rest, ParseAcc { immediate: true, ..acc })
        } else if a == "--purge-token"@ {
            spec_scan(rest, ParseAcc { purge_token: true, ..acc })
        } else if a == "--purge-logs"@ {
            spec_scan(rest, ParseAcc { purge_logs: true, ..acc })
        } else if a == "--keep-service"@ {
            spec_scan(rest, ParseAcc { keep_service: true, ..acc })
        } else if a == "--since"@ {
            if rest.len() == 0 {
                Err(spec_usage("--since 는 값(unix nanos)이 필요합니다"@))
            } else {
                match spec_parse_i64(rest[0]) {
                    None => Err(spec_usage("--since 는 정수(unix nanos)여야 합니다"@)),
                    Some(v) => spec_scan(rest.drop_first(), ParseAcc { since: Some(v), ..acc }),
                }
            }
        } else if a == "--status"@ {
            if rest.len() == 0 {
                Err(spec_usage("--status 는 failed|success 가 필요합니다"@))
            } else if rest[0] == "failed"@ {
                spec_scan(rest.drop_first(), ParseAcc { only_failures: Some(true), ..acc })
            } else if rest[0] == "success"@ {
                spec_scan(rest.drop_first(), ParseAcc { only_failures: Some(false), ..acc })
            } else {
                Err(spec_usage("--status 값이 잘못됨: "@ + rest[0]))
            }
        } else {
            spec_scan(rest, ParseAcc { words: acc.words.push(a), ..acc })
        }
    }
}

/// The accumulator before any argument.
pub open spec fn initial_acc() -> ParseAcc {
    ParseAcc {
        json: false,
        immediate: false,
        purge_token: false,
        purge_logs: false,
        keep_service: false,
        since: None,
        only_failures: None,
        words: Seq::empty(),
    }
}

/// The command named by the words and flags.
pub open spec fn spec_command(acc: ParseAcc) -> Result<Command, Seq<char>> {
    if acc.words.len() == 0 {
        Err(spec_usage("서브커맨드가 필요합니다"@))
    } else {
        let w = acc.words[0];
        if w == "status"@ {
            Ok(Command::Status)
        } else if w == "health"@ {
            Ok(Command::Health)
        } else if w == "pause"@ {
            Ok(Command::Pause)
        } else if w == "resume"@ {
            Ok(Command::Resume)
        } else if w == "sync-now"@ {
            Ok(Command::SyncNow)
        } else if w == "stop"@ {
            Ok(
                Command::Stop(
                    if acc.immediate {
                        StopMode::Immediate
                    } else {
                        StopMode::Graceful
                    },
                ),
            )
        } else if w == "history"@ {
            Ok(
                Command::History(
                    HistoryFilter {
                        since: match acc.since {
                            Some(n) => Some(Timestamp(n)),
                            None => None,
                        },
                        only_failures: acc.only_failures,
                    },
                ),
            )
        } else if w == "consent"@ {
            if acc.words.len() < 2 {
                Err(spec_usage("consent <view|grant|withdraw|acknowledge>"@))
            } else {
                let x = acc.words[1];
                if x == "view"@ {
                    Ok(Command::Consent(ConsentOp::View))
                } else if x == "grant"@ {
                    Ok(Command::Consent(ConsentOp::Grant))
                } else if x == "withdraw"@ {
                    Ok(Command::Consent(ConsentOp::Withdraw))
                } else if x == "acknowledge"@ {
                    Ok(Command::Consent(ConsentOp::Acknowledge))
                } else {
                    Err(spec_usage("알 수 없는 consent 동작: "@ + x))
                }
            }
        } else if w == "reload"@ {
            Ok(Command::Reload)
        } else if w == "install"@ {
            Ok(Command::Install)
        } else if w == "uninstall"@ {
            Ok(
                Command::Uninstall(
                    UninstallOptions {
                        purge_token: acc.purge_token,
                        purge_logs: acc.purge_logs,
                        deregister_service: !acc.keep_service,
                    },
                ),
            )
        } else {
            Err(spec_usage("알 수 없는 서브커맨드: "@ + w))
        }
    }
}

/// Parsing: scan, then name the command; the first error is the result.
pub open spec fn spec_parse(args: Seq<Seq<char>>) -> Result<CliArgs, Seq<char>> {
    match spec_scan(args, initial_acc()) {
        Err(e) => Err(e),
        Ok(acc) => match spec_command(acc) {
            Err(e) => Err(e),
            Ok(c) => Ok(CliArgs { command: c, json: acc.json }),
        },
    }
}

/// The views of a slice of strings.
pub open spec fn arg_views(args: Seq<String>) -> Seq<Seq<char>> {
    args.map_values(|s: String| s@)
}

/// The parse result compared through views.
pub open spec fn parse_result_matches(r: Result<CliArgs, String>, s: Result<CliArgs, Seq<char>>) -> bool {
    match (r, s) {
        (Ok(a), Ok(b)) => a == b,
        (Err(m), Err(e)) => m@ == e,
        _ => false,
    }
}

/// The view of gathered words.
pub open spec fn word_views(words: Seq<String>) -> Seq<Seq<char>> {
    words.map_values(|s: String| s@)
}

/// A flag text of the command line.
pub open spec fn is_flag_text(x: Seq<char>) -> bool {
    x == "--json"@ || x == "--immediate"@ || x == "--purge-token"@ || x == "--purge-logs"@ || x
        == "--keep-service"@
}

/// No flag text is a decimal integer, `failed` or `success`, and the five
/// flag texts are pairwise different.
proof fn lemma_flag_texts()
    ensures
        forall|x: Seq<char>| #[trigger] is_flag_text(x) ==> spec_parse_i64(x) is None && x
            != "failed"@ && x != "success"@,
        "--json"@ != "--immediate"@,
        "--json"@ != "--purge-token"@,
        "--json"@ != "--purge-logs"@,
        "--json"@ != "--keep-service"@,
        "--immediate"@ != "--purge-token"@,
        "--immediate"@ != "--purge-logs"@,
        "--immediate"@ != "--keep-service"@,
        "--purge-token"@ != "--purge-logs"@,
        "--purge-token"@ != "--keep-service"@,
        "--purge-logs"@ != "--keep-service"@,
{
    reveal_strlit("--json");
    reveal_strlit("--immediate");
    reveal_strlit("--purge-token");
    reveal_strlit("--purge-logs");
    reveal_strlit("--keep-service");
    reveal_strlit("failed");
    reveal_strlit("success");
    assert("--json"@.len() == 6);
    assert("--immediate"@.len() == 11);
    assert("--purge-token"@.len() == 13);
    assert("--purge-logs"@.len() == 12);
    assert("--keep-service"@.len() == 14);
    assert forall|x: Seq<char>| #[trigger] is_flag_text(x) implies spec_parse_i64(x) is None && x
        != "failed"@ && x != "success"@ by {
        assert(x[0] == '-' && x[1] == '-');
        assert(x.drop_first()[0] == '-');
        assert(!is_digit(x.drop_first()[0]));
        assert(x.len() != "failed"@.len() || x[0] != "failed"@[0]);
        assert(x.len() != "success"@.len() || x[0] != "success"@[0]);
    }
}

/// Membership in a non-empty sequence: the first element or the rest.
proof fn lemma_contains_cons(args: Seq<Seq<char>>, x: Seq<char>)
    requires
        args.len() > 0,
    ensures
        args.contains(x) == (args[0] == x || args.drop_first().contains(x)),
{
    let rest = args.drop_first();
    if args.contains(x) && args[0] != x {
        let k = choose|k: int| 0 <= k < args.len() && args[k] == x;
        assert(rest[k - 1] == x);
    }
    if rest.contains(x) {
        let k = choose|k: int| 0 <= k < rest.len() && rest[k] == x;
        assert(args[k + 1] == x);
    }
}

/// A scan that succeeds sets each flag exactly when it was set before or the
/// flag is among the arguments (a flag is never consumed as the value of
/// `--since` or `--status`).
pub proof fn lemma_scan_flags(args: Seq<Seq<char>>, acc: ParseAcc)
    requires
        spec_scan(args, acc) is Ok,
    ensures
        spec_scan(args, acc)->Ok_0.json == (acc.json || args.contains("--json"@)),
        spec_scan(args, acc)->Ok_0.immediate == (acc.immediate || args.contains("--immediate"@)),
        spec_scan(args, acc)->Ok_0.purge_token == (acc.purge_token || args.contains(
            "--purge-token"@,
        )),
        spec_scan(args, acc)->Ok_0.purge_logs == (acc.purge_logs || args.contains("--purge-logs"@)),
        spec_scan(args, acc)->Ok_0.keep_service == (acc.keep_service || args.contains(
            "--keep-service"@,
        )),
    decreases args.len(),
{
    lemma_flag_texts();
    if args.len() == 0 {
        assert(!args.contains("--json"@));
        assert(!args.contains("--immediate"@));
        assert(!args.contains("--purge-token"@));
        assert(!args.contains("--purge-logs"@));
        assert(!args.contains("--keep-service"@));
    } else {
        let a = args[0];
        let rest = args.drop_first();
        lemma_contains_cons(args, "--json"@);
        lemma_contains_cons(args, "--immediate"@);
        lemma_contains_cons(args, "--purge-token"@);
        lemma_contains_cons(args, "--purge-logs"@);
        lemma_contains_cons(args, "--keep-service"@);
        if a == "--json"@ {
            lemma_scan_flags(rest, ParseAcc { json: true, ..acc });
        } else if a == "--immediate"@ {
            lemma_scan_flags(rest, ParseAcc { immediate: true, ..acc });
        } else if a == "--purge-token"@ {
            lemma_scan_flags(rest, ParseAcc { purge_token: true, ..acc });
        } else if a == "--purge-logs"@ {
            lemma_scan_flags(rest, ParseAcc { purge_logs: true, ..acc });
        } else if a == "--keep-service"@ {
            lemma_scan_flags(rest, ParseAcc { keep_service: true, ..acc });
        } else if a == "--since"@ || a == "--status"@ {
            let tail = rest.drop_first();
            lemma_contains_cons(rest, "--json"@);
            lemma_contains_cons(rest, "--immediate"@);
            lemma_contains_cons(rest, "--purge-token"@);
            lemma_contains_cons(rest, "--purge-logs"@);
            lemma_contains_cons(rest, "--keep-service"@);
            assert(!is_flag_text(rest[0]));
            if a == "--since"@ {
                let v = spec_parse_i64(rest[0])->Some_0;
                lemma_scan_flags(tail, ParseAcc { since: Some(v), ..acc });
            } else if rest[0] == "failed"@ {
                lemma_scan_flags(tail, ParseAcc { only_failures: Some(true), ..acc });
            } else {
                lemma_scan_flags(tail, ParseAcc { only_failures: Some(false), ..acc });
            }
        } else {
            assert(!is_flag_text(a));
            lemma_scan_flags(rest, ParseAcc { words: acc.words.push(a), ..acc });
        }
    }
}

/// `--json` is asked exactly when the flag is among the arguments.
pub proof fn lemma_parse_json_flag(args: Seq<String>, r: Result<CliArgs, String>)
    requires
        parse_result_matches(r, spec_parse(arg_views(args))),
        r is Ok,
    ensures
        r->Ok_0.json <==> arg_views(args).contains("--json"@),
{
    lemma_scan_flags(arg_views(args), initial_acc());
}

/// A parsed `uninstall` purges the token exactly with `--purge-token`, the
/// logs exactly with `--purge-logs`, and deregisters the service exactly
/// without `--keep-service`.
pub proof fn lemma_parse_uninstall_options(args: Seq<String>, r: Result<CliArgs, String>)
    requires
        parse_result_matches(r, spec_parse(arg_views(args))),
        r matches Ok(a) && a.command is Uninstall,
    ensures
        r->Ok_0.command matches Command::Uninstall(o) && (o.purge_token <==> arg_views(args).contains(
            "--purge-token"@,
        )) && (o.purge_logs <==> arg_views(args).contains("--purge-logs"@)) && (
        o.deregister_service <==> !arg_views(args).contains("--keep-service"@)),
{
    lemma_scan_flags(arg_views(args), initial_acc());
}

/// A parsed `stop` stops immediately exactly when `--immediate` is among the
/// arguments, and gracefully otherwise (for example `stop` alone).
pub proof fn lemma_parse_stop_mode(args: Seq<String>, r: Result<CliArgs, String>)
    requires
        parse_result_matches(r, spec_parse(arg_views(args))),
        r matches Ok(a) && a.command is Stop,
    ensures
        r->Ok_0.command == Command::Stop(StopMode::Immediate) <==> arg_views(args).contains(
            "--immediate"@,
        ),
        r->Ok_0.command == Command::Stop(StopMode::Graceful) <==> !arg_views(args).contains(
            "--immediate"@,
        ),
{
    lemma_scan_flags(arg_views(args), initial_acc());
}

/// Parses the fixed subcommand set (arguments without the program name);
/// an error is a usage text (exit code 2). It never panics.
#[verifier::rlimit(40)]
pub fn parse(args: &[String]) -> (r: Result<CliArgs, String>)
    ensures
        parse_result_matches(r, spec_parse(arg_views(args@))),
{
    let ghost all = arg_views(args@);
    let mut json = false;
    let mut immediate = false;
    let mut purge_token = false;
    let mut purge_logs = false;
    let mut keep_service = false;
    let mut since: Option<i64> = None;
    let mut only_failures: Option<bool> = None;
    let mut words: Vec<String> = Vec::new();
    let n = args.len();
    let mut i: usize = 0;
    assert(all.skip(0) =~= all);
    assert(word_views(words@) =~= Seq::<Seq<char>>::empty());
    while i < n
        invariant
            n == args@.len(),
            all == arg_views(args@),
            i <= n,
            spec_scan(all, initial_acc()) == spec_scan(
                all.skip(i as int),
                ParseAcc {
                    json,
                    immediate,
                    purge_token,
                    purge_logs,
                    keep_service,
                    since,
                    only_failures,
                    words: word_views(words@),
                },
            ),
        decreases n - i,
    {
        let ghost rest = all.skip(i as int);
        let ghost acc = ParseAcc {
            json,
            immediate,
            purge_token,
            purge_logs,
            keep_service,
            since,
            only_failures,
            words: word_views(words@),
        };
        assert(rest[0] == args@[i as int]@);
        assert(rest.drop_first() =~= all.skip(i + 1));
        let arg = args[i].as_str();
        if same_text(arg, "--json") {
            json = true;
            i = i + 1;
        } else if same_text(arg, "--immediate") {
            immediate = true;
            i = i + 1;
        } else if same_text(arg, "--purge-token") {
            purge_token = true;
            i = i + 1;
        } else if same_text(arg, "--purge-logs") {
            purge_logs = true;
            i = i + 1;
        } else if same_text(arg, "--keep-service") {
            keep_service = true;
            i = i + 1;
        } else if same_text(arg, "--since") {
            if i + 1 >= n {
                return Err(usage("--since 는 값(unix nanos)이 필요합니다"));
            }
            assert(rest.drop_first()[0] == args@[i + 1]@);
            assert(rest.drop_first().drop_first() =~= all.skip(i + 2));
            match parse_i64(args[i + 1].as_str()) {
                None => {
                    return Err(usage("--since 는 정수(unix nanos)여야 합니다"));
                },
                Some(v) => {
                    since = Some(v);
                },
            }
            i = i + 2;
        } else if same_text(arg, "--status") {
            if i + 1 >= n {
                return Err(usage("--status 는 failed|success 가 필요합니다"));
            }
            assert(rest.drop_first()[0] == args@[i + 1]@);
            assert(rest.drop_first().drop_first() =~= all.skip(i + 2));
            let value = args[i + 1].as_str();
            if same_text(value, "failed") {
                only_failures = Some(true);
            } else if same_text(value, "success") {
                only_failures = Some(false);
            } else {
                return Err(usage_with("--status 값이 잘못됨: ", value));
            }
            i = i + 2;
        } else {
            let ghost before = words@;
            words.push(args[i].clone());
            assert(word_views(words@) =~= word_views(before).push(args@[i as int]@));
            i = i + 1;
        }
    }
    let ghost acc = ParseAcc {
        json,
        immediate,
        purge_token,
        purge_logs,
        keep_service,
        since,
        only_failures,
        words: word_views(words@),
    };
    assert(all.skip(i as int) =~= Seq::<Seq<char>>::empty());
    assert(spec_scan(all, initial_acc()) == Ok::<ParseAcc, Seq<char>>(acc));
    let command = command_of(&words, immediate, since, only_failures, purge_token, purge_logs, keep_service);
    match command {
        Ok(c) => Ok(CliArgs { command: c, json }),
        Err(e) => Err(e),
    }
}

/// Names the command from the gathered words and flags (see `spec_command`).
fn command_of(
    words: &Vec<String>,
    immediate: bool,
    since: Option<i64>,
    only_failures: Option<bool>,
    purge_token: bool,
    purge_logs: bool,
    keep_service: bool,
) -> (r: Result<Command, String>)
    ensures
        ({
            let acc = ParseAcc {
                json: false,
                immediate,
                purge_token,
                purge_logs,
                keep_service,
                since,
                only_failures,
                words: word_views(words@),
            };
            match (r, spec_command(acc)) {
                (Ok(a), Ok(b)) => a == b,
                (Err(m), Err(e)) => m@ == e,
                _ => false,
            }
        }),
{
    if words.len() == 0 {
        return Err(usage("서브커맨드가 필요합니다"));
    }
    let w = words[0].as_str();
    assert(word_views(words@)[0] == w@);
    if same_text(w, "status") {
        Ok(Command::Status)
    } else if same_text(w, "health") {
        Ok(Command::Health)
    } else if same_text(w, "pause") {
        Ok(Command::Pause)
    } else if same_text(w, "resume") {
        Ok(Command::Resume)
    } else if same_text(w, "sync-now") {
        Ok(Command::SyncNow)
    } else if same_text(w, "stop") {
        Ok(
            Command::Stop(
                if immediate {
                    StopMode::Immediate
                } else {
                    StopMode::Graceful
                },
            ),
        )
    } else if same_text(w, "history") {
        let since_ts = match since {
            Some(n) => Some(Timestamp::from_unix_nanos(n)),
            None => None,
        };
        Ok(Command::History(HistoryFilter { since: since_ts, only_failures }))
    } else if same_text(w, "consent") {
        if words.len() < 2 {
            return Err(usage("consent <view|grant|withdraw|acknowledge>"));
        }
        let x = words[1].as_str();
        assert(word_views(words@)[1] == x@);
        if same_text(x, "view") {
            Ok(Command::Consent(ConsentOp::View))
        } else if same_text(x, "grant") {
            Ok(Command::Consent(ConsentOp::Grant))
        } else if same_text(x, "withdraw") {
            Ok(Command::Consent(ConsentOp::Withdraw))
        } else if same_text(x, "acknowledge") {
            Ok(Command::Consent(ConsentOp::Acknowledge))
        } else {
            Err(usage_with("알 수 없는 consent 동작: ", x))
        }
    } else if same_text(w, "reload") {
        Ok(Command::Reload)
    } else if same_text(w, "install") {
        Ok(Command::Install)
    } else if same_text(w, "uninstall") {
        Ok(
            Command::Uninstall(
                UninstallOptions {
                    purge_token,
                    purge_logs,
                    deregister_service: !keep_service,
                },
            ),
        )
    } else {
        Err(usage_with("알 수 없는 서브커맨드: ", w))
    }
}

// ---------------------------------------------------------------------------
// Routing and exit codes.
// ---------------------------------------------------------------------------

/// The daemon operation of a command; `None` for install and uninstall.
pub open spec fn spec_control_op(c: Command) -> Option<ControlOp> {
    match c {
        Command::Status => Some(ControlOp::Status),
        Command::Health => Some(ControlOp::Health),
        Command::Pause => Some(ControlOp::Pause),
        Command::Resume => Some(ControlOp::Resume),
        Command::SyncNow => Some(ControlOp::SyncNow),
        Command::Stop(m) => Some(ControlOp::Stop(m)),
        Command::History(f) => Some(ControlOp::History(f)),
        Command::Consent(o) => Some(ControlOp::Consent(o)),
        Command::Reload => Some(ControlOp::Reload),
        Command::Install | Command::Uninstall(_) => None,
    }
}

/// Maps a daemon command to its operation (`None` for install and uninstall).
pub fn to_control_op(command: &Command) -> (r: Option<ControlOp>)
    ensures
        r == spec_control_op(*command),
{
    match command {
        Command::Status => Some(ControlOp::Status),
        Command::Health => Some(ControlOp::Health),
        Command::Pause => Some(ControlOp::Pause),
        Command::Resume => Some(ControlOp::Resume),
        Command::SyncNow => Some(ControlOp::SyncNow),
        Command::Stop(mode) => Some(ControlOp::Stop(*mode)),
        Command::History(filter) => Some(ControlOp::History(*filter)),
        Command::Consent(op) => Some(ControlOp::Consent(*op)),
        Command::Reload => Some(ControlOp::Reload),
        Command::Install | Command::Uninstall(_) => None,
    }
}

/// Where a command goes: exactly one of the service lifecycle or the daemon.
#[derive(Debug, Clone, Copy, PartialEq, Eq)]
pub enum Route {
    /// Install in-process.
    Install,
    /// Uninstall in-process.
    Uninstall(UninstallOptions),
    /// Send the operation to the daemon.
    Daemon(ControlOp),
}

/// The route of a command.
pub fn route(command: &Command) -> (r: Route)
    ensures
        match *command {
            Command::Install => r == Route::Install,
            Command::Uninstall(o) => r == Route::Uninstall(o),
            _ => spec_control_op(*command) matches Some(op) && r == Route::Daemon(op),
        },
{
    match command {
        Command::Install => Route::Install,
        Command::Uninstall(opts) => Route::Uninstall(*opts),
        _ => {
            let op = to_control_op(command);
            match op {
                Some(op) => Route::Daemon(op),
                None => Route::Install,
            }
        },
    }
}

/// The text `format!("{:?}", ..)` gives for a domain error.
pub uninterp spec fn control_error_debug(e: ControlError) -> Seq<char>;

/// The text `format!("{:?}", ..)` gives for a result.
pub uninterp spec fn control_result_debug(r: ControlResult) -> Seq<char>;

/// The debug text of a domain error.
///
/// Trusted: calls `format!("{:?}", ..)` on the derived `Debug`; the text is
/// named (a function of the value alone), not stated.
#[verifier::external_body]
fn debug_control_error(e: &ControlError) -> (s: String)
    ensures
        s@ == control_error_debug(*e),
{
    format!("{:?}", e)
}

/// The debug text of a result.
///
/// Trusted: calls `format!("{:?}", ..)` on the derived `Debug`; the text is
/// named (a function of the value alone), not stated.
#[verifier::external_body]
fn debug_control_result(r: &ControlResult) -> (s: String)
    ensures
        s@ == control_result_debug(*r),
{
    format!("{:?}", r)
}

/// The texts of health reasons.
pub open spec fn health_reason_texts(h: Health) -> Seq<Seq<char>> {
    match h {
        Health::Unhealthy { reasons } => reasons@.map_values(
            |r: crate::foundation::core_types::status::HealthReason| r.0@,
        ),
        Health::Healthy => Seq::empty(),
    }
}

/// The health exit code: `Healthy` 0; `Unhealthy`, a domain error or an
/// unexpected result 1; any transport failure 2.
pub open spec fn spec_health_exit(response: Result<ControlResponse, IpcError>) -> u8 {
    match response {
        Ok(resp) => match resp.result {
            ControlResult::Health(Health::Healthy) => 0,
            _ => 1,
        },
        Err(_) => 2,
    }
}

/// The health output text.
pub open spec fn spec_health_output(response: Result<ControlResponse, IpcError>) -> Seq<char> {
    match response {
        Ok(resp) => match resp.result {
            ControlResult::Health(Health::Healthy) => "healthy"@,
            ControlResult::Health(h) => "unhealthy: "@ + join_with(health_reason_texts(h), ", "@),
            ControlResult::Error(e) => "오류: "@ + control_error_debug(e),
            other => "예상치 못한 응답: "@ + control_result_debug(other),
        },
        Err(IpcError::Connect) => "데몬에 도달할 수 없습니다"@,
        Err(e) => "전송 오류: "@ + spec_ipc_message(e),
    }
}

/// Joins texts with a separator.
fn join_texts(parts: &Vec<crate::foundation::core_types::status::HealthReason>, sep: &str) -> (s: String)
    ensures
        s@ == join_with(
            parts@.map_values(|r: crate::foundation::core_types::status::HealthReason| r.0@),
            sep@,
        ),
{
    let ghost texts = parts@.map_values(
        |r: crate::foundation::core_types::status::HealthReason| r.0@,
    );
    let mut out = String::new();
    let n = parts.len();
    let mut i: usize = 0;
    while i < n
        invariant
            n == parts@.len(),
            texts == parts@.map_values(
                |r: crate::foundation::core_types::status::HealthReason| r.0@,
            ),
            i <= n,
            out@ == join_with(texts.take(i as int), sep@),
        decreases n - i,
    {
        assert(texts.take(i + 1).drop_last() =~= texts.take(i as int));
        if i > 0 {
            push_str(&mut out, sep);
        }
        push_str(&mut out, parts[i].0.as_str());
        i = i + 1;
        if i == 1 {
            assert(out@ =~= texts.take(1)[0]);
        }
    }
    assert(texts.take(n as int) =~= texts);
    out
}

/// Maps a health response to output and exit code (exhaustive and exclusive).
pub fn map_health(response: &Result<ControlResponse, IpcError>) -> (r: CliResult)
    ensures
        r.exit_code.0 == spec_health_exit(*response),
        r.output@ == spec_health_output(*response),
{
    match response {
        Ok(resp) => match &resp.result {
            ControlResult::Health(Health::Healthy) => CliResult {
                output: string_of("healthy"),
                exit_code: ExitCode(0),
            },
            ControlResult::Health(Health::Unhealthy { reasons }) => {
                let joined = join_texts(reasons, ", ");
                let mut out = string_of("unhealthy: ");
                push_str(&mut out, joined.as_str());
                CliResult { output: out, exit_code: ExitCode(1) }
            },
            ControlResult::Error(err) => {
                let mut out = string_of("오류: ");
                let d = debug_control_error(err);
                push_str(&mut out, d.as_str());
                CliResult { output: out, exit_code: ExitCode(1) }
            },
            other => {
                let mut out = string_of("예상치 못한 응답: ");
                let d = debug_control_result(other);
                push_str(&mut out, d.as_str());
                CliResult { output: out, exit_code: ExitCode(1) }
            },
        },
        Err(IpcError::Connect) => CliResult {
            output: string_of("데몬에 도달할 수 없습니다"),
            exit_code: ExitCode(2),
        },
        Err(other) => {
            let mut out = string_of("전송 오류: ");
            let m = other.message();
            push_str(&mut out, m.as_str());
            CliResult { output: out, exit_code: ExitCode(2) }
        },
    }
}

/// The exit code of a daemon command other than health: success 0, domain
/// error 1, transport failure 2.
pub open spec fn spec_daemon_exit(response: Result<ControlResponse, IpcError>) -> u8 {
    match response {
        Ok(resp) => match resp.result {
            ControlResult::Error(_) => 1,
            _ => 0,
        },
        Err(_) => 2,
    }
}

/// The exit code of a daemon command other than health.
pub fn daemon_exit_code(response: &Result<ControlResponse, IpcError>) -> (c: ExitCode)
    ensures
        c.0 == spec_daemon_exit(*response),
{
    match response {
        Ok(resp) => match &resp.result {
            ControlResult::Error(_) => ExitCode(1),
            _ => ExitCode(0),
        },
        Err(_) => ExitCode(2),
    }
}

/// Renders a service lifecycle outcome: its message, with 0 on success and 1 on failure.
pub fn render_service(result: Result<String, String>) -> (r: CliResult)
    ensures
        match result {
            Ok(m) => r.output@ == m@ && r.exit_code.0 == 0,
            Err(m) => r.output@ == m@ && r.exit_code.0 == 1,
        },
{
    match result {
        Ok(output) => CliResult { output, exit_code: ExitCode(0) },
        Err(output) => CliResult { output, exit_code: ExitCode(1) },
    }
}

/// The text `format!("{:?}", ..)` gives for a status snapshot.
pub uninterp spec fn status_snapshot_debug(s: StatusSnapshot) -> Seq<char>;

/// The text `format!("{:?}", ..)` gives for a list of history records.
pub uninterp spec fn history_debug(v: Seq<UploadHistoryRecord>) -> Seq<char>;

/// The text `format!("{:?}", ..)` gives for a consent view.
pub uninterp spec fn consent_view_debug(v: ConsentView) -> Seq<char>;

/// The text `format!("{:?}", ..)` gives for a health verdict.
pub uninterp spec fn health_debug(h: Health) -> Seq<char>;

/// The debug text of a status snapshot.
///
/// Trusted: calls `format!("{:?}", ..)` on the derived `Debug`; the text is
/// named (a function of the value alone), not stated.
#[verifier::external_body]
fn debug_status_snapshot(s: &StatusSnapshot) -> (t: String)
    ensures
        t@ == status_snapshot_debug(*s),
{
    format!("{:?}", s)
}

/// The debug text of a list of history records.
///
/// Trusted: calls `format!("{:?}", ..)` on the derived `Debug` of the
/// records' `Vec`; the text is named, not stated.
#[verifier::external_body]
fn debug_history(v: &Vec<UploadHistoryRecord>) -> (t: String)
    ensures
        t@ == history_debug(v@),
{
    format!("{:?}", v)
}

/// The debug text of a consent view.
///
/// Trusted: calls `format!("{:?}", ..)` on the derived `Debug`; the text is
/// named, not stated.
#[verifier::external_body]
fn debug_consent_view(v: &ConsentView) -> (t: String)
    ensures
        t@ == consent_view_debug(*v),
{
    format!("{:?}", v)
}

/// The debug text of a health verdict.
///
/// Trusted: calls `format!("{:?}", ..)` on the derived `Debug`; the text is
/// named, not stated.
#[verifier::external_body]
fn debug_health(h: &Health) -> (t: String)
    ensures
        t@ == health_debug(*h),
{
    format!("{:?}", h)
}

/// A payload's text: the JSON text when `--json` was asked and the caller
/// could encode it, else the human (debug) text.
pub open spec fn spec_payload_text(json: bool, json_text: Option<String>, human: Seq<char>) -> Seq<char> {
    if json {
        match json_text {
            Some(t) => t@,
            None => human,
        }
    } else {
        human
    }
}

/// The output of a daemon command other than health. `json_text` is the
/// JSON encoding of the response's payload, when the caller made one.
pub open spec fn spec_daemon_output(
    json: bool,
    response: Result<ControlResponse, IpcError>,
    json_text: Option<String>,
) -> Seq<char> {
    match response {
        Ok(resp) => match resp.result {
            ControlResult::Error(e) => "오류: "@ + control_error_debug(e),
            ControlResult::Status(s) => spec_payload_text(json, json_text, status_snapshot_debug(s)),
            ControlResult::History(v) => spec_payload_text(json, json_text, history_debug(v@)),
            ControlResult::Consent(c) => spec_payload_text(json, json_text, consent_view_debug(c)),
            ControlResult::Health(h) => health_debug(h),
            ControlResult::Ack => "OK"@,
        },
        Err(IpcError::Connect) => "데몬에 도달할 수 없습니다"@,
        Err(e) => "전송 오류: "@ + spec_ipc_message(e),
    }
}

/// Picks the payload text (see `spec_payload_text`).
fn payload_text(json: bool, json_text: Option<String>, human: String) -> (t: String)
    ensures
        t@ == spec_payload_text(json, json_text, human@),
{
    if json {
        match json_text {
            Some(t) => t,
            None => human,
        }
    } else {
        human
    }
}

/// Renders a daemon response other than health: a domain error as `오류: `
/// and its debug text (exit 1); a status, history or consent payload as its
/// JSON text under `--json` (the debug text when no JSON text was made) or
/// its debug text (exit 0); a health verdict as its debug text and an
/// acknowledgement as `OK` (exit 0); an unreachable daemon or a transport
/// failure as a message (exit 2).
pub fn render_daemon(
    json: bool,
    response: &Result<ControlResponse, IpcError>,
    json_text: Option<String>,
) -> (r: CliResult)
    ensures
        r.exit_code.0 == spec_daemon_exit(*response),
        r.output@ == spec_daemon_output(json, *response, json_text),
{
    let exit_code = daemon_exit_code(response);
    let output = match response {
        Ok(resp) => match &resp.result {
            ControlResult::Error(err) => {
                let mut s = string_of("오류: ");
                let d = debug_control_error(err);
                push_str(&mut s, d.as_str());
                s
            },
            ControlResult::Status(snapshot) => payload_text(json, json_text, debug_status_snapshot(snapshot)),
            ControlResult::History(records) => payload_text(json, json_text, debug_history(records)),
            ControlResult::Consent(view) => payload_text(json, json_text, debug_consent_view(view)),
            ControlResult::Health(health) => debug_health(health),
            ControlResult::Ack => string_of("OK"),
        },
        Err(IpcError::Connect) => string_of("데몬에 도달할 수 없습니다"),
        Err(other) => {
            let mut s = string_of("전송 오류: ");
            let m = other.message();
            push_str(&mut s, m.as_str());
            s
        },
    };
    CliResult { output, exit_code }
}

/// Renders the daemon's response to a command: `health` through the health
/// mapping, every other daemon command through `render_daemon`.
pub fn render_response(
    command: &Command,
    json: bool,
    response: &Result<ControlResponse, IpcError>,
    json_text: Option<String>,
) -> (r: CliResult)
    ensures
        *command == Command::Health ==> r.exit_code.0 == spec_health_exit(*response) && r.output@
            == spec_health_output(*response),
        *command != Command::Health ==> r.exit_code.0 == spec_daemon_exit(*response) && r.output@
            == spec_daemon_output(json, *response, json_text),
{
    match command {
        Command::Health => map_health(response),
        _ => render_daemon(json, response, json_text),
    }
}

/// The clean-up targets under `data_dir`, joined with a separator: history,
/// sync state, log and configuration, in that order (the vault check is
/// made again at uninstall).
pub open spec fn artifact_set_with(data_dir: Seq<char>, s: ArtifactSet, sep: char) -> bool {
    &&& s.0@.len() == 4
    &&& s.0@[0].kind == ArtifactKind::UploadHistory && s.0@[0].path@ == spec_join(
        data_dir,
        "history.cbor"@,
        sep,
    )
    &&& s.0@[1].kind == ArtifactKind::SyncState && s.0@[1].path@ == spec_join(
        data_dir,
        "sync-state.cbor"@,
        sep,
    )
    &&& s.0@[2].kind == ArtifactKind::Log && s.0@[2].path@ == spec_join(data_dir, "watcher.log"@, sep)
    &&& s.0@[3].kind == ArtifactKind::ConfigToken && s.0@[3].path@ == spec_join(
        data_dir,
        "config.json"@,
        sep,
    )
}

/// The clean-up targets under the data directory, joined with the
/// platform's separator (`\\` on Windows, `/` elsewhere).
pub fn assemble_artifact_set(data_dir: &str) -> (s: ArtifactSet)
    ensures
        artifact_set_with(data_dir@, s, '/') || artifact_set_with(data_dir@, s, '\\'),
{
    let sep = if windows_paths() {
        '\\'
    } else {
        '/'
    };
    let mut v: Vec<Artifact> = Vec::new();
    v.push(Artifact { kind: ArtifactKind::UploadHistory, path: join_path(data_dir, "history.cbor", sep) });
    v.push(Artifact { kind: ArtifactKind::SyncState, path: join_path(data_dir, "sync-state.cbor", sep) });
    v.push(Artifact { kind: ArtifactKind::Log, path: join_path(data_dir, "watcher.log", sep) });
    v.push(Artifact { kind: ArtifactKind::ConfigToken, path: join_path(data_dir, "config.json", sep) });
    let s = ArtifactSet(v);
    assert(artifact_set_with(data_dir@, s, sep));
    s
}

/// Exit codes: the health command exits 0 exactly for a `Healthy` verdict
/// and 2 exactly for a transport failure (1 otherwise); any other daemon
/// command exits 1 exactly for a domain error and 2 exactly for a transport
/// failure (0 otherwise).
pub proof fn lemma_exit_codes(response: Result<ControlResponse, IpcError>)
    ensures
        spec_health_exit(response) == 0 <==> (response matches Ok(resp) && resp.result
            == ControlResult::Health(Health::Healthy)),
        spec_health_exit(response) == 2 <==> response is Err,
        spec_daemon_exit(response) == 1 <==> (response matches Ok(resp) && resp.result is Error),
        spec_daemon_exit(response) == 2 <==> response is Err,
        spec_health_exit(response) <= 2 && spec_daemon_exit(response) <= 2,
{
}

} // verus!
