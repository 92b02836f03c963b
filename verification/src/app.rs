//! The command line: its arguments, what a run does with them, and its errors.
use vstd::prelude::*;
use crate::classifier::{Decision, classify, classify_spec};
use crate::context::LineContext;
use crate::ime::InputMode;
use crate::numbers::{decimal_spec, parse_u64, parse_unsigned_spec, parse_usize, push_decimal};
use crate::text::str_equals;

verus! {

broadcast use vstd::seq_lib::group_seq_properties;

/// The command-line settings.
pub struct CliArgs {
    pub line: String,
    pub cursor: usize,
    pub apply: bool,
    pub listen: bool,
    pub watch: bool,
    pub debug: bool,
    pub interval_ms: u64,
}

/// The settings as plain values.
pub ghost struct CliView {
    pub line: Seq<char>,
    pub cursor: nat,
    pub apply: bool,
    pub listen: bool,
    pub watch: bool,
    pub debug: bool,
    pub interval_ms: nat,
}

pub open spec fn cli_view(args: CliArgs) -> CliView {
    CliView {
        line: args.line@,
        cursor: args.cursor as nat,
        apply: args.apply,
        listen: args.listen,
        watch: args.watch,
        debug: args.debug,
        interval_ms: args.interval_ms as nat,
    }
}

/// The settings when no option is given: no line, caret 0, no apply, no
/// listen, no console watcher, no diagnostics, 250 ms between polls.
pub open spec fn default_cli_view() -> CliView {
    CliView {
        line: Seq::empty(),
        cursor: 0,
        apply: false,
        listen: false,
        watch: false,
        debug: false,
        interval_ms: 250,
    }
}

/// A number option's value, or `fallback` when it is not a number that fits.
pub open spec fn number_or(s: Seq<char>, max: nat, fallback: nat) -> nat {
    match parse_unsigned_spec(s, max) {
        Some(v) => v,
        None => fallback,
    }
}

/// Reads the remaining arguments into `acc`. `--line`, `--cursor` and
/// `--interval-ms` take the next argument as their value (whatever it is);
/// when it is missing the value is the empty line, 0 and 250. A `--cursor` or
/// `--interval-ms` value that is not a number gives 0 and 250. `--apply`,
/// `--listen`, `--watch` (the console watcher) and `--debug` (the watcher's
/// detailed diagnostics) are switches; anything else is skipped.
pub open spec fn cli_parse_from(rest: Seq<Seq<char>>, acc: CliView) -> CliView
    decreases rest.len(),
{
    if rest.len() == 0 {
        acc
    } else {
        let arg = rest[0];
        if arg == "--line"@ {
            if rest.len() >= 2 {
                cli_parse_from(rest.skip(2), CliView { line: rest[1], ..acc })
            } else {
                CliView { line: Seq::empty(), ..acc }
            }
        } else if arg == "--cursor"@ {
            if rest.len() >= 2 {
                cli_parse_from(
                    rest.skip(2),
                    CliView { cursor: number_or(rest[1], usize::MAX as nat, 0), ..acc },
                )
            } else {
                CliView { cursor: 0, ..acc }
            }
        } else if arg == "--apply"@ {
            cli_parse_from(rest.skip(1), CliView { apply: true, ..acc })
        } else if arg == "--listen"@ {
            cli_parse_from(rest.skip(1), CliView { listen: true, ..acc })
        } else if arg == "--watch"@ {
            cli_parse_from(rest.skip(1), CliView { watch: true, ..acc })
        } else if arg == "--debug"@ {
            cli_parse_from(rest.skip(1), CliView { debug: true, ..acc })
        } else if arg == "--interval-ms"@ {
            if rest.len() >= 2 {
                cli_parse_from(
                    rest.skip(2),
                    CliView { interval_ms: number_or(rest[1], u64::MAX as nat, 250), ..acc },
                )
            } else {
                CliView { interval_ms: 250, ..acc }
            }
        } else {
            cli_parse_from(rest.skip(1), acc)
        }
    }
}

/// One option as it is written on the command line: `--line`, `--cursor` or
/// `--interval-ms` followed by its value, or one of the switches `--apply`,
/// `--listen`, `--watch` and `--debug`.
pub open spec fn is_whole_option(a: Seq<Seq<char>>) -> bool {
    ||| a.len() == 2 && (a[0] == "--line"@ || a[0] == "--cursor"@ || a[0] == "--interval-ms"@)
    ||| a.len() == 1 && (a[0] == "--apply"@ || a[0] == "--listen"@ || a[0] == "--watch"@ || a[0]
        == "--debug"@)
}

/// The settings after one option.
spec fn after_option(a: Seq<Seq<char>>, acc: CliView) -> CliView {
    if a[0] == "--line"@ {
        CliView { line: a[1], ..acc }
    } else if a[0] == "--cursor"@ {
        CliView { cursor: number_or(a[1], usize::MAX as nat, 0), ..acc }
    } else if a[0] == "--interval-ms"@ {
        CliView { interval_ms: number_or(a[1], u64::MAX as nat, 250), ..acc }
    } else if a[0] == "--apply"@ {
        CliView { apply: true, ..acc }
    } else if a[0] == "--listen"@ {
        CliView { listen: true, ..acc }
    } else if a[0] == "--watch"@ {
        CliView { watch: true, ..acc }
    } else {
        CliView { debug: true, ..acc }
    }
}

proof fn lemma_option_names_differ()
    ensures
        "--line"@ != "--cursor"@,
        "--line"@ != "--interval-ms"@,
        "--line"@ != "--apply"@,
        "--line"@ != "--listen"@,
        "--line"@ != "--watch"@,
        "--line"@ != "--debug"@,
        "--cursor"@ != "--interval-ms"@,
        "--cursor"@ != "--apply"@,
        "--cursor"@ != "--listen"@,
        "--cursor"@ != "--watch"@,
        "--cursor"@ != "--debug"@,
        "--interval-ms"@ != "--apply"@,
        "--interval-ms"@ != "--listen"@,
        "--interval-ms"@ != "--watch"@,
        "--interval-ms"@ != "--debug"@,
        "--apply"@ != "--listen"@,
        "--apply"@ != "--watch"@,
        "--apply"@ != "--debug"@,
        "--listen"@ != "--watch"@,
        "--listen"@ != "--debug"@,
        "--watch"@ != "--debug"@,
{
    reveal_strlit("--line");
    reveal_strlit("--cursor");
    reveal_strlit("--interval-ms");
    reveal_strlit("--apply");
    reveal_strlit("--listen");
    reveal_strlit("--watch");
    reveal_strlit("--debug");
    assert("--line"@[2] != "--cursor"@[2]);
    assert("--line"@[2] != "--interval-ms"@[2]);
    assert("--line"@[2] != "--apply"@[2]);
    assert("--line"@[4] != "--listen"@[4]);
    assert("--line"@[2] != "--watch"@[2]);
    assert("--line"@[2] != "--debug"@[2]);
    assert("--cursor"@[2] != "--interval-ms"@[2]);
    assert("--cursor"@[2] != "--apply"@[2]);
    assert("--cursor"@[2] != "--listen"@[2]);
    assert("--cursor"@[2] != "--watch"@[2]);
    assert("--cursor"@[2] != "--debug"@[2]);
    assert("--interval-ms"@[2] != "--apply"@[2]);
    assert("--interval-ms"@[2] != "--listen"@[2]);
    assert("--interval-ms"@[2] != "--watch"@[2]);
    assert("--interval-ms"@[2] != "--debug"@[2]);
    assert("--apply"@[2] != "--listen"@[2]);
    assert("--apply"@[2] != "--watch"@[2]);
    assert("--apply"@[2] != "--debug"@[2]);
    assert("--listen"@[2] != "--watch"@[2]);
    assert("--listen"@[2] != "--debug"@[2]);
    assert("--watch"@[2] != "--debug"@[2]);
}

proof fn lemma_parse_one_option(a: Seq<Seq<char>>, rest: Seq<Seq<char>>, acc: CliView)
    requires
        is_whole_option(a),
    ensures
        cli_parse_from(a + rest, acc) == cli_parse_from(rest, after_option(a, acc)),
{
    lemma_option_names_differ();
    let all = a + rest;
    assert(all[0] == a[0]);
    if a.len() == 2 {
        assert(all[1] == a[1]);
        assert(all.skip(2) =~= rest);
    } else {
        assert(all.skip(1) =~= rest);
    }
}

/// Options are independent of each other: two different options given one
/// after the other give the same settings in either order, whatever comes
/// after them. (Giving `--line` neither resets nor moves the caret, and so on
/// for every pair.)
pub proof fn law_different_options_commute(
    a: Seq<Seq<char>>,
    b: Seq<Seq<char>>,
    rest: Seq<Seq<char>>,
    acc: CliView,
)
    requires
        is_whole_option(a),
        is_whole_option(b),
        a[0] != b[0],
    ensures
        cli_parse_from(a + b + rest, acc) == cli_parse_from(b + a + rest, acc),
{
    lemma_option_names_differ();
    assert(a + b + rest =~= a + (b + rest));
    assert(b + a + rest =~= b + (a + rest));
    lemma_parse_one_option(a, b + rest, acc);
    lemma_parse_one_option(b, rest, after_option(a, acc));
    lemma_parse_one_option(b, a + rest, acc);
    lemma_parse_one_option(a, rest, after_option(b, acc));
    assert(after_option(b, after_option(a, acc)) == after_option(a, after_option(b, acc)));
}

/// The arguments' texts.
pub open spec fn arg_texts(args: Seq<String>) -> Seq<Seq<char>> {
    args.map_values(|a: String| a@)
}

impl CliArgs {
    /// Reads the settings from the program's arguments (without the program name).
    #[verifier::rlimit(40)]
    pub fn from_args(args: &Vec<String>) -> (r: CliArgs)
        ensures
            cli_view(r) == cli_parse_from(arg_texts(args@), default_cli_view()),
    {
        let mut line = String::new();
        let mut cursor: usize = 0;
        let mut apply = false;
        let mut listen = false;
        let mut watch = false;
        let mut debug = false;
        let mut interval_ms: u64 = 250;
        let ghost all = arg_texts(args@);
        let mut i: usize = 0;
        while i < args.len()
            invariant
                all == arg_texts(args@),
                i <= args.len(),
                cli_parse_from(all, default_cli_view()) == cli_parse_from(
                    all.skip(i as int),
                    CliView {
                        line: line@,
                        cursor: cursor as nat,
                        apply,
                        listen,
                        watch,
                        debug,
                        interval_ms: interval_ms as nat,
                    },
                ),
            decreases args.len() - i,
        {
            let arg = args[i].as_str();
            let ghost rest = all.skip(i as int);
            assert(rest[0] == arg@);
            if str_equals(arg, "--line") {
                if i + 1 < args.len() {
                    line = args[i + 1].clone();
                    assert(rest[1] == line@);
                    assert(rest.skip(2) =~= all.skip(i + 2));
                    i = i + 2;
                } else {
                    line = String::new();
                    assert(all.skip(args.len() as int) =~= Seq::<Seq<char>>::empty());
                    i = args.len();
                }
            } else if str_equals(arg, "--cursor") {
                if i + 1 < args.len() {
                    assert(rest[1] == args[i + 1]@);
                    cursor = match parse_usize(args[i + 1].as_str()) {
                        Some(v) => v,
                        None => 0,
                    };
                    assert(rest.skip(2) =~= all.skip(i + 2));
                    i = i + 2;
                } else {
                    cursor = 0;
                    assert(all.skip(args.len() as int) =~= Seq::<Seq<char>>::empty());
                    i = args.len();
                }
            } else if str_equals(arg, "--apply") {
                apply = true;
                assert(rest.skip(1) =~= all.skip(i + 1));
                i = i + 1;
            } else if str_equals(arg, "--listen") {
                listen = true;
                assert(rest.skip(1) =~= all.skip(i + 1));
                i = i + 1;
            } else if str_equals(arg, "--watch") {
                watch = true;
                assert(rest.skip(1) =~= all.skip(i + 1));
                i = i + 1;
            } else if str_equals(arg, "--debug") {
                debug = true;
                assert(rest.skip(1) =~= all.skip(i + 1));
                i = i + 1;
            } else if str_equals(arg, "--interval-ms") {
                if i + 1 < args.len() {
                    assert(rest[1] == args[i + 1]@);
                    interval_ms = match parse_u64(args[i + 1].as_str()) {
                        Some(v) => v,
                        None => 250,
                    };
                    assert(rest.skip(2) =~= all.skip(i + 2));
                    i = i + 2;
                } else {
                    interval_ms = 250;
                    assert(all.skip(args.len() as int) =~= Seq::<Seq<char>>::empty());
                    i = args.len();
                }
            } else {
                assert(rest.skip(1) =~= all.skip(i + 1));
                i = i + 1;
            }
        }
        CliArgs { line, cursor, apply, listen, watch, debug, interval_ms }
    }
}

/// Why a command-line run failed.
#[derive(Debug, Clone, PartialEq, Eq)]
pub enum AppError {
    MissingLine,
    InvalidCursor { cursor: usize, text_len: usize },
    Platform(String),
}

/// The message of an error, as it is printed after `error: `.
pub open spec fn app_error_message(e: AppError) -> Seq<char> {
    match e {
        AppError::MissingLine => "missing required argument: --line"@,
        AppError::InvalidCursor { cursor, text_len } => "cursor "@ + decimal_spec(cursor as nat)
            + " is out of bounds for text length "@ + decimal_spec(text_len as nat),
        AppError::Platform(message) => message@,
    }
}

impl AppError {
    /// The error's message.
    pub fn to_string(&self) -> (message: String)
        ensures
            message@ == app_error_message(*self),
    {
        match self {
            AppError::MissingLine => String::from_str("missing required argument: --line"),
            AppError::InvalidCursor { cursor, text_len } => {
                let mut message = String::from_str("cursor ");
                push_decimal(&mut message, *cursor as u64);
                message.append(" is out of bounds for text length ");
                push_decimal(&mut message, *text_len as u64);
                message
            },
            AppError::Platform(message) => message.clone(),
        }
    }
}

/// What a run does.
pub enum RunPlan {
    /// Watch the foreground state, polling every `interval_ms` milliseconds,
    /// with detailed diagnostics when `debug` is set.
    Listen { interval_ms: u64, debug: bool },
    /// Classify the given line once, and apply the decision when asked to.
    OneShot { context: LineContext, decision: Decision, apply: bool },
}

/// Whether a run watches the foreground state: when asked to with
/// `--listen` or `--watch`, or when no line is given.
pub open spec fn watches(args: CliView) -> bool {
    args.listen || args.watch || args.line.len() == 0
}

/// Chooses between watching and a one-shot classification: watching when
/// asked to or when no line is given; otherwise the line is classified at
/// the caret, which must lie within it.
pub fn plan_run(args: CliArgs) -> (r: Result<RunPlan, AppError>)
    ensures
        watches(cli_view(args)) ==> (r matches Ok(RunPlan::Listen { interval_ms, debug })
            && interval_ms == args.interval_ms && debug == args.debug),
        !watches(cli_view(args)) && args.cursor <= args.line@.len() ==> (r matches Ok(
            RunPlan::OneShot { context, decision, apply },
        ) && context@.line == args.line@ && context@.cursor == args.cursor && decision
            == classify_spec(args.line@, args.cursor as nat) && apply == args.apply),
        !watches(cli_view(args)) && args.cursor > args.line@.len() ==> r == Err::<
            RunPlan,
            AppError,
        >(AppError::InvalidCursor { cursor: args.cursor, text_len: args.line@.len() as usize }),
{
    if args.listen || args.watch || args.line.as_str().is_empty() {
        proof {
            assert(args.line@.len() == 0 <==> args.line@ =~= Seq::<char>::empty());
        }
        return Ok(RunPlan::Listen { interval_ms: args.interval_ms, debug: args.debug });
    }
    proof {
        if args.line@.len() == 0 {
            assert(args.line@ =~= Seq::<char>::empty());
        }
    }
    match LineContext::new(args.line, args.cursor) {
        Ok(context) => {
            let decision = classify(&context);
            Ok(RunPlan::OneShot { context, decision, apply: args.apply })
        },
        Err((cursor, text_len)) => Err(AppError::InvalidCursor { cursor, text_len }),
    }
}

/// What became of a one-shot apply.
#[derive(Debug, Clone, Copy, PartialEq, Eq, Structural)]
pub enum ApplyOutcome {
    Applied,
    SkippedAlreadyMatched,
    SkippedUnknownCurrentMode,
}

impl ApplyOutcome {
    /// Whether the IME was written, and the reason printed as `apply_reason`.
    pub fn report(&self) -> (r: (bool, &'static str))
        ensures
            r.0 == (*self == ApplyOutcome::Applied),
            r.1@ == match *self {
                ApplyOutcome::Applied => "mode_changed"@,
                ApplyOutcome::SkippedAlreadyMatched => "already_matched"@,
                ApplyOutcome::SkippedUnknownCurrentMode => "current_mode_unknown"@,
            },
    {
        match self {
            ApplyOutcome::Applied => (true, "mode_changed"),
            ApplyOutcome::SkippedAlreadyMatched => (false, "already_matched"),
            ApplyOutcome::SkippedUnknownCurrentMode => (false, "current_mode_unknown"),
        }
    }
}

/// Applies `target_mode` through `switch_to` only when the current mode is
/// known and differs from it; a failed switch is returned as its error.
pub fn maybe_apply_mode<F>(switch_to: F, current_mode: Option<InputMode>, target_mode: InputMode) -> (r:
    Result<ApplyOutcome, String>) where F: FnOnce(InputMode) -> Result<(), String>
    requires
        current_mode matches Some(m) && m != target_mode ==> call_requires(
            switch_to,
            (target_mode,),
        ),
    ensures
        current_mode == Some(target_mode) ==> r == Ok::<ApplyOutcome, String>(
            ApplyOutcome::SkippedAlreadyMatched,
        ),
        current_mode.is_none() ==> r == Ok::<ApplyOutcome, String>(
            ApplyOutcome::SkippedUnknownCurrentMode,
        ),
        current_mode matches Some(m) && m != target_mode ==> exists|done: Result<(), String>|
            call_ensures(switch_to, (target_mode,), done) && r == match done {
                Ok(_) => Ok::<ApplyOutcome, String>(ApplyOutcome::Applied),
                Err(e) => Err::<ApplyOutcome, String>(e),
            },
{
    match current_mode {
        Some(mode) => {
            if mode == target_mode {
                Ok(ApplyOutcome::SkippedAlreadyMatched)
            } else {
                let done = switch_to(target_mode);
                match done {
                    Ok(()) => Ok(ApplyOutcome::Applied),
                    Err(e) => Err(e),
                }
            }
        },
        None => Ok(ApplyOutcome::SkippedUnknownCurrentMode),
    }
}

} // verus!
