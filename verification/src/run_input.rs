//! Interpretation of `component run` inputs and command lines.
//!
//! `scope:component@version` inputs are reduced to their manifest key, and
//! the command line is rewritten so that everything after the positional
//! `<INPUT>` of `run` reaches the guest instead of the host's parser.
use vstd::prelude::*;

use crate::text::{
    chars_of, has_prefix, owned, push_str, slice, split_once, starts_with, str_eq, str_has_char,
    str_split_once,
};

verus! {

broadcast use vstd::string::group_string_axioms;

/// `input` without an optional `@version` suffix.
pub open spec fn spec_strip_at_version(input: Seq<char>) -> Seq<char> {
    match split_once(input, '@') {
        Some((name, _)) => name,
        None => input,
    }
}

/// Strip an optional `@version` suffix from a `scope:name@version` input,
/// returning just the manifest-key portion (`scope:name`). Inputs without an
/// `@` are returned unchanged.
pub fn strip_at_version(input: &str) -> (r: &str)
    ensures
        r@ == spec_strip_at_version(input@),
{
    match str_split_once(input, '@') {
        Some((name, _version)) => name,
        None => input,
    }
}

/// `input` has the `scope:component` shape of a manifest key.
pub open spec fn spec_looks_like_manifest_key(input: Seq<char>) -> bool {
    match split_once(input, ':') {
        Some((scope, component)) => scope.len() > 0 && component.len() > 0 && !input.contains('/')
            && !input.contains('.'),
        None => false,
    }
}

/// Check whether `input` looks like a manifest key (`scope:component`).
///
/// Manifest keys use `scope:component` syntax (e.g. `wasi:http`, `test:hello`)
/// without dots or slashes, which distinguishes them from OCI references
/// (e.g. `ghcr.io/user/repo:tag`). Callers that accept an optional `@version`
/// suffix must strip it first, since a version may contain `.` characters.
pub fn looks_like_manifest_key(input: &str) -> (r: bool)
    ensures
        r == spec_looks_like_manifest_key(input@),
{
    let Some((scope, component)) = str_split_once(input, ':') else {
        return false;
    };
    let s = chars_of(scope);
    let c = chars_of(component);
    s.len() > 0 && c.len() > 0 && !str_has_char(input, '/') && !str_has_char(input, '.')
}

// ---------------------------------------------------------------------------
// Trailing-argument quarantine

/// The views of a list of strings.
pub open spec fn views(v: Seq<String>) -> Seq<Seq<char>> {
    v.map_values(|s: String| s@)
}

/// A host flag of `run` (or a global flag) that takes no value.
pub open spec fn is_valueless_flag(t: Seq<char>) -> bool {
    ||| t == "--inherit-env"@
    ||| t == "--inherit-network"@
    ||| t == "--no-stdio"@
    ||| t == "--global"@
    ||| t == "-g"@
    ||| t == "-h"@
    ||| t == "--help"@
    ||| t == "-v"@
    ||| t == "--verbose"@
    ||| t == "-q"@
    ||| t == "--quiet"@
    ||| t == "--offline"@
}

/// A host flag of `run` (or a global flag) that consumes the next argument.
pub open spec fn is_valued_flag(t: Seq<char>) -> bool {
    ||| t == "--env"@
    ||| t == "--dir"@
    ||| t == "--listen"@
    ||| t == "--color"@
}

/// A value-taking host flag written in its `--flag=value` form.
pub open spec fn is_valued_assignment(t: Seq<char>) -> bool {
    &&& has_prefix(t, "--"@)
    &&& match split_once(t.skip(2), '=') {
        Some((name, _)) => is_valued_flag("--"@ + name),
        None => false,
    }
}

/// A token that starts with `-`.
pub open spec fn is_dashed(t: Seq<char>) -> bool {
    t.len() > 0 && t[0] == '-'
}

/// The rewrite of the arguments from position `i` on, `out` holding what
/// has been emitted so far.
pub open spec fn scan(args: Seq<Seq<char>>, i: int, out: Seq<Seq<char>>) -> Seq<Seq<char>>
    decreases args.len() - i,
{
    if i < 0 || i >= args.len() {
        out
    } else {
        let t = args[i];
        if t == "--"@ {
            out + args.skip(i)
        } else if is_valueless_flag(t) {
            scan(args, i + 1, out.push(t))
        } else if is_valued_flag(t) {
            if i + 1 < args.len() {
                scan(args, i + 2, out.push(t).push(args[i + 1]))
            } else {
                scan(args, i + 1, out.push(t))
            }
        } else if is_valued_assignment(t) {
            scan(args, i + 1, out.push(t))
        } else if is_dashed(t) {
            args
        } else if i + 1 < args.len() {
            out.push(t).push("--"@) + args.skip(i + 1)
        } else {
            out.push(t)
        }
    }
}

/// `i` is the position of the first `run` token.
pub open spec fn is_first_run(args: Seq<Seq<char>>, i: int) -> bool {
    &&& 0 <= i < args.len()
    &&& args[i] == "run"@
    &&& forall|j: int| 0 <= j < i ==> args[j] != "run"@
}

/// The command line with a `--` inserted after the positional `<INPUT>` of
/// the `run` subcommand (see [`quarantine_run_trailing_args`]).
pub open spec fn spec_quarantine(args: Seq<Seq<char>>) -> Seq<Seq<char>> {
    if exists|i: int| is_first_run(args, i) {
        let r = choose|i: int| is_first_run(args, i);
        scan(args, r + 1, args.take(r + 1))
    } else {
        args
    }
}

proof fn lemma_first_run_unique(args: Seq<Seq<char>>, i: int)
    requires
        is_first_run(args, i),
    ensures
        (choose|k: int| is_first_run(args, k)) == i,
{
    let k = choose|k: int| is_first_run(args, k);
    assert(is_first_run(args, k));
    if k < i {
        assert(args[k] != "run"@);
    } else if i < k {
        assert(args[i] != "run"@);
    }
}

/// `r` is `args`, or `args` with a single `--` inserted between two of its
/// elements.
pub open spec fn only_inserts_separator(args: Seq<Seq<char>>, r: Seq<Seq<char>>) -> bool {
    r == args || exists|k: int|
        0 < k < args.len() && r == #[trigger] args.take(k) + seq!["--"@] + args.skip(k)
}

proof fn lemma_scan_inserts_separator(args: Seq<Seq<char>>, i: int, out: Seq<Seq<char>>)
    requires
        0 < i <= args.len(),
        out == args.take(i),
    ensures
        only_inserts_separator(args, scan(args, i, out)),
    decreases args.len() - i,
{
    if i >= args.len() {
        assert(out =~= args);
    } else {
        let t = args[i];
        if t == "--"@ {
            assert(out + args.skip(i) =~= args);
        } else if is_valueless_flag(t) {
            assert(out.push(t) =~= args.take(i + 1));
            lemma_scan_inserts_separator(args, i + 1, out.push(t));
        } else if is_valued_flag(t) {
            if i + 1 < args.len() {
                assert(out.push(t).push(args[i + 1]) =~= args.take(i + 2));
                lemma_scan_inserts_separator(args, i + 2, out.push(t).push(args[i + 1]));
            } else {
                assert(out.push(t) =~= args.take(i + 1));
                lemma_scan_inserts_separator(args, i + 1, out.push(t));
            }
        } else if is_valued_assignment(t) {
            assert(out.push(t) =~= args.take(i + 1));
            lemma_scan_inserts_separator(args, i + 1, out.push(t));
        } else if is_dashed(t) {
        } else if i + 1 < args.len() {
            let k = i + 1;
            assert(out.push(t).push("--"@) + args.skip(i + 1) =~= args.take(k) + seq!["--"@]
                + args.skip(k));
        } else {
            assert(out.push(t) =~= args);
        }
    }
}

/// The rewrite never drops, reorders or alters an argument: the command
/// line comes back unchanged, or with one `--` inserted between two of its
/// arguments.
pub proof fn law_quarantine_only_inserts_separator(args: Seq<Seq<char>>)
    ensures
        only_inserts_separator(args, spec_quarantine(args)),
{
    if exists|i: int| is_first_run(args, i) {
        let r = choose|i: int| is_first_run(args, i);
        lemma_scan_inserts_separator(args, r + 1, args.take(r + 1));
    }
}

/// A command line without a `run` token is left as it is.
pub proof fn law_quarantine_without_run(args: Seq<Seq<char>>)
    requires
        !args.contains("run"@),
    ensures
        spec_quarantine(args) == args,
{
    if exists|i: int| is_first_run(args, i) {
        let r = choose|i: int| is_first_run(args, i);
        assert(args[r] == "run"@);
    }
}

/// A switch that `component run` declares (or a global one clap accepts
/// after `run`): it takes no value.
pub open spec fn run_switch(t: Seq<char>) -> bool {
    ||| t == "--inherit-env"@
    ||| t == "--inherit-network"@
    ||| t == "--no-stdio"@
    ||| t == "--global"@
    ||| t == "-g"@
    ||| t == "-h"@
    ||| t == "--help"@
    ||| t == "-v"@
    ||| t == "--verbose"@
    ||| t == "-q"@
    ||| t == "--quiet"@
    ||| t == "--offline"@
}

/// An option that `component run` declares (or the global `--color`): it
/// takes the next argument as its value.
pub open spec fn run_option(t: Seq<char>) -> bool {
    ||| t == "--env"@
    ||| t == "--dir"@
    ||| t == "--listen"@
    ||| t == "--color"@
}

/// Every declared flag starts with `-`, and none is the separator `--`.
proof fn lemma_declared_flags_dashed()
    ensures
        forall|t: Seq<char>| run_switch(t) ==> t.len() > 0 && t[0] == '-' && t != "--"@,
        forall|t: Seq<char>| run_option(t) ==> t.len() > 0 && t[0] == '-' && t != "--"@,
        forall|t: Seq<char>| is_valueless_flag(t) ==> t.len() > 0 && t[0] == '-',
        forall|t: Seq<char>| is_valued_flag(t) ==> t.len() > 0 && t[0] == '-',
        "--"@.len() == 2 && "--"@[0] == '-' && "--"@[1] == '-',
        "run"@ != "--"@,
{
    reveal_strlit("--inherit-env");
    reveal_strlit("--inherit-network");
    reveal_strlit("--no-stdio");
    reveal_strlit("--global");
    reveal_strlit("-g");
    reveal_strlit("-h");
    reveal_strlit("--help");
    reveal_strlit("-v");
    reveal_strlit("--verbose");
    reveal_strlit("-q");
    reveal_strlit("--quiet");
    reveal_strlit("--offline");
    reveal_strlit("--env");
    reveal_strlit("--dir");
    reveal_strlit("--listen");
    reveal_strlit("--color");
    reveal_strlit("--");
    reveal_strlit("run");
    assert("--inherit-env"@.len() > 0 && "--inherit-env"@[0] == '-');
    assert("--inherit-network"@.len() > 0 && "--inherit-network"@[0] == '-');
    assert("--no-stdio"@.len() > 0 && "--no-stdio"@[0] == '-');
    assert("--global"@.len() > 0 && "--global"@[0] == '-');
    assert("-g"@.len() > 0 && "-g"@[0] == '-');
    assert("-h"@.len() > 0 && "-h"@[0] == '-');
    assert("--help"@.len() > 0 && "--help"@[0] == '-');
    assert("-v"@.len() > 0 && "-v"@[0] == '-');
    assert("--verbose"@.len() > 0 && "--verbose"@[0] == '-');
    assert("-q"@.len() > 0 && "-q"@[0] == '-');
    assert("--quiet"@.len() > 0 && "--quiet"@[0] == '-');
    assert("--offline"@.len() > 0 && "--offline"@[0] == '-');
    assert("--env"@.len() > 0 && "--env"@[0] == '-');
    assert("--dir"@.len() > 0 && "--dir"@[0] == '-');
    assert("--listen"@.len() > 0 && "--listen"@[0] == '-');
    assert("--color"@.len() > 0 && "--color"@[0] == '-');
    assert("--"@.len() > 0 && "--"@[0] == '-');

    assert("--inherit-env"@.len() == 13);
    assert("--inherit-network"@.len() == 17);
    assert("--no-stdio"@.len() == 10);
    assert("--global"@.len() == 8);
    assert("-g"@.len() == 2);
    assert("-g"@[1] != '-');
    assert("-h"@.len() == 2);
    assert("-h"@[1] != '-');
    assert("--help"@.len() == 6);
    assert("-v"@.len() == 2);
    assert("-v"@[1] != '-');
    assert("--verbose"@.len() == 9);
    assert("-q"@.len() == 2);
    assert("-q"@[1] != '-');
    assert("--quiet"@.len() == 7);
    assert("--offline"@.len() == 9);
    assert("--env"@.len() == 5);
    assert("--dir"@.len() == 5);
    assert("--listen"@.len() == 8);
    assert("--color"@.len() == 7);
    assert("run"@[0] != "--"@[0]);
}

/// A token that does not start with `-` is no host flag of any kind.
proof fn lemma_plain_token(t: Seq<char>)
    requires
        !is_dashed(t),
    ensures
        t != "--"@,
        !is_valueless_flag(t),
        !is_valued_flag(t),
        !is_valued_assignment(t),
{
    lemma_declared_flags_dashed();
    if t.len() > 0 && has_prefix(t, "--"@) {
        assert(t[0] == "--"@[0]);
    }
}

/// Every switch `component run` declares is skipped as a host flag: the
/// input after it is taken as `<INPUT>`, and what follows the input is
/// handed to the guest behind a `--`.
pub proof fn law_run_switches_stay_with_the_host(
    c: Seq<char>,
    flag: Seq<char>,
    input: Seq<char>,
    rest: Seq<Seq<char>>,
)
    requires
        c != "run"@,
        run_switch(flag),
        !is_dashed(input),
        rest.len() > 0,
    ensures
        spec_quarantine(seq![c, "run"@, flag, input] + rest) == seq![c, "run"@, flag, input, "--"@]
            + rest,
{
    lemma_declared_flags_dashed();
    lemma_plain_token(input);
    let args = seq![c, "run"@, flag, input] + rest;
    assert(args[0] == c && args[1] == "run"@ && args[2] == flag && args[3] == input);
    assert(is_first_run(args, 1));
    lemma_first_run_unique(args, 1);
    assert(is_valueless_flag(flag));
    assert(flag != "--"@);
    let o2 = args.take(2);
    assert(scan(args, 2, o2) == scan(args, 3, o2.push(flag)));
    assert(scan(args, 3, o2.push(flag)) == o2.push(flag).push(input).push("--"@) + args.skip(4));
    assert(o2.push(flag).push(input).push("--"@) + args.skip(4) =~= seq![c, "run"@, flag, input, "--"@]
        + rest);
}

/// Every option `component run` declares is skipped as a host flag together
/// with its value: the input after them is taken as `<INPUT>`, and what
/// follows the input is handed to the guest behind a `--`.
pub proof fn law_run_options_stay_with_the_host(
    c: Seq<char>,
    option: Seq<char>,
    value: Seq<char>,
    input: Seq<char>,
    rest: Seq<Seq<char>>,
)
    requires
        c != "run"@,
        run_option(option),
        !is_dashed(input),
        rest.len() > 0,
    ensures
        spec_quarantine(seq![c, "run"@, option, value, input] + rest) == seq![
            c,
            "run"@,
            option,
            value,
            input,
            "--"@,
        ] + rest,
{
    lemma_declared_flags_dashed();
    lemma_plain_token(input);
    let args = seq![c, "run"@, option, value, input] + rest;
    assert(args[0] == c && args[1] == "run"@ && args[2] == option && args[3] == value && args[4] == input);
    assert(is_first_run(args, 1));
    lemma_first_run_unique(args, 1);
    assert(is_valued_flag(option));
    assert(option != "--"@);
    assert(!is_valueless_flag(option)) by {
        reveal_strlit("--env");
        reveal_strlit("--dir");
        reveal_strlit("--listen");
        reveal_strlit("--color");
        reveal_strlit("--inherit-env");
        reveal_strlit("--inherit-network");
        reveal_strlit("--no-stdio");
        reveal_strlit("--global");
        reveal_strlit("-g");
        reveal_strlit("-h");
        reveal_strlit("--help");
        reveal_strlit("-v");
        reveal_strlit("--verbose");
        reveal_strlit("-q");
        reveal_strlit("--quiet");
        reveal_strlit("--offline");
        assert("--listen"@.len() == 8 && "--global"@.len() == 8 && "--listen"@[2] != "--global"@[2]);
        assert("--color"@.len() == 7 && "--quiet"@.len() == 7 && "--color"@[2] != "--quiet"@[2]);
        assert("--help"@.len() == 6 && "--env"@.len() == 5 && "--dir"@.len() == 5);
        assert("--offline"@.len() == 9 && "--verbose"@.len() == 9 && "--no-stdio"@.len() == 10);
        assert("--inherit-env"@.len() == 13 && "--inherit-network"@.len() == 17);
        assert("-g"@.len() == 2 && "-h"@.len() == 2 && "-v"@.len() == 2 && "-q"@.len() == 2);
    }
    let o2 = args.take(2);
    assert(scan(args, 2, o2) == scan(args, 4, o2.push(option).push(value)));
    assert(scan(args, 4, o2.push(option).push(value)) == o2.push(option).push(value).push(input).push(
        "--"@,
    ) + args.skip(5));
    assert(o2.push(option).push(value).push(input).push("--"@) + args.skip(5) =~= seq![
        c,
        "run"@,
        option,
        value,
        input,
        "--"@,
    ] + rest);
}

fn is_valueless(t: &str) -> (r: bool)
    ensures
        r == is_valueless_flag(t@),
{
    str_eq(t, "--inherit-env") || str_eq(t, "--inherit-network") || str_eq(t, "--no-stdio")
        || str_eq(t, "--global") || str_eq(t, "-g") || str_eq(t, "-h") || str_eq(t, "--help")
        || str_eq(t, "-v") || str_eq(t, "--verbose") || str_eq(t, "-q") || str_eq(t, "--quiet")
        || str_eq(t, "--offline")
}

fn is_valued(t: &str) -> (r: bool)
    ensures
        r == is_valued_flag(t@),
{
    str_eq(t, "--env") || str_eq(t, "--dir") || str_eq(t, "--listen") || str_eq(t, "--color")
}

fn is_assignment(t: &str) -> (r: bool)
    ensures
        r == is_valued_assignment(t@),
{
    proof {
        reveal_strlit("--");
    }
    if !starts_with(t, "--") {
        return false;
    }
    let n = chars_of(t).len();
    let rest = slice(t, 2, n);
    assert(rest@ == t@.skip(2));
    match str_split_once(rest, '=') {
        Some((name, _)) => {
            let mut flag = owned("--");
            push_str(&mut flag, name);
            is_valued(flag.as_str())
        },
        None => false,
    }
}

fn is_dash_token(t: &str) -> (r: bool)
    ensures
        r == is_dashed(t@),
{
    let v = chars_of(t);
    v.len() > 0 && v[0] == '-'
}

fn find_run(args: &Vec<String>) -> (r: Option<usize>)
    ensures
        match r {
            Some(i) => is_first_run(views(args@), i as int),
            None => !exists|i: int| is_first_run(views(args@), i),
        },
{
    let ghost a = views(args@);
    for k in 0..args.len()
        invariant
            a == views(args@),
            forall|j: int| 0 <= j < k ==> a[j] != "run"@,
    {
        if str_eq(args[k].as_str(), "run") {
            return Some(k);
        }
    }
    None
}

/// Append clones of `args[from..]` to `out`.
fn extend_from(out: &mut Vec<String>, args: &Vec<String>, from: usize)
    requires
        from <= args.len(),
    ensures
        views(final(out)@) == views(old(out)@) + views(args@).skip(from as int),
{
    let ghost start = views(out@);
    for k in from..args.len()
        invariant
            from <= k <= args.len(),
            views(out@) == start + views(args@).subrange(from as int, k as int),
    {
        let ghost before = out@;
        out.push(args[k].clone());
        assert(out@ == before.push(args@[k as int]));
        assert(views(out@) =~= views(before).push(args@[k as int]@));
        assert(views(out@) =~= start + views(args@).subrange(from as int, k + 1));
    }
    assert(views(args@).subrange(from as int, args.len() as int) =~= views(args@).skip(
        from as int,
    ));
}

/// Insert `--` after the first positional argument of the `run`
/// subcommand so that everything after it is treated as guest arguments.
///
/// Host flags are `--inherit-env`, `--inherit-network`, `--no-stdio`,
/// `--global`/`-g`, plus the value-taking `--env`, `--dir`, `--listen`
/// (each followed by its value, or written `--flag=value`). The global
/// flags `-v`/`--verbose`, `-q`/`--quiet`, `--offline` and `--color` are
/// recognised too, and `-h`/`--help` before any positional asks for host
/// help.
///
/// If an explicit `--` separator appears before the positional `<INPUT>`,
/// the remainder is passed through unchanged. If an unrecognised
/// dash-prefixed token appears before the positional, the arguments are
/// returned unchanged so that the parser can report it.
pub fn quarantine_run_trailing_args(args: Vec<String>) -> (out: Vec<String>)
    ensures
        views(out@) == spec_quarantine(views(args@)),
{
    let ghost a = views(args@);
    let run_idx = match find_run(&args) {
        Some(r) => r,
        None => return args,
    };
    proof {
        lemma_first_run_unique(a, run_idx as int);
    }
    assert(run_idx < args.len());
    let mut out: Vec<String> = Vec::new();
    for j in 0..run_idx + 1
        invariant
            run_idx < args.len(),
            a == views(args@),
            views(out@) == a.take(j as int),
    {
        let ghost before = out@;
        out.push(args[j].clone());
        assert(out@ == before.push(args@[j as int]));
        assert(views(out@) =~= views(before).push(args@[j as int]@));
        assert(views(out@) =~= a.take(j + 1));
    }
    let mut i = run_idx + 1;
    loop
        invariant
            a == views(args@),
            run_idx < i <= args.len(),
            views(out@) == a.take(i as int),
            spec_quarantine(a) == scan(a, i as int, views(out@)),
        decreases args.len() - i,
    {
        if i >= args.len() {
            return out;
        }
        let ghost o = views(out@);
        let ghost t = a[i as int];
        if str_eq(args[i].as_str(), "--") {
            extend_from(&mut out, &args, i);
            return out;
        }
        if is_valueless(args[i].as_str()) {
            out.push(args[i].clone());
            assert(views(out@) =~= o.push(t));
            assert(views(out@) =~= a.take(i + 1));
            i = i + 1;
            continue;
        }
        if is_valued(args[i].as_str()) {
            out.push(args[i].clone());
            assert(views(out@) =~= o.push(t));
            assert(views(out@) =~= a.take(i + 1));
            i = i + 1;
            if i < args.len() {
                out.push(args[i].clone());
                assert(views(out@) =~= o.push(t).push(a[i as int]));
                assert(views(out@) =~= a.take(i + 1));
                i = i + 1;
            }
            continue;
        }
        if is_assignment(args[i].as_str()) {
            out.push(args[i].clone());
            assert(views(out@) =~= o.push(t));
            assert(views(out@) =~= a.take(i + 1));
            i = i + 1;
            continue;
        }
        if is_dash_token(args[i].as_str()) {
            return args;
        }
        out.push(args[i].clone());
        assert(views(out@) =~= o.push(t));
        i = i + 1;
        if i < args.len() {
            out.push(owned("--"));
            assert(views(out@) =~= o.push(t).push("--"@));
            extend_from(&mut out, &args, i);
        }
        return out;
    }
}

} // verus!
