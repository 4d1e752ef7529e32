//! What the launcher works out before it starts the virtual machine: the
//! machine's options, the application's arguments and the log level.
use vstd::prelude::*;
use vstd::string::StringExecFns;
use crate::check::{is_illegal_param, loads_agent};
use crate::config::Config;
use crate::text::{chars_of, string_of};

verus! {

/// How much the launcher logs.
#[derive(Clone, Copy, Debug, PartialEq, Eq, Structural)]
pub enum LogLevel {
    Trace,
    Debug,
    Info,
}

/// The log level: a debug build logs at `Debug` whatever it is told;
/// otherwise `debug` with `verbose` gives `Trace`, `debug` alone gives
/// `Debug`, and anything else `Info`.
pub fn log_level(debug_build: bool, debug: bool, verbose: bool) -> (level: LogLevel)
    ensures
        level == if debug_build {
            LogLevel::Debug
        } else if debug && verbose {
            LogLevel::Trace
        } else if debug {
            LogLevel::Debug
        } else {
            LogLevel::Info
        },
{
    if debug_build {
        LogLevel::Debug
    } else if debug && verbose {
        LogLevel::Trace
    } else if debug {
        LogLevel::Debug
    } else {
        LogLevel::Info
    }
}

/// The position of the first `c` in `s`, or the length of `s` where it
/// holds none.
pub open spec fn first_index_of(s: Seq<char>, c: char) -> int
    decreases s.len(),
{
    if s.len() == 0 || s[0] == c {
        0
    } else {
        1 + first_index_of(s.skip(1), c)
    }
}

/// The pieces of `s` between separators, empty pieces included: one piece
/// more than `s` holds separators.
pub open spec fn split_spec(s: Seq<char>, sep: char) -> Seq<Seq<char>>
    decreases s.len(),
{
    let i = first_index_of(s, sep);
    if 0 <= i < s.len() {
        seq![s.take(i)] + split_spec(s.skip(i + 1), sep)
    } else {
        seq![s]
    }
}

proof fn lemma_first_index(s: Seq<char>, c: char, m: int)
    requires
        0 <= m <= s.len(),
        forall|k: int| 0 <= k < m ==> s[k] != c,
        m == s.len() || s[m] == c,
    ensures
        first_index_of(s, c) == m,
    decreases s.len(),
{
    if m > 0 {
        assert forall|k: int| 0 <= k < m - 1 implies s.skip(1)[k] != c by {
            assert(s.skip(1)[k] == s[k + 1]);
        }
        lemma_first_index(s.skip(1), c, m - 1);
    }
}

/// The texts that strings hold.
pub open spec fn texts(v: Seq<String>) -> Seq<Seq<char>> {
    v.map_values(|s: String| s@)
}

/// Splits `s` at every `sep`.
pub fn split(s: &str, sep: char) -> (pieces: Vec<String>)
    ensures
        texts(pieces@) == split_spec(s@, sep),
{
    let chars = chars_of(s);
    let n: usize = chars.len();
    let mut pieces: Vec<String> = Vec::new();
    let mut start: usize = 0;
    assert(s@.skip(0) =~= s@);
    assert(texts(pieces@) + split_spec(s@, sep) =~= split_spec(s@, sep));
    loop
        invariant
            chars@ == s@,
            n == chars.len(),
            start <= n,
            texts(pieces@) + split_spec(s@.skip(start as int), sep) == split_spec(s@, sep),
        decreases n - start,
    {
        let ghost rest = s@.skip(start as int);
        let ghost done = texts(pieces@);
        let mut end: usize = start;
        while end < n && chars[end] != sep
            invariant
                chars@ == s@,
                n == chars.len(),
                start <= end <= n,
                forall|k: int| start <= k < end ==> s@[k] != sep,
            decreases n - end,
        {
            end += 1;
        }
        proof {
            assert forall|k: int| 0 <= k < end - start implies rest[k] != sep by {
                assert(rest[k] == s@[start + k]);
            }
            lemma_first_index(rest, sep, end - start);
        }
        let piece = vstd::slice::slice_subrange(chars.as_slice(), start, end);
        assert(piece@ =~= rest.take(end - start));
        pieces.push(string_of(piece));
        assert(texts(pieces@) =~= done.push(rest.take(end - start)));
        if end == n {
            assert(texts(pieces@) =~= done + seq![rest]) by {
                assert(rest.take(end - start) =~= rest);
            }
            return pieces;
        }
        proof {
            assert(rest.skip(end - start + 1) =~= s@.skip(end + 1));
            assert(done + (seq![rest.take(end - start)] + split_spec(s@.skip(end + 1), sep))
                =~= done.push(rest.take(end - start)) + split_spec(s@.skip(end + 1), sep));
        }
        start = end + 1;
    }
}

/// The options among `options` that the launcher passes on: those that are
/// not empty and load no agent, in their order.
pub open spec fn passed_options(options: Seq<Seq<char>>) -> Seq<Seq<char>>
    decreases options.len(),
{
    if options.len() == 0 {
        Seq::empty()
    } else {
        let before = passed_options(options.drop_last());
        let last = options.last();
        if last.len() > 0 && !is_illegal_param(last) {
            before.push(last)
        } else {
            before
        }
    }
}

/// The options that the virtual machine is started with: the class path
/// of the application, the launcher's fixed options, and then the
/// configured options, split at spaces, without the empty ones and without
/// those that load an agent.
pub open spec fn jvm_options_spec(jar_path: Seq<char>, jvm_args: Seq<char>) -> Seq<Seq<char>> {
    seq![
        "-Djava.class.path="@ + jar_path,
        "-Djava.library.path=."@,
        "-Dsun.java.launcher=VM_STARTUP"@,
        "-XX:+DisableAttachMechanism"@,
    ] + passed_options(split_spec(jvm_args, ' '))
}

/// The options to start the virtual machine with.
pub fn jvm_options(config: &Config) -> (options: Vec<String>)
    ensures
        texts(options@) == jvm_options_spec(config@.jar_path, config@.jvm_args),
{
    let mut class_path = String::from_str("-Djava.class.path=");
    class_path.append(config.jar_path.as_str());
    let mut options: Vec<String> = Vec::new();
    options.push(class_path);
    options.push(String::from_str("-Djava.library.path=."));
    options.push(String::from_str("-Dsun.java.launcher=VM_STARTUP"));
    options.push(String::from_str("-XX:+DisableAttachMechanism"));
    let ghost fixed = texts(options@);
    assert(fixed =~= seq![
        "-Djava.class.path="@ + config@.jar_path,
        "-Djava.library.path=."@,
        "-Dsun.java.launcher=VM_STARTUP"@,
        "-XX:+DisableAttachMechanism"@,
    ]);
    let configured = split(config.jvm_args.as_str(), ' ');
    let ghost all = texts(configured@);
    let mut i: usize = 0;
    assert(all.take(0) =~= Seq::<Seq<char>>::empty());
    assert(fixed + passed_options(all.take(0)) =~= fixed);
    while i < configured.len()
        invariant
            i <= configured.len(),
            all == texts(configured@),
            texts(options@) == fixed + passed_options(all.take(i as int)),
        decreases configured.len() - i,
    {
        let ghost before = texts(options@);
        proof {
            let next = all.take(i + 1);
            assert(next.drop_last() =~= all.take(i as int));
            assert(next.last() == configured@[i as int]@);
        }
        let option = configured[i].as_str();
        if !option.is_empty() && !loads_agent(option) {
            options.push(configured[i].clone());
            assert(texts(options@) =~= before.push(configured@[i as int]@));
            assert(before.push(configured@[i as int]@) =~= fixed + passed_options(
                all.take(i as int),
            ).push(configured@[i as int]@));
        }
        i += 1;
    }
    assert(all.take(i as int) =~= all);
    options
}

/// The arguments of the application's `main`: those of the command line,
/// split at spaces, where there are any, and then the configured ones,
/// split at spaces.
pub open spec fn main_args_spec(cmd_args: Seq<char>, main_args: Seq<char>) -> Seq<Seq<char>> {
    if cmd_args.len() > 0 {
        split_spec(cmd_args, ' ') + split_spec(main_args, ' ')
    } else {
        split_spec(main_args, ' ')
    }
}

/// The arguments to hand to the application's `main`.
pub fn main_arguments(cmd_args: &str, config: &Config) -> (items: Vec<String>)
    ensures
        texts(items@) == main_args_spec(cmd_args@, config@.main_args),
{
    let mut items: Vec<String> = Vec::new();
    if !cmd_args.is_empty() {
        items = split(cmd_args, ' ');
    }
    let ghost first = texts(items@);
    let mut configured = split(config.main_args.as_str(), ' ');
    let ghost second = texts(configured@);
    items.append(&mut configured);
    assert(texts(items@) =~= first + second);
    assert(first =~= if cmd_args@.len() > 0 {
        split_spec(cmd_args@, ' ')
    } else {
        Seq::empty()
    });
    items
}

} // verus!
