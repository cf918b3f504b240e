//! The `run` sub-command: which script of a manifest to run, and the program
//! and arguments that run it.
use vstd::prelude::*;
use crate::hub::strings_view;
use crate::json::{str_eq, JsonValue};

verus! {

/// The `run` sub-command: a script of the manifest and the arguments given
/// after `--`.
#[derive(Debug, Clone)]
pub struct RunCommand {
    pub script_name: String,
    pub extra_args: Vec<String>,
}

/// Why a script cannot be run.
#[derive(Debug, Clone, Copy, PartialEq, Eq, Structural)]
pub enum RunError {
    /// The manifest has no `scripts` member.
    ScriptsMissing,
    /// `scripts` is not an object.
    ScriptsNotObject,
    /// `scripts` has no member of the script's name.
    ScriptNotFound,
    /// The script is not a string.
    ScriptNotString,
    /// The script is "sh -c" with nothing after it.
    EmptyShellCommand,
    /// The script holds nothing but white space.
    EmptyCommand,
}

/// A program and its arguments.
#[derive(Debug, Clone)]
pub struct Invocation {
    pub program: String,
    pub args: Vec<String>,
}

/// Unicode White_Space, the characters that std's `trim` and
/// `split_whitespace` treat as white space.
pub open spec fn is_ws(c: char) -> bool {
    ('\u{9}' <= c && c <= '\u{d}') || c == ' ' || c == '\u{85}' || c == '\u{a0}' || c == '\u{1680}'
        || ('\u{2000}' <= c && c <= '\u{200a}') || c == '\u{2028}' || c == '\u{2029}' || c
        == '\u{202f}' || c == '\u{205f}' || c == '\u{3000}'
}

fn char_is_ws(c: char) -> (r: bool)
    ensures
        r == is_ws(c),
{
    ('\u{9}' <= c && c <= '\u{d}') || c == ' ' || c == '\u{85}' || c == '\u{a0}' || c == '\u{1680}'
        || ('\u{2000}' <= c && c <= '\u{200a}') || c == '\u{2028}' || c == '\u{2029}' || c
        == '\u{202f}' || c == '\u{205f}' || c == '\u{3000}'
}

/// `s` without leading white space.
pub open spec fn trim_start(s: Seq<char>) -> Seq<char>
    decreases s.len(),
{
    if s.len() > 0 && is_ws(s[0]) {
        trim_start(s.drop_first())
    } else {
        s
    }
}

/// `s` without trailing white space.
pub open spec fn trim_end(s: Seq<char>) -> Seq<char>
    decreases s.len(),
{
    if s.len() > 0 && is_ws(s.last()) {
        trim_end(s.drop_last())
    } else {
        s
    }
}

/// The maximal runs of non-white-space characters of `s`, in order.
pub open spec fn words(s: Seq<char>) -> Seq<Seq<char>>
    decreases s.len(),
{
    if s.len() == 0 {
        Seq::empty()
    } else if is_ws(s.last()) {
        words(s.drop_last())
    } else {
        let w = words(s.drop_last());
        if s.len() >= 2 && !is_ws(s[s.len() - 2]) {
            w.update(w.len() - 1, w.last().push(s.last()))
        } else {
            w.push(seq![s.last()])
        }
    }
}

pub open spec fn shell_prefix() -> Seq<char> {
    seq!['s', 'h', ' ', '-', 'c']
}

/// How a script runs: "sh -c <body>" hands the trimmed body to `sh -c` whole;
/// any other script is split at white space into a program and its
/// arguments. The extra arguments follow either way.
pub open spec fn invocation_of(script: Seq<char>, extra: Seq<Seq<char>>) -> Result<
    (Seq<char>, Seq<Seq<char>>),
    RunError,
> {
    if script.len() >= 5 && script.take(5) == shell_prefix() {
        let body = trim_end(trim_start(script.skip(5)));
        if body.len() == 0 {
            Err(RunError::EmptyShellCommand)
        } else {
            Ok((seq!['s', 'h'], seq![seq!['-', 'c'], body] + extra))
        }
    } else {
        let ws = words(script);
        if ws.len() == 0 {
            Err(RunError::EmptyCommand)
        } else {
            Ok((ws[0], ws.skip(1) + extra))
        }
    }
}

/// The script that `name` selects in a manifest.
pub open spec fn script_of(manifest: JsonValue, name: Seq<char>) -> Result<Seq<char>, RunError> {
    match manifest.field("scripts"@) {
        None => Err(RunError::ScriptsMissing),
        Some(JsonValue::Object(es)) => match JsonValue::Object(es).field(name) {
            None => Err(RunError::ScriptNotFound),
            Some(JsonValue::Str(s)) => Ok(s@),
            Some(_) => Err(RunError::ScriptNotString),
        },
        Some(_) => Err(RunError::ScriptsNotObject),
    }
}

proof fn lemma_trim_start_step(s: Seq<char>, i: int)
    requires
        0 <= i < s.len(),
        forall|k: int| 0 <= k < i ==> is_ws(s[k]),
    ensures
        trim_start(s) == trim_start(s.skip(i)),
    decreases i,
{
    if i > 0 {
        assert(s.drop_first().skip(i - 1) =~= s.skip(i));
        lemma_trim_start_step(s.drop_first(), i - 1);
    } else {
        assert(s.skip(0) =~= s);
    }
}

proof fn lemma_trim_start_all_ws(s: Seq<char>)
    requires
        forall|k: int| 0 <= k < s.len() ==> is_ws(s[k]),
    ensures
        trim_start(s).len() == 0,
    decreases s.len(),
{
    if s.len() > 0 {
        lemma_trim_start_all_ws(s.drop_first());
    }
}

proof fn lemma_trim_end_step(s: Seq<char>, j: int)
    requires
        0 < j <= s.len(),
        forall|k: int| j <= k < s.len() ==> is_ws(s[k]),
    ensures
        trim_end(s) == trim_end(s.take(j)),
    decreases s.len() - j,
{
    if j < s.len() {
        assert(s.drop_last().take(j) =~= s.take(j));
        lemma_trim_end_step(s.drop_last(), j);
    } else {
        assert(s.take(j) =~= s);
    }
}

/// `s` without leading or trailing white space.
fn trim(s: &str) -> (r: String)
    ensures
        r@ == trim_end(trim_start(s@)),
{
    let n = s.unicode_len();
    let mut i: usize = 0;
    while i < n && char_is_ws(s.get_char(i))
        invariant
            n == s@.len(),
            i <= n,
            forall|k: int| 0 <= k < i ==> is_ws(s@[k]),
        decreases n - i,
    {
        i = i + 1;
    }
    if i == n {
        proof {
            lemma_trim_start_all_ws(s@);
        }
        return String::new();
    }
    proof {
        lemma_trim_start_step(s@, i as int);
        assert(!is_ws(s@.skip(i as int)[0]));
    }
    let mut j: usize = n;
    while j > i + 1 && char_is_ws(s.get_char(j - 1))
        invariant
            n == s@.len(),
            i < j <= n,
            forall|k: int| j <= k < n ==> is_ws(s@[k]),
        decreases j,
    {
        j = j - 1;
    }
    let ghost t = s@.skip(i as int);
    proof {
        assert(trim_start(s@) == t);
        lemma_trim_end_step(t, j - i);
        let u = t.take(j - i);
        assert(u.len() > 0);
        if j > i + 1 {
            assert(!is_ws(u.last()));
        } else {
            assert(u.last() == s@[i as int]);
        }
        assert(trim_end(u) == u);
        assert(u =~= s@.subrange(i as int, j as int));
    }
    s.substring_char(i, j).to_owned()
}

proof fn lemma_words_push_ws(s: Seq<char>, c: char)
    requires
        is_ws(c),
    ensures
        words(s.push(c)) == words(s),
{
    assert(s.push(c).drop_last() =~= s);
}

proof fn lemma_words_push_letter(s: Seq<char>, c: char)
    requires
        !is_ws(c),
    ensures
        s.len() > 0 && !is_ws(s.last()) ==> words(s.push(c)) == words(s).update(
            words(s).len() - 1,
            words(s).last().push(c),
        ),
        !(s.len() > 0 && !is_ws(s.last())) ==> words(s.push(c)) == words(s).push(seq![c]),
{
    let t = s.push(c);
    assert(t.drop_last() =~= s);
    if s.len() > 0 {
        assert(t[t.len() - 2] == s.last());
    }
}

/// The words of `s`, as std's `split_whitespace` gives them.
fn split_words(s: &str) -> (r: Vec<String>)
    ensures
        strings_view(r@) == words(s@),
{
    let n = s.unicode_len();
    let mut done: Vec<String> = Vec::new();
    let mut start: usize = 0;
    let mut in_word = false;
    let mut i: usize = 0;
    assert(s@.take(0) =~= Seq::<char>::empty());
    assert(strings_view(done@) =~= Seq::<Seq<char>>::empty());
    while i < n
        invariant
            n == s@.len(),
            i <= n,
            start <= i,
            in_word ==> start < i && words(s@.take(i as int)) == strings_view(done@).push(
                s@.subrange(start as int, i as int),
            ) && !is_ws(s@[i - 1]),
            !in_word ==> words(s@.take(i as int)) == strings_view(done@) && (i == 0 || is_ws(
                s@[i - 1],
            )),
        decreases n - i,
    {
        let c = s.get_char(i);
        let ghost before = s@.take(i as int);
        proof {
            assert(s@.take(i + 1) =~= before.push(c));
        }
        if char_is_ws(c) {
            proof {
                lemma_words_push_ws(before, c);
            }
            if in_word {
                let ghost dv = strings_view(done@);
                done.push(s.substring_char(start, i).to_owned());
                assert(strings_view(done@) =~= dv.push(s@.subrange(start as int, i as int)));
                in_word = false;
            }
        } else {
            proof {
                lemma_words_push_letter(before, c);
                if in_word {
                    assert(before.last() == s@[i - 1]);
                    let w = words(before);
                    assert(w.last() == s@.subrange(start as int, i as int));
                    assert(s@.subrange(start as int, i as int).push(c) =~= s@.subrange(
                        start as int,
                        i + 1,
                    ));
                    assert(w.update(w.len() - 1, w.last().push(c)) =~= strings_view(done@).push(
                        s@.subrange(start as int, i + 1),
                    ));
                } else {
                    if i > 0 {
                        assert(before.last() == s@[i - 1]);
                    }
                    assert(s@.subrange(i as int, i + 1) =~= seq![c]);
                }
            }
            if !in_word {
                start = i;
                in_word = true;
            }
        }
        i = i + 1;
    }
    assert(s@.take(n as int) =~= s@);
    if in_word {
        let ghost dv = strings_view(done@);
        done.push(s.substring_char(start, n).to_owned());
        assert(strings_view(done@) =~= dv.push(s@.subrange(start as int, n as int)));
    }
    done
}

fn copy_strings(v: &Vec<String>) -> (r: Vec<String>)
    ensures
        r@ == v@,
{
    let mut out: Vec<String> = Vec::new();
    let mut i: usize = 0;
    while i < v.len()
        invariant
            i <= v@.len(),
            out@ == v@.take(i as int),
        decreases v.len() - i,
    {
        out.push(v[i].clone());
        assert(out@ =~= v@.take(i + 1));
        i = i + 1;
    }
    assert(v@.take(i as int) =~= v@);
    out
}

impl RunCommand {
    /// The script of this command in a manifest.
    pub fn script<'a>(&self, manifest: &'a JsonValue) -> (r: Result<&'a String, RunError>)
        ensures
            match r {
                Ok(s) => script_of(*manifest, self.script_name@) == Ok::<Seq<char>, RunError>(s@),
                Err(e) => script_of(*manifest, self.script_name@) == Err::<Seq<char>, RunError>(e),
            },
    {
        let scripts = match manifest.get("scripts") {
            None => return Err(RunError::ScriptsMissing),
            Some(s) => s,
        };
        if !matches!(scripts, JsonValue::Object(_)) {
            return Err(RunError::ScriptsNotObject);
        }
        match scripts.get(self.script_name.as_str()) {
            None => Err(RunError::ScriptNotFound),
            Some(JsonValue::Str(s)) => Ok(s),
            Some(_) => Err(RunError::ScriptNotString),
        }
    }

    /// The program and arguments that run this command's script.
    pub fn invocation(&self, manifest: &JsonValue) -> (r: Result<Invocation, RunError>)
        ensures
            ({
                let want = match script_of(*manifest, self.script_name@) {
                    Ok(s) => invocation_of(s, strings_view(self.extra_args@)),
                    Err(e) => Err(e),
                };
                match r {
                    Ok(inv) => want == Ok::<(Seq<char>, Seq<Seq<char>>), RunError>(
                        (inv.program@, strings_view(inv.args@)),
                    ),
                    Err(e) => want == Err::<(Seq<char>, Seq<Seq<char>>), RunError>(e),
                }
            }),
    {
        let script = match self.script(manifest) {
            Ok(s) => s,
            Err(e) => return Err(e),
        };
        invocation_for(script.as_str(), &self.extra_args)
    }
}

/// The program and arguments that run `script`, followed by `extra_args`.
pub fn invocation_for(script: &str, extra_args: &Vec<String>) -> (r: Result<Invocation, RunError>)
    ensures
        match r {
            Ok(inv) => invocation_of(script@, strings_view(extra_args@)) == Ok::<
                (Seq<char>, Seq<Seq<char>>),
                RunError,
            >((inv.program@, strings_view(inv.args@))),
            Err(e) => invocation_of(script@, strings_view(extra_args@)) == Err::<
                (Seq<char>, Seq<Seq<char>>),
                RunError,
            >(e),
        },
{
    let n = script.unicode_len();
    proof {
        reveal_strlit("sh -c");
        reveal_strlit("sh");
        reveal_strlit("-c");
    }
    let is_shell = n >= 5 && str_eq(script.substring_char(0, 5), "sh -c");
    proof {
        if n >= 5 {
            assert(script@.subrange(0, 5) =~= script@.take(5));
        }
        assert("sh -c"@ =~= shell_prefix());
    }
    let extra = copy_strings(extra_args);
    if is_shell {
        let body = trim(script.substring_char(5, n));
        proof {
            assert(script@.subrange(5, n as int) =~= script@.skip(5));
        }
        if body.unicode_len() == 0 {
            return Err(RunError::EmptyShellCommand);
        }
        let mut args: Vec<String> = Vec::new();
        args.push("-c".to_owned());
        args.push(body);
        let ghost head = strings_view(args@);
        args.append(&mut extra.clone());
        proof {
            assert(strings_view(args@) =~= head + strings_view(extra_args@));
            assert("-c"@ =~= seq!['-', 'c']);
            assert(head =~= seq![seq!['-', 'c'], trim_end(trim_start(script@.skip(5)))]);
            assert("sh"@ =~= seq!['s', 'h']);
        }
        Ok(Invocation { program: "sh".to_owned(), args })
    } else {
        let mut ws = split_words(script);
        if ws.len() == 0 {
            return Err(RunError::EmptyCommand);
        }
        let program = ws.remove(0);
        let ghost rest = strings_view(ws@);
        ws.append(&mut extra.clone());
        proof {
            assert(rest =~= words(script@).skip(1));
            assert(strings_view(ws@) =~= rest + strings_view(extra_args@));
        }
        Ok(Invocation { program, args: ws })
    }
}

} // verus!
