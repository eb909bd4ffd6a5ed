//! Placeholders in command lines and their replacement.

use vstd::prelude::*;

use crate::command::{Invocation, InvocationView, pairs_of};
use crate::text::{chars_of, string_of, texts_of};

verus! {

/// Whether `pattern` stands in `text` at position `at`.
pub open spec fn occurs_at(text: Seq<char>, pattern: Seq<char>, at: int) -> bool {
    &&& 0 <= at
    &&& at + pattern.len() <= text.len()
    &&& text.subrange(at, at + pattern.len()) == pattern
}

/// `text` from `from` on, with every occurrence of `pattern` replaced by
/// `value`. Occurrences are taken from left to right and do not overlap;
/// what was put in is not looked through again.
pub open spec fn replaced_from(
    text: Seq<char>,
    pattern: Seq<char>,
    value: Seq<char>,
    from: int,
) -> Seq<char>
    decreases text.len() - from,
{
    if pattern.len() > 0 && 0 <= from < text.len() {
        if occurs_at(text, pattern, from) {
            value + replaced_from(text, pattern, value, from + pattern.len())
        } else {
            seq![text[from]] + replaced_from(text, pattern, value, from + 1)
        }
    } else {
        Seq::empty()
    }
}

/// `text` with every occurrence of `pattern` replaced by `value`; an empty
/// pattern occurs nowhere.
pub open spec fn replaced(text: Seq<char>, pattern: Seq<char>, value: Seq<char>) -> Seq<char> {
    if pattern.len() == 0 {
        text
    } else {
        replaced_from(text, pattern, value, 0)
    }
}

/// Whether `pattern` stands in `text` at position `at`.
pub fn occurs(text: &[char], pattern: &[char], at: usize) -> (found: bool)
    ensures
        found == occurs_at(text@, pattern@, at as int),
{
    let n = pattern.len();
    let len = text.len();
    if at > len || n > len - at {
        return false;
    }
    let mut i: usize = 0;
    while i < n
        invariant
            i <= n == pattern@.len(),
            at + n <= len == text@.len(),
            forall|k: int| 0 <= k < i ==> text@[at + k] == pattern@[k],
        decreases n - i,
    {
        if text[at + i] != pattern[i] {
            assert(text@.subrange(at as int, at + n)[i as int] != pattern@[i as int]);
            return false;
        }
        i += 1;
    }
    assert(text@.subrange(at as int, at + n) =~= pattern@);
    true
}

/// Appends `more` to `chars`.
fn append(chars: &mut Vec<char>, more: &[char])
    ensures
        final(chars)@ == old(chars)@ + more@,
{
    let mut i: usize = 0;
    while i < more.len()
        invariant
            i <= more@.len(),
            chars@ == old(chars)@ + more@.take(i as int),
        decreases more@.len() - i,
    {
        chars.push(more[i]);
        assert(chars@ =~= old(chars)@ + more@.take(i + 1));
        i += 1;
    }
    assert(more@.take(more@.len() as int) =~= more@);
}

/// Replaces every occurrence of `pattern` in `text` by `value`.
pub fn replace_chars(text: &[char], pattern: &[char], value: &[char]) -> (result: Vec<char>)
    ensures
        result@ == replaced(text@, pattern@, value@),
{
    let mut result: Vec<char> = Vec::new();
    if pattern.len() == 0 {
        append(&mut result, text);
        assert(result@ =~= text@);
        return result;
    }
    let len = text.len();
    let mut at: usize = 0;
    while at < len
        invariant
            at <= len == text@.len(),
            pattern@.len() > 0,
            result@ + replaced_from(text@, pattern@, value@, at as int) == replaced_from(
                text@,
                pattern@,
                value@,
                0,
            ),
        decreases len - at,
    {
        let ghost before = result@;
        let ghost rest = replaced_from(text@, pattern@, value@, at as int);
        if occurs(text, pattern, at) {
            append(&mut result, value);
            at += pattern.len();
            assert(result@ + replaced_from(text@, pattern@, value@, at as int) =~= before + rest);
        } else {
            result.push(text[at]);
            at += 1;
            assert(result@ + replaced_from(text@, pattern@, value@, at as int) =~= before + rest);
        }
    }
    assert(result@ + Seq::<char>::empty() =~= result@);
    result
}

/// Replaces every occurrence of `pattern` in `text` by `value`.
pub fn replace(text: &str, pattern: &[char], value: &[char]) -> (result: String)
    ensures
        result@ == replaced(text@, pattern@, value@),
{
    let chars = chars_of(text);
    let result = replace_chars(chars.as_slice(), pattern, value);
    string_of(result.as_slice())
}

/// The arguments with the placeholder replaced in each but the first, which
/// names the program.
pub open spec fn substituted_argv(
    argv: Seq<Seq<char>>,
    placeholder: Seq<char>,
    value: Seq<char>,
) -> Seq<Seq<char>> {
    Seq::new(
        argv.len(),
        |i: int|
            if i == 0 {
                argv[i]
            } else {
                replaced(argv[i], placeholder, value)
            },
    )
}

/// The variables with the placeholder replaced in every name and value.
pub open spec fn substituted_env(
    env: Seq<(Seq<char>, Seq<char>)>,
    placeholder: Seq<char>,
    value: Seq<char>,
) -> Seq<(Seq<char>, Seq<char>)> {
    Seq::new(
        env.len(),
        |i: int| (replaced(env[i].0, placeholder, value), replaced(env[i].1, placeholder, value)),
    )
}

/// The invocation with `placeholder` replaced by `value`: in the arguments
/// but the program, and in the names and values of the variables. The
/// directory stays.
pub open spec fn substituted(
    invocation: InvocationView,
    placeholder: Seq<char>,
    value: Seq<char>,
) -> InvocationView {
    InvocationView {
        argv: substituted_argv(invocation.argv, placeholder, value),
        env: substituted_env(invocation.env, placeholder, value),
        workdir: invocation.workdir,
    }
}

/// Replaces `placeholder` by `value` in every argument but the program.
pub fn substitute_argv(argv: &Vec<String>, placeholder: &[char], value: &[char]) -> (result: Vec<
    String,
>)
    ensures
        texts_of(result@) == substituted_argv(texts_of(argv@), placeholder@, value@),
{
    let mut result: Vec<String> = Vec::new();
    let mut i: usize = 0;
    while i < argv.len()
        invariant
            i <= argv@.len(),
            result@.len() == i,
            forall|k: int|
                0 <= k < i ==> (#[trigger] result@[k])@ == substituted_argv(
                    texts_of(argv@),
                    placeholder@,
                    value@,
                )[k],
        decreases argv@.len() - i,
    {
        let argument = if i == 0 {
            argv[i].clone()
        } else {
            replace(argv[i].as_str(), placeholder, value)
        };
        result.push(argument);
        i += 1;
    }
    assert(texts_of(result@) =~= substituted_argv(texts_of(argv@), placeholder@, value@));
    result
}

/// Replaces `placeholder` by `value` in every name and value.
pub fn substitute_env(env: &Vec<(String, String)>, placeholder: &[char], value: &[char]) -> (result:
    Vec<(String, String)>)
    ensures
        pairs_of(result@) == substituted_env(pairs_of(env@), placeholder@, value@),
{
    let mut result: Vec<(String, String)> = Vec::new();
    let mut i: usize = 0;
    while i < env.len()
        invariant
            i <= env@.len(),
            result@.len() == i,
            forall|k: int|
                0 <= k < i ==> ((#[trigger] result@[k]).0@, result@[k].1@) == substituted_env(
                    pairs_of(env@),
                    placeholder@,
                    value@,
                )[k],
        decreases env@.len() - i,
    {
        let name = replace(env[i].0.as_str(), placeholder, value);
        let content = replace(env[i].1.as_str(), placeholder, value);
        result.push((name, content));
        i += 1;
    }
    assert(pairs_of(result@) =~= substituted_env(pairs_of(env@), placeholder@, value@));
    result
}

/// Replaces `placeholder` by `value` throughout the invocation, the program
/// and the directory excepted.
pub fn substitute(invocation: Invocation, placeholder: &str, value: &str) -> (result: Invocation)
    ensures
        result@ == substituted(invocation@, placeholder@, value@),
{
    let pattern = chars_of(placeholder);
    let with = chars_of(value);
    let argv = substitute_argv(&invocation.argv, pattern.as_slice(), with.as_slice());
    let env = substitute_env(&invocation.env, pattern.as_slice(), with.as_slice());
    Invocation { argv, env, workdir: invocation.workdir }
}

/// A text in which the pattern does not occur is left as it is.
pub proof fn replacing_what_is_absent(
    text: Seq<char>,
    pattern: Seq<char>,
    value: Seq<char>,
    from: int,
)
    requires
        0 <= from <= text.len(),
        pattern.len() > 0,
        forall|at: int| from <= at < text.len() ==> !occurs_at(text, pattern, at),
    ensures
        replaced_from(text, pattern, value, from) == text.subrange(from, text.len() as int),
    decreases text.len() - from,
{
    if from < text.len() {
        replacing_what_is_absent(text, pattern, value, from + 1);
        assert(seq![text[from]] + text.subrange(from + 1, text.len() as int) =~= text.subrange(
            from,
            text.len() as int,
        ));
    } else {
        assert(text.subrange(from, text.len() as int) =~= Seq::<char>::empty());
    }
}

/// A text that is the pattern and nothing else becomes the value.
pub proof fn replacing_the_pattern_itself(pattern: Seq<char>, value: Seq<char>)
    requires
        pattern.len() > 0,
    ensures
        replaced(pattern, pattern, value) == value,
{
    assert(pattern.subrange(0, pattern.len() as int) =~= pattern);
    assert(occurs_at(pattern, pattern, 0));
    assert(replaced_from(pattern, pattern, value, pattern.len() as int) == Seq::<char>::empty());
    assert(replaced_from(pattern, pattern, value, 0) == value + replaced_from(
        pattern,
        pattern,
        value,
        0int + pattern.len(),
    ));
    assert(value + Seq::<char>::empty() =~= value);
}

/// Replacing an empty placeholder changes nothing.
pub proof fn empty_placeholder_changes_nothing(invocation: InvocationView, value: Seq<char>)
    ensures
        substituted(invocation, Seq::empty(), value) == invocation,
{
    let result = substituted(invocation, Seq::empty(), value);
    assert(result.argv =~= invocation.argv);
    assert(result.env =~= invocation.env);
}

/// The program is never touched, whatever the placeholder and the value.
pub proof fn program_is_kept(invocation: InvocationView, placeholder: Seq<char>, value: Seq<char>)
    requires
        invocation.argv.len() > 0,
    ensures
        substituted(invocation, placeholder, value).argv.len() == invocation.argv.len(),
        substituted(invocation, placeholder, value).argv[0] == invocation.argv[0],
        substituted(invocation, placeholder, value).workdir == invocation.workdir,
{
}

} // verus!
