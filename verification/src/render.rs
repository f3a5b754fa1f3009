//! The template renderer: scans a schema string left to right in a single
//! pass and replaces every non-overlapping placeholder `{key}` (a literal
//! brace pair enclosing one or more word characters) by the key resolver's
//! value. Replacement text is inserted literally and never re-scanned.
//! Everything else, malformed placeholders included, passes through
//! unchanged.

use vstd::prelude::*;
use crate::profile::User;
use crate::keys::{resolve_key, map_key_to_user_value};
use crate::text::{chars_to_string, str_to_chars};

verus! {

/// Whether `c` is a word character: an ASCII letter, an ASCII digit, or an
/// underscore (scalar values 97-122, 65-90, 48-57, and 95).
pub open spec fn is_word_char(c: char) -> bool {
    ||| 97 <= c as int && c as int <= 122
    ||| 65 <= c as int && c as int <= 90
    ||| 48 <= c as int && c as int <= 57
    ||| c as int == 95
}

/// Whether `c` is a word character, as executable code.
pub fn is_word_char_exec(c: char) -> (r: bool)
    ensures
        r == is_word_char(c),
{
    let u = c as u32;
    (97 <= u && u <= 122) || (65 <= u && u <= 90) || (48 <= u && u <= 57) || u == 95
}

/// The length of the longest prefix of `s` made of word characters.
pub open spec fn word_prefix_len(s: Seq<char>) -> nat
    decreases s.len(),
{
    if s.len() == 0 || !is_word_char(s[0]) {
        0
    } else {
        1 + word_prefix_len(s.skip(1))
    }
}

/// A run of `k` word characters followed by the end of the sequence or by a
/// non-word character is exactly the longest word prefix.
pub proof fn lemma_word_prefix_len_of_run(s: Seq<char>, k: int)
    requires
        0 <= k <= s.len(),
        forall|t: int| 0 <= t < k ==> is_word_char(s[t]),
        k == s.len() || !is_word_char(s[k]),
    ensures
        word_prefix_len(s) == k,
    decreases k,
{
    if k > 0 {
        assert(is_word_char(s[0]));
        lemma_word_prefix_len_of_run(s.skip(1), k - 1);
    }
}

/// Whether `s` begins with a placeholder: an opening brace, one or more word
/// characters, and a closing brace.
pub open spec fn placeholder_at_front(s: Seq<char>) -> bool {
    let k = word_prefix_len(s.skip(1)) as int;
    &&& s.len() > 0
    &&& s[0] == '{'
    &&& k > 0
    &&& 1 + k < s.len()
    &&& s[1 + k] == '}'
}

/// The rendering of schema `s` against profile record `u`: each placeholder
/// is replaced by the resolved value of its key, scanning left to right,
/// and every other character passes through unchanged.
pub open spec fn render_spec(s: Seq<char>, u: User) -> Seq<char>
    decreases s.len(),
{
    if s.len() == 0 {
        Seq::<char>::empty()
    } else if placeholder_at_front(s) {
        let k = word_prefix_len(s.skip(1)) as int;
        resolve_key(s.subrange(1, 1 + k), u) + render_spec(s.skip(2 + k), u)
    } else {
        seq![s[0]] + render_spec(s.skip(1), u)
    }
}

/// A schema in which no position begins a placeholder renders to itself,
/// whatever the profile record: rendering is the identity there.
pub proof fn lemma_render_no_placeholder_identity(s: Seq<char>, u: User)
    requires
        forall|i: int| 0 <= i < s.len() ==> !placeholder_at_front(#[trigger] s.skip(i)),
    ensures
        render_spec(s, u) == s,
    decreases s.len(),
{
    if s.len() == 0 {
        assert(render_spec(s, u) =~= s);
    } else {
        assert(s.skip(0) =~= s);
        assert(!placeholder_at_front(s));
        assert forall|i: int| 0 <= i < s.skip(1).len() implies !placeholder_at_front(
            #[trigger] s.skip(1).skip(i),
        ) by {
            assert(s.skip(1).skip(i) =~= s.skip(i + 1));
        }
        lemma_render_no_placeholder_identity(s.skip(1), u);
        assert(render_spec(s, u) =~= s);
    }
}

/// A schema without any opening brace renders to itself, whatever the
/// profile record.
pub proof fn lemma_render_no_brace_identity(s: Seq<char>, u: User)
    requires
        forall|i: int| 0 <= i < s.len() ==> s[i] != '{',
    ensures
        render_spec(s, u) == s,
{
    assert forall|i: int| 0 <= i < s.len() implies !placeholder_at_front(
        #[trigger] s.skip(i),
    ) by {
        assert(s.skip(i)[0] == s[i]);
    }
    lemma_render_no_placeholder_identity(s, u);
}

/// The characters of `v` from `from` (inclusive) to `to` (exclusive).
fn chars_subrange(v: &Vec<char>, from: usize, to: usize) -> (r: Vec<char>)
    requires
        from <= to,
        to <= v@.len(),
    ensures
        r@ == v@.subrange(from as int, to as int),
{
    let mut r: Vec<char> = Vec::new();
    let mut t = from;
    while t < to
        invariant
            from <= t <= to <= v@.len(),
            r@ == v@.subrange(from as int, t as int),
        decreases to - t,
    {
        r.push(v[t]);
        assert(r@ =~= v@.subrange(from as int, t as int + 1));
        t = t + 1;
    }
    r
}

/// Renders a schema, given as a character vector, against a profile record.
pub fn render_chars(schema: &Vec<char>, user: &User) -> (out: Vec<char>)
    ensures
        out@ == render_spec(schema@, *user),
{
    let n = schema.len();
    let mut out: Vec<char> = Vec::new();
    let mut i: usize = 0;
    proof {
        assert(schema@.skip(0) =~= schema@);
        assert(out@ + render_spec(schema@, *user) =~= render_spec(schema@, *user));
    }
    while i < n
        invariant
            i <= n,
            n == schema@.len(),
            render_spec(schema@, *user) == out@ + render_spec(schema@.skip(i as int), *user),
        decreases n - i,
    {
        let ghost rest = schema@.skip(i as int);
        proof {
            assert(rest.len() == n - i);
            assert forall|t: int| 0 <= t < rest.len() implies rest[t] == schema@[i + t] by {}
        }
        if schema[i] == '{' {
            let mut j: usize = i + 1;
            while j < n && is_word_char_exec(schema[j])
                invariant
                    i + 1 <= j <= n,
                    n == schema@.len(),
                    forall|t: int| i + 1 <= t < j ==> is_word_char(schema@[t]),
                decreases n - j,
            {
                j = j + 1;
            }
            let ghost k = j - i - 1;
            proof {
                let s1 = schema@.skip(i as int + 1);
                assert(rest.skip(1) =~= s1);
                assert forall|t: int| 0 <= t < k implies is_word_char(s1[t]) by {
                    assert(s1[t] == schema@[i + 1 + t]);
                }
                if j < n {
                    assert(s1[k] == schema@[j as int]);
                }
                lemma_word_prefix_len_of_run(s1, k);
                assert(word_prefix_len(rest.skip(1)) == k);
            }
            if j > i + 1 && j < n {
                let close = schema[j];
                if close == '}' {
                    proof {
                        assert(rest[0] == '{');
                        assert(rest[1 + k] == schema@[j as int]);
                        assert(placeholder_at_front(rest));
                    }
                    let key_chars = chars_subrange(schema, i + 1, j);
                    proof {
                        assert(key_chars@ =~= rest.subrange(1, 1 + k));
                    }
                    let key = chars_to_string(&key_chars);
                    let val = map_key_to_user_value(key.as_str(), user);
                    let mut val_chars = str_to_chars(val.as_str());
                    proof {
                        assert(val_chars@ == resolve_key(rest.subrange(1, 1 + k), *user));
                        assert(rest.skip(2 + k) =~= schema@.skip(j as int + 1));
                        assert(render_spec(rest, *user) == resolve_key(rest.subrange(1, 1 + k), *user)
                            + render_spec(schema@.skip(j as int + 1), *user));
                        assert((out@ + val_chars@) + render_spec(schema@.skip(j as int + 1), *user)
                            =~= out@ + (val_chars@ + render_spec(schema@.skip(j as int + 1), *user)));
                    }
                    out.append(&mut val_chars);
                    i = j + 1;
                } else {
                    proof {
                        assert(rest[1 + k] == schema@[j as int]);
                        assert(!placeholder_at_front(rest));
                        assert(rest.skip(1) =~= schema@.skip(i as int + 1));
                        assert((out@ + seq![rest[0]]) + render_spec(schema@.skip(i as int + 1), *user)
                            =~= out@ + (seq![rest[0]] + render_spec(schema@.skip(i as int + 1), *user)));
                    }
                    let c = schema[i];
                    out.push(c);
                    i = i + 1;
                }
            } else {
                proof {
                    if j == i + 1 {
                        assert(word_prefix_len(rest.skip(1)) == 0);
                    } else {
                        assert(j == n);
                        assert(1 + k == rest.len());
                    }
                    assert(!placeholder_at_front(rest));
                    assert(rest.skip(1) =~= schema@.skip(i as int + 1));
                    assert((out@ + seq![rest[0]]) + render_spec(schema@.skip(i as int + 1), *user)
                        =~= out@ + (seq![rest[0]] + render_spec(schema@.skip(i as int + 1), *user)));
                }
                let c = schema[i];
                out.push(c);
                i = i + 1;
            }
        } else {
            proof {
                assert(rest[0] != '{');
                assert(!placeholder_at_front(rest));
                assert(rest.skip(1) =~= schema@.skip(i as int + 1));
                assert((out@ + seq![rest[0]]) + render_spec(schema@.skip(i as int + 1), *user)
                    =~= out@ + (seq![rest[0]] + render_spec(schema@.skip(i as int + 1), *user)));
            }
            let c = schema[i];
            out.push(c);
            i = i + 1;
        }
    }
    proof {
        assert(schema@.skip(n as int) =~= Seq::<char>::empty());
        assert(out@ + render_spec(schema@.skip(n as int), *user) =~= out@);
    }
    out
}

/// Renders the schema against a profile record: every `{key}` placeholder is
/// replaced by the key's resolved value and all other characters, Unicode
/// included, pass through unchanged.
pub fn render_bio(schema: &str, user: &User) -> (r: String)
    ensures
        r@ == render_spec(schema@, *user),
{
    let chars = str_to_chars(schema);
    let out = render_chars(&chars, user);
    chars_to_string(&out)
}

} // verus!
