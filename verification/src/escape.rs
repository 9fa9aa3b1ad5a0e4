//! Escaping of free text for use as a value inside a service message.

use crate::text::{chars_of, occurs_at, replace_all, replaced, string_of};
use vstd::prelude::*;

verus! {

/// `s` after the six substitutions, made one after the other in this order:
/// `|` to `||`, `[` to `|[`, `]` to `|]`, line feed to `|n`, carriage return
/// to `|r`, and `'` to `|'`.
///
/// The vertical bar goes first: the bars that the later substitutions bring
/// in are then left alone.
pub open spec fn escaped(s: Seq<char>) -> Seq<char> {
    let s1 = replaced(s, "|"@, "||"@);
    let s2 = replaced(s1, "["@, "|["@);
    let s3 = replaced(s2, "]"@, "|]"@);
    let s4 = replaced(s3, "\n"@, "|n"@);
    let s5 = replaced(s4, "\r"@, "|r"@);
    replaced(s5, "'"@, "|'"@)
}

/// Whether `c` is one of the six characters that escaping rewrites.
pub open spec fn is_special(c: char) -> bool {
    c == '|' || c == '[' || c == ']' || c == '\n' || c == '\r' || c == '\''
}

/// Escapes `unescaped` for use as a value inside a service message.
pub fn escape_message(unescaped: &str) -> (r: String)
    ensures
        r@ == escaped(unescaped@),
{
    let s0 = chars_of(unescaped);
    let s1 = replace_all(&s0, &chars_of("|"), &chars_of("||"));
    let s2 = replace_all(&s1, &chars_of("["), &chars_of("|["));
    let s3 = replace_all(&s2, &chars_of("]"), &chars_of("|]"));
    let s4 = replace_all(&s3, &chars_of("\n"), &chars_of("|n"));
    let s5 = replace_all(&s4, &chars_of("\r"), &chars_of("|r"));
    let s6 = replace_all(&s5, &chars_of("'"), &chars_of("|'"));
    string_of(&s6)
}

/// A text in which `from` does not occur is left unchanged by replacing
/// `from`.
pub proof fn lemma_replaced_without_occurrence(s: Seq<char>, from: Seq<char>, to: Seq<char>)
    requires
        from.len() > 0,
        forall|j: int| !occurs_at(s, from, j),
    ensures
        replaced(s, from, to) == s,
    decreases s.len(),
{
    if s.len() < from.len() {
    } else {
        assert(!occurs_at(s, from, 0));
        let rest = s.skip(1);
        assert forall|j: int| !occurs_at(rest, from, j) by {
            if occurs_at(rest, from, j) {
                assert(rest.subrange(j, j + from.len()) == s.subrange(j + 1, j + 1 + from.len()));
                assert(occurs_at(s, from, j + 1));
            }
        }
        lemma_replaced_without_occurrence(rest, from, to);
        assert(seq![s[0]] + rest == s);
    }
}

/// A text that does not hold the character `c` is left unchanged by replacing
/// the one-character pattern `c`.
pub proof fn lemma_replaced_without_char(s: Seq<char>, c: char, to: Seq<char>)
    requires
        forall|i: int| 0 <= i < s.len() ==> s[i] != c,
    ensures
        replaced(s, seq![c], to) == s,
{
    let from = seq![c];
    assert forall|j: int| !occurs_at(s, from, j) by {
        if occurs_at(s, from, j) {
            assert(s.subrange(j, j + 1)[0] == from[0]);
        }
    }
    lemma_replaced_without_occurrence(s, from, to);
}

/// Escaping leaves text unchanged that holds none of the six special
/// characters.
pub proof fn lemma_escape_keeps_safe_text(s: Seq<char>)
    requires
        forall|i: int| 0 <= i < s.len() ==> !is_special(#[trigger] s[i]),
    ensures
        escaped(s) == s,
{
    lemma_patterns();
    lemma_replaced_without_char(s, '|', "||"@);
    lemma_replaced_without_char(s, '[', "|["@);
    lemma_replaced_without_char(s, ']', "|]"@);
    lemma_replaced_without_char(s, '\n', "|n"@);
    lemma_replaced_without_char(s, '\r', "|r"@);
    lemma_replaced_without_char(s, '\'', "|'"@);
}

/// What escaping makes of one character.
pub open spec fn escaped_char(c: char) -> Seq<char> {
    if c == '|' {
        "||"@
    } else if c == '[' {
        "|["@
    } else if c == ']' {
        "|]"@
    } else if c == '\n' {
        "|n"@
    } else if c == '\r' {
        "|r"@
    } else if c == '\'' {
        "|'"@
    } else {
        seq![c]
    }
}

/// `s` with each character escaped on its own, from left to right.
pub open spec fn escaped_each(s: Seq<char>) -> Seq<char>
    decreases s.len(),
{
    if s.len() == 0 {
        s
    } else {
        escaped_char(s[0]) + escaped_each(s.skip(1))
    }
}

/// Replacing a one-character pattern in two texts joined gives the two
/// replaced texts joined.
pub proof fn lemma_replaced_char_concat(a: Seq<char>, b: Seq<char>, c: char, to: Seq<char>)
    ensures
        replaced(a + b, seq![c], to) == replaced(a, seq![c], to) + replaced(b, seq![c], to),
    decreases a.len(),
{
    let from = seq![c];
    if a.len() == 0 {
        assert(a + b == b);
        assert(a + replaced(b, from, to) == replaced(b, from, to));
    } else {
        let whole = a + b;
        assert(whole.subrange(0, 1) == a.subrange(0, 1));
        assert(occurs_at(whole, from, 0) == occurs_at(a, from, 0));
        assert(whole.skip(1) == a.skip(1) + b);
        lemma_replaced_char_concat(a.skip(1), b, c, to);
        let tail = replaced(a.skip(1), from, to);
        let rest = replaced(b, from, to);
        if occurs_at(a, from, 0) {
            assert(to + (tail + rest) == (to + tail) + rest);
        } else {
            assert(whole[0] == a[0]);
            assert(seq![a[0]] + (tail + rest) == (seq![a[0]] + tail) + rest);
        }
    }
}

/// Replacing a one-character pattern in a text of one character gives the
/// replacement where the character is the pattern, the text otherwise.
pub proof fn lemma_replaced_one(x: char, c: char, to: Seq<char>)
    ensures
        replaced(seq![x], seq![c], to) == if x == c {
            to
        } else {
            seq![x]
        },
{
    let s = seq![x];
    let from = seq![c];
    assert(s.subrange(0, 1) == s);
    assert(s.skip(1) == Seq::<char>::empty());
    assert(replaced(s.skip(1), from, to) == Seq::<char>::empty());
    if x == c {
        assert(s == from);
        assert(to + Seq::<char>::empty() == to);
    } else {
        assert(s[0] != from[0]);
        assert(seq![s[0]] + Seq::<char>::empty() == s);
    }
}

/// Escaping two texts joined gives the two escaped texts joined.
pub proof fn lemma_escaped_concat(a: Seq<char>, b: Seq<char>)
    ensures
        escaped(a + b) == escaped(a) + escaped(b),
{
    lemma_patterns();
    lemma_replaced_char_concat(a, b, '|', "||"@);
    let a1 = replaced(a, "|"@, "||"@);
    let b1 = replaced(b, "|"@, "||"@);
    lemma_replaced_char_concat(a1, b1, '[', "|["@);
    let a2 = replaced(a1, "["@, "|["@);
    let b2 = replaced(b1, "["@, "|["@);
    lemma_replaced_char_concat(a2, b2, ']', "|]"@);
    let a3 = replaced(a2, "]"@, "|]"@);
    let b3 = replaced(b2, "]"@, "|]"@);
    lemma_replaced_char_concat(a3, b3, '\n', "|n"@);
    let a4 = replaced(a3, "\n"@, "|n"@);
    let b4 = replaced(b3, "\n"@, "|n"@);
    lemma_replaced_char_concat(a4, b4, '\r', "|r"@);
    let a5 = replaced(a4, "\r"@, "|r"@);
    let b5 = replaced(b4, "\r"@, "|r"@);
    lemma_replaced_char_concat(a5, b5, '\'', "|'"@);
}

/// The six patterns are the six special characters, and the six replacements
/// are a vertical bar followed by one more character.
proof fn lemma_patterns()
    ensures
        "|"@ == seq!['|'],
        "["@ == seq!['['],
        "]"@ == seq![']'],
        "\n"@ == seq!['\n'],
        "\r"@ == seq!['\r'],
        "'"@ == seq!['\''],
        "||"@ == seq!['|', '|'],
        "|["@ == seq!['|', '['],
        "|]"@ == seq!['|', ']'],
        "|n"@ == seq!['|', 'n'],
        "|r"@ == seq!['|', 'r'],
        "|'"@ == seq!['|', '\''],
{
    reveal_strlit("|");
    reveal_strlit("[");
    reveal_strlit("]");
    reveal_strlit("\n");
    reveal_strlit("\r");
    reveal_strlit("'");
    reveal_strlit("||");
    reveal_strlit("|[");
    reveal_strlit("|]");
    reveal_strlit("|n");
    reveal_strlit("|r");
    reveal_strlit("|'");
    assert("|"@ =~= seq!['|']);
    assert("["@ =~= seq!['[']);
    assert("]"@ =~= seq![']']);
    assert("\n"@ =~= seq!['\n']);
    assert("\r"@ =~= seq!['\r']);
    assert("'"@ =~= seq!['\'']);
    assert("||"@ =~= seq!['|', '|']);
    assert("|["@ =~= seq!['|', '[']);
    assert("|]"@ =~= seq!['|', ']']);
    assert("|n"@ =~= seq!['|', 'n']);
    assert("|r"@ =~= seq!['|', 'r']);
    assert("|'"@ =~= seq!['|', '\'']);
}

/// Escaping a text of one character gives what escaping makes of that
/// character: the bars that a substitution brings in are not escaped again.
pub proof fn lemma_escaped_one(c: char)
    ensures
        escaped(seq![c]) == escaped_char(c),
{
    lemma_patterns();
    let s = seq![c];
    lemma_replaced_one(c, '|', "||"@);
    let s1 = replaced(s, "|"@, "||"@);
    if c == '|' {
        assert(s1 == seq!['|', '|']);
        lemma_escape_keeps_later(s1, 1);
    } else {
        assert(s1 == s);
        lemma_replaced_one(c, '[', "|["@);
        let s2 = replaced(s1, "["@, "|["@);
        if c == '[' {
            lemma_escape_keeps_later(s2, 2);
        } else {
            lemma_replaced_one(c, ']', "|]"@);
            let s3 = replaced(s2, "]"@, "|]"@);
            if c == ']' {
                lemma_escape_keeps_later(s3, 3);
            } else {
                lemma_replaced_one(c, '\n', "|n"@);
                let s4 = replaced(s3, "\n"@, "|n"@);
                if c == '\n' {
                    lemma_escape_keeps_later(s4, 4);
                } else {
                    lemma_replaced_one(c, '\r', "|r"@);
                    let s5 = replaced(s4, "\r"@, "|r"@);
                    if c == '\r' {
                        lemma_escape_keeps_later(s5, 5);
                    } else {
                        lemma_replaced_one(c, '\'', "|'"@);
                    }
                }
            }
        }
    }
}

/// The text after the first `done` substitutions, where it holds none of the
/// characters that the later substitutions look for, is left as it is by
/// them.
proof fn lemma_escape_keeps_later(s: Seq<char>, done: int)
    requires
        1 <= done <= 5,
        forall|i: int| 0 <= i < s.len() && done < 2 ==> s[i] != '[',
        forall|i: int| 0 <= i < s.len() && done < 3 ==> s[i] != ']',
        forall|i: int| 0 <= i < s.len() && done < 4 ==> s[i] != '\n',
        forall|i: int| 0 <= i < s.len() && done < 5 ==> s[i] != '\r',
        forall|i: int| 0 <= i < s.len() ==> s[i] != '\'',
    ensures
        done < 2 ==> replaced(s, "["@, "|["@) == s,
        done < 3 ==> replaced(s, "]"@, "|]"@) == s,
        done < 4 ==> replaced(s, "\n"@, "|n"@) == s,
        done < 5 ==> replaced(s, "\r"@, "|r"@) == s,
        replaced(s, "'"@, "|'"@) == s,
{
    lemma_patterns();
    if done < 2 {
        lemma_replaced_without_char(s, '[', "|["@);
    }
    if done < 3 {
        lemma_replaced_without_char(s, ']', "|]"@);
    }
    if done < 4 {
        lemma_replaced_without_char(s, '\n', "|n"@);
    }
    if done < 5 {
        lemma_replaced_without_char(s, '\r', "|r"@);
    }
    lemma_replaced_without_char(s, '\'', "|'"@);
}

/// Escaping rewrites each character on its own: the six substitutions made
/// one after the other give the same text as one pass that writes each
/// special character as a vertical bar and its code.
pub proof fn lemma_escaped_is_each(s: Seq<char>)
    ensures
        escaped(s) == escaped_each(s),
    decreases s.len(),
{
    if s.len() == 0 {
        lemma_escape_keeps_safe_text(s);
    } else {
        assert(s == seq![s[0]] + s.skip(1));
        lemma_escaped_concat(seq![s[0]], s.skip(1));
        lemma_escaped_one(s[0]);
        lemma_escaped_is_each(s.skip(1));
    }
}

/// Whether `t` can stand between the quotes of a service message: it holds
/// no line feed and no carriage return, and each `'`, `[` and `]` in it comes
/// directly after a vertical bar.
pub open spec fn is_guarded(t: Seq<char>) -> bool {
    forall|i: int|
        0 <= i < t.len() ==> {
            &&& t[i] != '\n'
            &&& t[i] != '\r'
            &&& (#[trigger] t[i] == '\'' || t[i] == '[' || t[i] == ']') ==> i > 0 && t[i - 1] == '|'
        }
}

/// Two guarded texts joined are guarded.
proof fn lemma_guarded_concat(a: Seq<char>, b: Seq<char>)
    requires
        is_guarded(a),
        is_guarded(b),
    ensures
        is_guarded(a + b),
{
    let t = a + b;
    assert forall|i: int| 0 <= i < t.len() implies {
        &&& t[i] != '\n'
        &&& t[i] != '\r'
        &&& (#[trigger] t[i] == '\'' || t[i] == '[' || t[i] == ']') ==> i > 0 && t[i - 1] == '|'
    } by {
        if i < a.len() {
            assert(t[i] == a[i]);
            if i > 0 {
                assert(t[i - 1] == a[i - 1]);
            }
        } else {
            let j = i - a.len();
            assert(t[i] == b[j]);
            if j > 0 {
                assert(t[i - 1] == b[j - 1]);
            }
        }
    }
}

/// Whatever the text, its escaped form can stand between the quotes of a
/// service message.
pub proof fn lemma_escaped_is_guarded(s: Seq<char>)
    ensures
        is_guarded(escaped(s)),
    decreases s.len(),
{
    lemma_escaped_is_each(s);
    if s.len() > 0 {
        lemma_patterns();
        lemma_escaped_is_guarded(s.skip(1));
        lemma_escaped_is_each(s.skip(1));
        assert(is_guarded(escaped_char(s[0])));
        lemma_guarded_concat(escaped_char(s[0]), escaped_each(s.skip(1)));
    }
}

} // verus!
