//! Turning free text into a name the platform accepts.

use vstd::prelude::*;

verus! {

/// Characters with the Unicode `White_Space` property.
pub open spec fn is_white_space(c: char) -> bool {
    ('\u{9}' <= c && c <= '\u{d}') || c == ' ' || c == '\u{85}' || c == '\u{a0}' || c
        == '\u{1680}' || ('\u{2000}' <= c && c <= '\u{200a}') || c == '\u{2028}' || c
        == '\u{2029}' || c == '\u{202f}' || c == '\u{205f}' || c == '\u{3000}'
}

/// Characters a name may hold: ASCII letters and digits, `_`, `.` and `-`.
pub open spec fn is_name_char(c: char) -> bool {
    ('a' <= c && c <= 'z') || ('A' <= c && c <= 'Z') || ('0' <= c && c <= '9') || c == '_' || c
        == '.' || c == '-'
}

/// `k` is the position of the first white space in `s`.
pub open spec fn first_space_at(s: Seq<char>, k: int) -> bool {
    0 <= k < s.len() && is_white_space(s[k]) && forall|j: int|
        0 <= j < k ==> !is_white_space(#[trigger] s[j])
}

/// `s` with its first white space, if any, turned into `_`.
pub open spec fn underscore_first_space(s: Seq<char>) -> Seq<char> {
    if exists|k: int| first_space_at(s, k) {
        s.update(choose|k: int| first_space_at(s, k), '_')
    } else {
        s
    }
}

/// The name characters of `s`, in order.
pub open spec fn name_chars(s: Seq<char>) -> Seq<char>
    decreases s.len(),
{
    if s.len() == 0 {
        s
    } else if is_name_char(s.last()) {
        name_chars(s.drop_last()).push(s.last())
    } else {
        name_chars(s.drop_last())
    }
}

/// The name made of `s`: its first white space turned into `_`, and every
/// character a name may not hold dropped.
pub open spec fn normalized(s: Seq<char>) -> Seq<char> {
    name_chars(underscore_first_space(s))
}

fn white_space(c: char) -> (r: bool)
    ensures
        r == is_white_space(c),
{
    ('\u{9}' <= c && c <= '\u{d}') || c == ' ' || c == '\u{85}' || c == '\u{a0}' || c
        == '\u{1680}' || ('\u{2000}' <= c && c <= '\u{200a}') || c == '\u{2028}' || c
        == '\u{2029}' || c == '\u{202f}' || c == '\u{205f}' || c == '\u{3000}'
}

fn name_char(c: char) -> (r: bool)
    ensures
        r == is_name_char(c),
{
    ('a' <= c && c <= 'z') || ('A' <= c && c <= 'Z') || ('0' <= c && c <= '9') || c == '_' || c
        == '.' || c == '-'
}

/// The message for a value that does not start with a letter.
pub open spec fn no_letter_message(val: Seq<char>) -> Seq<char> {
    "Value \""@ + val + "\" must begin with a character"@
}

/// Turns `val` into a name: it must start with an ASCII letter; its first
/// white space becomes `_`, and characters other than ASCII letters, digits,
/// `_`, `.` and `-` are dropped.
pub fn normalize(val: String) -> (r: Result<String, String>)
    ensures
        ({
            let s = val@;
            if s.len() > 0 && (('a' <= s[0] && s[0] <= 'z') || ('A' <= s[0] && s[0] <= 'Z')) {
                r matches Ok(n) && n@ == normalized(s)
            } else {
                r matches Err(m) && m@ == no_letter_message(s)
            }
        }),
{
    let s = val.as_str();
    let n = s.unicode_len();
    if n == 0 || !(('a' <= s.get_char(0) && s.get_char(0) <= 'z') || ('A' <= s.get_char(0)
        && s.get_char(0) <= 'Z')) {
        let mut m = String::from_str("Value \"");
        m.append(s);
        m.append("\" must begin with a character");
        return Err(m);
    }
    let mut k: usize = 0;
    while k < n && !white_space(s.get_char(k))
        invariant
            n == s@.len(),
            k <= n,
            forall|j: int| 0 <= j < k ==> !is_white_space(#[trigger] s@[j]),
        decreases n - k,
    {
        k = k + 1;
    }
    let ghost t = if k < n {
        s@.update(k as int, '_')
    } else {
        s@
    };
    proof {
        if k < n {
            assert(first_space_at(s@, k as int));
            let c = choose|c: int| first_space_at(s@, c);
            if c < k {
                assert(!is_white_space(s@[c]));
            }
            if c > k {
                assert(!is_white_space(s@[k as int]));
            }
            assert(c == k);
        } else {
            assert forall|c: int| !first_space_at(s@, c) by {
                if 0 <= c < n {
                    assert(!is_white_space(s@[c]));
                }
            }
        }
        assert(t == underscore_first_space(s@));
    }
    let mut out = String::new();
    let mut i: usize = 0;
    while i < n
        invariant
            n == s@.len(),
            t.len() == n,
            i <= n,
            k <= n,
            forall|j: int| 0 <= j < n && j != k ==> t[j] == s@[j],
            k < n ==> t[k as int] == '_',
            out@ == name_chars(t.take(i as int)),
        decreases n - i,
    {
        proof {
            assert(t.take(i + 1).drop_last() =~= t.take(i as int));
            assert(t.take(i + 1).last() == t[i as int]);
        }
        if i == k {
            out.append("_");
            proof {
                reveal_strlit("_");
            }
        } else {
            let c = s.get_char(i);
            if name_char(c) {
                let piece = s.substring_char(i, i + 1);
                assert(piece@ =~= seq![c]);
                out.append(piece);
            }
        }
        i = i + 1;
    }
    assert(t.take(n as int) =~= t);
    Ok(out)
}

} // verus!
