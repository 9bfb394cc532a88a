//! Text sanitizing: strip leading and trailing whitespace, then make every
//! interior space character an underscore.

use vstd::prelude::*;
use vstd::string::StrSliceExecFns;

verus! {

/// Whether `c` has the Unicode `White_Space` property, the set of characters
/// that trimming removes at either end of a text.
pub open spec fn is_whitespace_char(c: char) -> bool {
    ||| c == '\t'
    ||| c == '\n'
    ||| c == '\u{0B}'
    ||| c == '\u{0C}'
    ||| c == '\r'
    ||| c == ' '
    ||| c == '\u{85}'
    ||| c == '\u{A0}'
    ||| c == '\u{1680}'
    ||| c == '\u{2000}'
    ||| c == '\u{2001}'
    ||| c == '\u{2002}'
    ||| c == '\u{2003}'
    ||| c == '\u{2004}'
    ||| c == '\u{2005}'
    ||| c == '\u{2006}'
    ||| c == '\u{2007}'
    ||| c == '\u{2008}'
    ||| c == '\u{2009}'
    ||| c == '\u{200A}'
    ||| c == '\u{2028}'
    ||| c == '\u{2029}'
    ||| c == '\u{202F}'
    ||| c == '\u{205F}'
    ||| c == '\u{3000}'
}

fn whitespace_char(c: char) -> (b: bool)
    ensures
        b == is_whitespace_char(c),
{
    match c {
        '\t' | '\n' | '\u{0B}' | '\u{0C}' | '\r' | ' ' | '\u{85}' | '\u{A0}'
            | '\u{1680}' | '\u{2000}' | '\u{2001}' | '\u{2002}' | '\u{2003}'
            | '\u{2004}' | '\u{2005}' | '\u{2006}' | '\u{2007}' | '\u{2008}'
            | '\u{2009}' | '\u{200A}' | '\u{2028}' | '\u{2029}' | '\u{202F}'
            | '\u{205F}' | '\u{3000}' => true,
        _ => false,
    }
}

/// `s` with its leading whitespace removed.
pub open spec fn trim_start_spec(s: Seq<char>) -> Seq<char>
    decreases s.len(),
{
    if s.len() > 0 && is_whitespace_char(s[0]) {
        trim_start_spec(s.drop_first())
    } else {
        s
    }
}

/// `s` with its trailing whitespace removed.
pub open spec fn trim_end_spec(s: Seq<char>) -> Seq<char>
    decreases s.len(),
{
    if s.len() > 0 && is_whitespace_char(s.last()) {
        trim_end_spec(s.drop_last())
    } else {
        s
    }
}

/// `s` with both leading and trailing whitespace removed.
pub open spec fn trim_spec(s: Seq<char>) -> Seq<char> {
    trim_end_spec(trim_start_spec(s))
}

/// A space becomes an underscore; every other character stays itself.
pub open spec fn underscore_char(c: char) -> char {
    if c == ' ' {
        '_'
    } else {
        c
    }
}

/// `s` with every space character made an underscore.
pub open spec fn underscored(s: Seq<char>) -> Seq<char> {
    s.map_values(|c: char| underscore_char(c))
}

/// What sanitizing a text yields: the text trimmed at both ends, with every
/// remaining space made an underscore.
pub open spec fn normalize(s: Seq<char>) -> Seq<char> {
    underscored(trim_spec(s))
}

proof fn lemma_trim_start_is_subrange(s: Seq<char>, i: int)
    requires
        0 <= i <= s.len(),
        forall|k: int| 0 <= k < i ==> is_whitespace_char(s[k]),
        i < s.len() ==> !is_whitespace_char(s[i]),
    ensures
        trim_start_spec(s) == s.subrange(i, s.len() as int),
    decreases i,
{
    if i == 0 {
        assert(s.subrange(0, s.len() as int) =~= s);
    } else {
        let rest = s.drop_first();
        lemma_trim_start_is_subrange(rest, i - 1);
        assert(rest.subrange(i - 1, rest.len() as int) =~= s.subrange(
            i,
            s.len() as int,
        ));
    }
}

proof fn lemma_trim_end_is_subrange(s: Seq<char>, j: int)
    requires
        0 <= j <= s.len(),
        forall|k: int| j <= k < s.len() ==> is_whitespace_char(s[k]),
        j > 0 ==> !is_whitespace_char(s[j - 1]),
    ensures
        trim_end_spec(s) == s.subrange(0, j),
    decreases s.len() - j,
{
    if j == s.len() {
        if s.len() > 0 && is_whitespace_char(s.last()) {
            assert(false);
        }
        assert(s.subrange(0, s.len() as int) =~= s);
    } else {
        let shorter = s.drop_last();
        lemma_trim_end_is_subrange(shorter, j);
        assert(shorter.subrange(0, j) =~= s.subrange(0, j));
    }
}

proof fn lemma_trim_start_head(s: Seq<char>)
    ensures
        trim_start_spec(s).len() > 0 ==> !is_whitespace_char(
            trim_start_spec(s)[0],
        ),
    decreases s.len(),
{
    if s.len() > 0 && is_whitespace_char(s[0]) {
        lemma_trim_start_head(s.drop_first());
    }
}

proof fn lemma_trim_end_head(s: Seq<char>)
    ensures
        trim_end_spec(s).len() > 0 ==> s.len() > 0 && trim_end_spec(s)[0]
            == s[0],
    decreases s.len(),
{
    if s.len() > 0 && is_whitespace_char(s.last()) {
        lemma_trim_end_head(s.drop_last());
    }
}

proof fn lemma_trim_end_last(s: Seq<char>)
    ensures
        trim_end_spec(s).len() > 0 ==> !is_whitespace_char(
            trim_end_spec(s).last(),
        ),
    decreases s.len(),
{
    if s.len() > 0 && is_whitespace_char(s.last()) {
        lemma_trim_end_last(s.drop_last());
    }
}

/// Sanitizing is idempotent: a text that has been sanitized once is left
/// exactly as it is by sanitizing it again.
pub proof fn lemma_normalize_idempotent(s: Seq<char>)
    ensures
        normalize(normalize(s)) == normalize(s),
{
    let t = trim_spec(s);
    let r = underscored(t);
    assert(r.len() == t.len());
    if t.len() > 0 {
        lemma_trim_start_head(s);
        lemma_trim_end_head(trim_start_spec(s));
        lemma_trim_end_last(trim_start_spec(s));
        assert(!is_whitespace_char(t[0]));
        assert(!is_whitespace_char(t.last()));
        assert(r[0] == underscore_char(t[0]));
        assert(r.last() == underscore_char(t.last()));
        assert(!is_whitespace_char(r[0]));
        assert(!is_whitespace_char(r.last()));
    }
    assert(trim_start_spec(r) == r);
    assert(trim_end_spec(r) == r);
    assert forall|k: int| 0 <= k < r.len() implies underscore_char(r[k])
        == r[k] by {
        assert(r[k] == underscore_char(t[k]));
    };
    assert(underscored(r) =~= r);
}

/// Relies on `String::push`: it appends the given character to the end of
/// the string.
pub assume_specification[ String::push ](s: &mut String, ch: char)
    ensures
        final(s)@ == old(s)@.push(ch),
;

/// Strip leading and trailing whitespace from `s`, then make every interior
/// space an underscore.
#[allow(non_snake_case)]
pub fn Sanitize(s: String) -> (r: String)
    ensures
        r@ == normalize(s@),
{
    let st: &str = s.as_str();
    let len: usize = st.unicode_len();
    let mut start: usize = 0;
    while start < len && whitespace_char(st.get_char(start))
        invariant
            start <= len,
            len == s@.len(),
            st@ == s@,
            forall|k: int| 0 <= k < start ==> is_whitespace_char(s@[k]),
        decreases len - start,
    {
        start = start + 1;
    }
    let mut end: usize = len;
    while end > start && whitespace_char(st.get_char(end - 1))
        invariant
            start <= end <= len,
            len == s@.len(),
            st@ == s@,
            forall|k: int| end <= k < len ==> is_whitespace_char(s@[k]),
        decreases end,
    {
        end = end - 1;
    }
    proof {
        lemma_trim_start_is_subrange(s@, start as int);
        let t = s@.subrange(start as int, len as int);
        lemma_trim_end_is_subrange(t, end - start);
        assert(t.subrange(0, end - start) =~= s@.subrange(
            start as int,
            end as int,
        ));
    }
    let mut out = String::new();
    let mut i: usize = start;
    while i < end
        invariant
            start <= i <= end <= len,
            len == s@.len(),
            st@ == s@,
            out@ == underscored(s@.subrange(start as int, i as int)),
        decreases end - i,
    {
        let c = st.get_char(i);
        if c == ' ' {
            out.push('_');
        } else {
            out.push(c);
        }
        proof {
            let sub = s@.subrange(start as int, i as int);
            assert(s@.subrange(start as int, i + 1 as int) =~= sub.push(
                s@[i as int],
            ));
            assert(underscored(sub.push(s@[i as int])) =~= underscored(
                sub,
            ).push(underscore_char(s@[i as int])));
        }
        i = i + 1;
    }
    out
}

} // verus!
