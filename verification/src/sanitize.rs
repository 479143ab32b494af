//! The sanitizer: strips control characters from a string and trims
//! surrounding whitespace. It is a total, pure function, and it is
//! idempotent; both facts are proved below.
use vstd::prelude::*;
use vstd::string::*;

use crate::text::chars_to_string;

verus! {

/// A character the sanitizer removes: the Unicode control characters
/// (U+0000..=U+001F and U+007F..=U+009F), the set `char::is_control`
/// recognises. The null character is among them.
pub open spec fn is_ctl_char(c: char) -> bool {
    (c as u32) < 0x20 || (0x7f <= (c as u32) && (c as u32) <= 0x9f)
}

/// A character the trimming step removes from the ends: the Unicode
/// `White_Space` set, as `str::trim` understands it.
pub open spec fn is_ws_char(c: char) -> bool {
    ||| (0x09 <= (c as u32) && (c as u32) <= 0x0d)
    ||| (c as u32) == 0x20
    ||| (c as u32) == 0x85
    ||| (c as u32) == 0xa0
    ||| (c as u32) == 0x1680
    ||| (0x2000 <= (c as u32) && (c as u32) <= 0x200a)
    ||| (c as u32) == 0x2028
    ||| (c as u32) == 0x2029
    ||| (c as u32) == 0x202f
    ||| (c as u32) == 0x205f
    ||| (c as u32) == 0x3000
}

/// The subsequence of `s` with every control character removed.
pub open spec fn strip_ctl(s: Seq<char>) -> Seq<char>
    decreases s.len(),
{
    if s.len() == 0 {
        Seq::empty()
    } else if is_ctl_char(s.last()) {
        strip_ctl(s.drop_last())
    } else {
        strip_ctl(s.drop_last()).push(s.last())
    }
}

/// `s` without its leading whitespace.
pub open spec fn trim_start(s: Seq<char>) -> Seq<char>
    decreases s.len(),
{
    if s.len() > 0 && is_ws_char(s[0]) {
        trim_start(s.drop_first())
    } else {
        s
    }
}

/// `s` without its trailing whitespace.
pub open spec fn trim_end(s: Seq<char>) -> Seq<char>
    decreases s.len(),
{
    if s.len() > 0 && is_ws_char(s.last()) {
        trim_end(s.drop_last())
    } else {
        s
    }
}

/// What sanitizing a string means: remove every control character,
/// then trim whitespace from both ends.
pub open spec fn sanitized(s: Seq<char>) -> Seq<char> {
    trim_end(trim_start(strip_ctl(s)))
}

/// Executable test for `is_ctl_char`.
pub fn char_is_ctl(c: char) -> (r: bool)
    ensures
        r == is_ctl_char(c),
{
    let u = c as u32;
    u < 0x20 || (0x7f <= u && u <= 0x9f)
}

/// Executable test for `is_ws_char`.
pub fn char_is_ws(c: char) -> (r: bool)
    ensures
        r == is_ws_char(c),
{
    let u = c as u32;
    (0x09 <= u && u <= 0x0d) || u == 0x20 || u == 0x85 || u == 0xa0 || u == 0x1680 || (0x2000 <= u
        && u <= 0x200a) || u == 0x2028 || u == 0x2029 || u == 0x202f || u == 0x205f || u == 0x3000
}

proof fn lemma_trim_start_at(s: Seq<char>, a: int)
    requires
        0 <= a <= s.len(),
        forall|j: int| 0 <= j < a ==> is_ws_char(s[j]),
        a < s.len() ==> !is_ws_char(s[a]),
    ensures
        trim_start(s) == s.subrange(a, s.len() as int),
    decreases a,
{
    if a == 0 {
        assert(s.subrange(0, s.len() as int) =~= s);
    } else {
        assert(is_ws_char(s[0]));
        lemma_trim_start_at(s.drop_first(), a - 1);
        assert(s.drop_first().subrange(a - 1, s.drop_first().len() as int) =~= s.subrange(
            a,
            s.len() as int,
        ));
    }
}

proof fn lemma_trim_end_at(s: Seq<char>, b: int)
    requires
        0 <= b <= s.len(),
        forall|j: int| b <= j < s.len() ==> is_ws_char(s[j]),
        b > 0 ==> !is_ws_char(s[b - 1]),
    ensures
        trim_end(s) == s.subrange(0, b),
    decreases s.len() - b,
{
    if b == s.len() {
        assert(s.subrange(0, b) =~= s);
    } else {
        assert(is_ws_char(s.last()));
        lemma_trim_end_at(s.drop_last(), b);
        assert(s.drop_last().subrange(0, b) =~= s.subrange(0, b));
    }
}

proof fn lemma_strip_no_ctl(s: Seq<char>)
    ensures
        forall|i: int|
            0 <= i < strip_ctl(s).len() ==> !is_ctl_char(#[trigger] strip_ctl(s)[i]),
    decreases s.len(),
{
    if s.len() > 0 {
        lemma_strip_no_ctl(s.drop_last());
        let sub = strip_ctl(s.drop_last());
        assert forall|i: int|
            0 <= i < strip_ctl(s).len() implies !is_ctl_char(#[trigger] strip_ctl(s)[i]) by {
            if !is_ctl_char(s.last()) && i < sub.len() {
                assert(strip_ctl(s)[i] == sub[i]);
            }
        }
    }
}

proof fn lemma_strip_identity(s: Seq<char>)
    requires
        forall|i: int| 0 <= i < s.len() ==> !is_ctl_char(#[trigger] s[i]),
    ensures
        strip_ctl(s) == s,
    decreases s.len(),
{
    if s.len() > 0 {
        lemma_strip_identity(s.drop_last());
        assert(strip_ctl(s) =~= s);
    } else {
        assert(strip_ctl(s) =~= s);
    }
}

proof fn lemma_trim_start_preserves_no_ctl(s: Seq<char>)
    requires
        forall|i: int| 0 <= i < s.len() ==> !is_ctl_char(#[trigger] s[i]),
    ensures
        forall|i: int|
            0 <= i < trim_start(s).len() ==> !is_ctl_char(#[trigger] trim_start(s)[i]),
    decreases s.len(),
{
    if s.len() > 0 && is_ws_char(s[0]) {
        assert forall|i: int| 0 <= i < s.drop_first().len() implies !is_ctl_char(
            #[trigger] s.drop_first()[i],
        ) by {
            assert(s.drop_first()[i] == s[i + 1]);
        }
        lemma_trim_start_preserves_no_ctl(s.drop_first());
        assert(trim_start(s) == trim_start(s.drop_first()));
    }
}

proof fn lemma_trim_end_preserves_no_ctl(s: Seq<char>)
    requires
        forall|i: int| 0 <= i < s.len() ==> !is_ctl_char(#[trigger] s[i]),
    ensures
        forall|i: int| 0 <= i < trim_end(s).len() ==> !is_ctl_char(#[trigger] trim_end(s)[i]),
    decreases s.len(),
{
    if s.len() > 0 && is_ws_char(s.last()) {
        assert forall|i: int| 0 <= i < s.drop_last().len() implies !is_ctl_char(
            #[trigger] s.drop_last()[i],
        ) by {
            assert(s.drop_last()[i] == s[i]);
        }
        lemma_trim_end_preserves_no_ctl(s.drop_last());
        assert(trim_end(s) == trim_end(s.drop_last()));
    }
}

proof fn lemma_trim_start_head(s: Seq<char>)
    ensures
        trim_start(s).len() > 0 ==> !is_ws_char(trim_start(s)[0]),
    decreases s.len(),
{
    if s.len() > 0 && is_ws_char(s[0]) {
        lemma_trim_start_head(s.drop_first());
    }
}

proof fn lemma_trim_end_last(s: Seq<char>)
    ensures
        trim_end(s).len() > 0 ==> !is_ws_char(trim_end(s).last()),
    decreases s.len(),
{
    if s.len() > 0 && is_ws_char(s.last()) {
        lemma_trim_end_last(s.drop_last());
    }
}

proof fn lemma_trim_end_keeps_head(s: Seq<char>)
    ensures
        trim_end(s).len() > 0 ==> s.len() > 0 && trim_end(s)[0] == s[0],
    decreases s.len(),
{
    if s.len() > 0 && is_ws_char(s.last()) {
        lemma_trim_end_keeps_head(s.drop_last());
    }
}

/// The sanitizer leaves no control character behind: every character of
/// `sanitized(s)` is outside the control set, whatever `s` was.
pub proof fn lemma_sanitized_no_ctl(s: Seq<char>)
    ensures
        forall|i: int|
            0 <= i < sanitized(s).len() ==> !is_ctl_char(#[trigger] sanitized(s)[i]),
{
    lemma_strip_no_ctl(s);
    lemma_trim_start_preserves_no_ctl(strip_ctl(s));
    lemma_trim_end_preserves_no_ctl(trim_start(strip_ctl(s)));
}

/// Sanitizing is idempotent: applying it twice yields the same string
/// as applying it once.
pub proof fn lemma_sanitize_idempotent(s: Seq<char>)
    ensures
        sanitized(sanitized(s)) == sanitized(s),
{
    let u = sanitized(s);
    let v = trim_start(strip_ctl(s));
    lemma_sanitized_no_ctl(s);
    lemma_strip_identity(u);
    lemma_trim_start_head(strip_ctl(s));
    lemma_trim_end_keeps_head(v);
    assert(trim_start(u) == u);
    lemma_trim_end_last(v);
    assert(trim_end(u) == u);
}

/// Sanitize a string: drop every control character (the null character
/// among them), then trim leading and trailing whitespace.
pub fn sanitize_input(input: &str) -> (r: String)
    ensures
        r@ == sanitized(input@),
{
    let n: usize = input.unicode_len();
    let mut kept: Vec<char> = Vec::new();
    let mut i: usize = 0;
    while i < n
        invariant
            n == input@.len(),
            0 <= i <= n,
            kept@ == strip_ctl(input@.subrange(0, i as int)),
        decreases n - i,
    {
        let c = input.get_char(i);
        proof {
            assert(input@.subrange(0, i as int + 1).drop_last() =~= input@.subrange(0, i as int));
        }
        if !char_is_ctl(c) {
            kept.push(c);
        }
        i += 1;
    }
    proof {
        assert(input@.subrange(0, n as int) =~= input@);
    }
    let len: usize = kept.len();
    let mut a: usize = 0;
    while a < len && char_is_ws(kept[a])
        invariant
            len == kept@.len(),
            0 <= a <= len,
            forall|j: int| 0 <= j < a ==> is_ws_char(kept@[j]),
        decreases len - a,
    {
        a += 1;
    }
    let mut b: usize = len;
    while b > a && char_is_ws(kept[b - 1])
        invariant
            len == kept@.len(),
            a <= b <= len,
            forall|j: int| b <= j < len ==> is_ws_char(kept@[j]),
        decreases b,
    {
        b -= 1;
    }
    let mut out: Vec<char> = Vec::new();
    let mut k: usize = a;
    while k < b
        invariant
            len == kept@.len(),
            a <= k <= b <= len,
            out@ == kept@.subrange(a as int, k as int),
        decreases b - k,
    {
        out.push(kept[k]);
        k += 1;
        proof {
            assert(kept@.subrange(a as int, k as int) =~= kept@.subrange(
                a as int,
                k as int - 1,
            ).push(kept@[k as int - 1]));
        }
    }
    proof {
        lemma_trim_start_at(kept@, a as int);
        let t = kept@.subrange(a as int, len as int);
        lemma_trim_end_at(t, b as int - a as int);
        assert(t.subrange(0, b as int - a as int) =~= kept@.subrange(a as int, b as int));
    }
    chars_to_string(&out)
}

} // verus!
