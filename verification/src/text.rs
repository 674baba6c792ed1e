//! Texts as sequences of characters: white space and trimming, prefixes and suffixes, and
//! cutting a text into parts.

use vstd::prelude::*;

verus! {

/// Whether `c` carries the Unicode property White_Space.
pub open spec fn is_white_space(c: char) -> bool {
    let n = c as u32;
    ||| 0x09 <= n <= 0x0D
    ||| n == 0x20
    ||| n == 0x85
    ||| n == 0xA0
    ||| n == 0x1680
    ||| 0x2000 <= n <= 0x200A
    ||| n == 0x2028
    ||| n == 0x2029
    ||| n == 0x202F
    ||| n == 0x205F
    ||| n == 0x3000
}

/// `s` without its leading white space.
pub open spec fn trimmed_start(s: Seq<char>) -> Seq<char>
    decreases s.len(),
{
    if s.len() > 0 && is_white_space(s[0]) {
        trimmed_start(s.drop_first())
    } else {
        s
    }
}

/// `s` without its trailing white space.
pub open spec fn trimmed_end(s: Seq<char>) -> Seq<char>
    decreases s.len(),
{
    if s.len() > 0 && is_white_space(s.last()) {
        trimmed_end(s.drop_last())
    } else {
        s
    }
}

/// `s` without leading and trailing white space.
pub open spec fn trimmed(s: Seq<char>) -> Seq<char> {
    trimmed_end(trimmed_start(s))
}

/// Whether `s` holds nothing but white space.
pub open spec fn is_blank(s: Seq<char>) -> bool {
    forall|i: int| 0 <= i < s.len() ==> is_white_space(#[trigger] s[i])
}

/// Whether `s` begins with `prefix`.
pub open spec fn starts_with(s: Seq<char>, prefix: Seq<char>) -> bool {
    prefix.len() <= s.len() && s.take(prefix.len() as int) == prefix
}

/// Whether `s` ends with `suffix`.
pub open spec fn ends_with(s: Seq<char>, suffix: Seq<char>) -> bool {
    suffix.len() <= s.len() && s.skip(s.len() - suffix.len()) == suffix
}

/// `s` without `suffix` at its end, where it ends with it.
pub open spec fn without_suffix(s: Seq<char>, suffix: Seq<char>) -> Option<Seq<char>> {
    if ends_with(s, suffix) {
        Some(s.take(s.len() - suffix.len()))
    } else {
        None
    }
}

/// Where `c` first stands in `s`; the length of `s` where it does not stand in it.
pub open spec fn first_index(s: Seq<char>, c: char) -> int
    decreases s.len(),
{
    if s.len() == 0 || s[0] == c {
        0
    } else {
        1 + first_index(s.drop_first(), c)
    }
}

/// The parts into which the occurrences of `sep` cut `s`: one more than there are occurrences,
/// empty parts included.
pub open spec fn fields(s: Seq<char>, sep: char) -> Seq<Seq<char>>
    decreases s.len(),
{
    let i = first_index(s, sep);
    if 0 <= i < s.len() {
        seq![s.take(i)] + fields(s.skip(i + 1), sep)
    } else {
        seq![s]
    }
}

/// The characters held by an optional text.
pub open spec fn text_of(r: Option<String>) -> Option<Seq<char>> {
    match r {
        Some(t) => Some(t@),
        None => None,
    }
}

/// The texts held by a list of texts.
pub open spec fn texts_of(v: Seq<String>) -> Seq<Seq<char>> {
    v.map_values(|t: String| t@)
}

/// Where the white space at the head of `s` ends, there begins what `trimmed_start` keeps.
pub proof fn lemma_trimmed_start(s: Seq<char>, i: int)
    requires
        0 <= i <= s.len(),
        forall|j: int| 0 <= j < i ==> is_white_space(#[trigger] s[j]),
        i == s.len() || !is_white_space(s[i]),
    ensures
        trimmed_start(s) == s.skip(i),
    decreases i,
{
    if i == 0 {
        assert(s.skip(0) =~= s);
    } else {
        let t = s.drop_first();
        assert forall|j: int| 0 <= j < i - 1 implies is_white_space(#[trigger] t[j]) by {
            assert(t[j] == s[j + 1]);
        }
        lemma_trimmed_start(t, i - 1);
        assert(t.skip(i - 1) =~= s.skip(i));
    }
}

/// Where the white space at the tail of `s` begins, there ends what `trimmed_end` keeps.
pub proof fn lemma_trimmed_end(s: Seq<char>, i: int)
    requires
        0 <= i <= s.len(),
        forall|j: int| i <= j < s.len() ==> is_white_space(#[trigger] s[j]),
        i == 0 || !is_white_space(s[i - 1]),
    ensures
        trimmed_end(s) == s.take(i),
    decreases s.len() - i,
{
    if i == s.len() {
        assert(s.take(i) =~= s);
    } else {
        let t = s.drop_last();
        lemma_trimmed_end(t, i);
        assert(t.take(i) =~= s.take(i));
    }
}

/// Trimming the tail removes neither a character that is no white space nor what stands
/// before it.
pub proof fn lemma_trimmed_end_keeps(s: Seq<char>, k: int)
    requires
        0 <= k < s.len(),
        !is_white_space(s[k]),
    ensures
        trimmed_end(s).len() > k,
    decreases s.len(),
{
    if is_white_space(s.last()) {
        lemma_trimmed_end_keeps(s.drop_last(), k);
    }
}

/// A text trims to nothing exactly when it is blank.
pub proof fn lemma_blank_trims_to_nothing(s: Seq<char>)
    ensures
        is_blank(s) <==> trimmed(s).len() == 0,
    decreases s.len(),
{
    if s.len() == 0 {
    } else if is_white_space(s[0]) {
        let t = s.drop_first();
        lemma_blank_trims_to_nothing(t);
        if is_blank(s) {
            assert forall|i: int| 0 <= i < t.len() implies is_white_space(#[trigger] t[i]) by {
                assert(t[i] == s[i + 1]);
            }
        }
        if is_blank(t) {
            assert forall|i: int| 0 <= i < s.len() implies is_white_space(#[trigger] s[i]) by {
                if i > 0 {
                    assert(s[i] == t[i - 1]);
                }
            }
        }
    } else {
        lemma_trimmed_end_keeps(s, 0);
    }
}

/// `first_index` is the position before which `c` does not stand and at which it stands.
pub proof fn lemma_first_index(s: Seq<char>, c: char, k: int)
    requires
        0 <= k <= s.len(),
        forall|j: int| 0 <= j < k ==> #[trigger] s[j] != c,
        k == s.len() || s[k] == c,
    ensures
        first_index(s, c) == k,
    decreases k,
{
    if k > 0 {
        let t = s.drop_first();
        assert forall|j: int| 0 <= j < k - 1 implies #[trigger] t[j] != c by {
            assert(t[j] == s[j + 1]);
        }
        lemma_first_index(t, c, k - 1);
    }
}

/// Whether `c` is white space.
pub fn white_space(c: char) -> (r: bool)
    ensures
        r == is_white_space(c),
{
    let n: u32 = c as u32;
    (0x09 <= n && n <= 0x0D) || n == 0x20 || n == 0x85 || n == 0xA0 || n == 0x1680 || (0x2000 <= n
        && n <= 0x200A) || n == 0x2028 || n == 0x2029 || n == 0x202F || n == 0x205F || n == 0x3000
}

/// The characters of `s`, in order.
pub fn chars_of(s: &str) -> (r: Vec<char>)
    ensures
        r@ == s@,
{
    let mut out: Vec<char> = Vec::new();
    for c in it: s.chars()
        invariant
            it.seq() == s@,
            out@ == s@.take(it.index() as int),
    {
        out.push(c);
    }
    out
}

/// Whether the two texts hold the same characters.
pub fn same_text(a: &str, b: &str) -> (r: bool)
    ensures
        r == (a@ == b@),
{
    let x = a.to_owned();
    let y = b.to_owned();
    x == y
}

/// `a` followed by `b`.
pub fn joined(a: &str, b: &str) -> (r: String)
    ensures
        r@ == a@ + b@,
{
    let mut out = a.to_owned();
    out.append(b);
    out
}

/// `s` without the white space around it.
pub fn trim(s: &str) -> (r: String)
    ensures
        r@ == trimmed(s@),
{
    let v = chars_of(s);
    let n: usize = v.len();
    let mut a: usize = 0;
    while a < n && white_space(v[a])
        invariant
            a <= n,
            n == v@.len(),
            forall|j: int| 0 <= j < a ==> is_white_space(#[trigger] v@[j]),
        decreases n - a,
    {
        a += 1;
    }
    let mut b: usize = n;
    while b > a && white_space(v[b - 1])
        invariant
            a <= b <= n,
            n == v@.len(),
            forall|j: int| b <= j < n ==> is_white_space(#[trigger] v@[j]),
        decreases b,
    {
        b -= 1;
    }
    proof {
        let t = v@.skip(a as int);
        lemma_trimmed_start(v@, a as int);
        assert forall|j: int| b - a <= j < t.len() implies is_white_space(#[trigger] t[j]) by {
            assert(t[j] == v@[j + a]);
        }
        lemma_trimmed_end(t, b - a);
        assert(t.take(b - a) =~= v@.subrange(a as int, b as int));
    }
    s.substring_char(a, b).to_owned()
}

/// Whether `s` is empty once trimmed, which is to say that it holds nothing but white space.
pub fn blank(s: &str) -> (r: bool)
    ensures
        r == is_blank(s@),
        r == (trimmed(s@).len() == 0),
{
    let v = chars_of(s);
    let n: usize = v.len();
    let mut i: usize = 0;
    while i < n && white_space(v[i])
        invariant
            i <= n,
            n == v@.len(),
            forall|j: int| 0 <= j < i ==> is_white_space(#[trigger] v@[j]),
        decreases n - i,
    {
        i += 1;
    }
    proof {
        lemma_blank_trims_to_nothing(s@);
    }
    i == n
}

/// Whether `w` stands in `v` from position `at` on.
fn stands_at(v: &Vec<char>, at: usize, w: &Vec<char>) -> (r: bool)
    requires
        at <= v@.len(),
    ensures
        r == (w@.len() <= v@.len() - at && v@.subrange(at as int, at + w@.len()) == w@),
{
    let n: usize = w.len();
    if n > v.len() - at {
        return false;
    }
    let mut i: usize = 0;
    while i < n
        invariant
            i <= n,
            n == w@.len(),
            at + n <= v.len(),
            forall|j: int| 0 <= j < i ==> v@[at + j] == w@[j],
        decreases n - i,
    {
        if v[at + i] != w[i] {
            assert(v@.subrange(at as int, at + n)[i as int] == v@[at + i]);
            return false;
        }
        i += 1;
    }
    assert(v@.subrange(at as int, at + n) =~= w@);
    true
}

/// Whether `s` begins with `prefix`.
pub fn has_prefix(s: &str, prefix: &str) -> (r: bool)
    ensures
        r == starts_with(s@, prefix@),
{
    let v = chars_of(s);
    let w = chars_of(prefix);
    let r = stands_at(&v, 0, &w);
    proof {
        if w@.len() <= v@.len() {
            assert(v@.subrange(0, w@.len() as int) =~= v@.take(w@.len() as int));
        }
    }
    r
}

/// Whether `s` ends with `suffix`.
pub fn has_suffix(s: &str, suffix: &str) -> (r: bool)
    ensures
        r == ends_with(s@, suffix@),
{
    let v = chars_of(s);
    let w = chars_of(suffix);
    if w.len() > v.len() {
        return false;
    }
    let at: usize = v.len() - w.len();
    let r = stands_at(&v, at, &w);
    proof {
        assert(v@.subrange(at as int, at + w@.len()) =~= v@.skip(v@.len() - w@.len()));
    }
    r
}

/// `s` without `suffix` at its end, or `None` where it does not end with it.
pub fn strip_suffix(s: &str, suffix: &str) -> (r: Option<String>)
    ensures
        text_of(r) == without_suffix(s@, suffix@),
{
    if has_suffix(s, suffix) {
        let n: usize = s.unicode_len();
        let m: usize = suffix.unicode_len();
        let kept = s.substring_char(0, n - m).to_owned();
        assert(s@.subrange(0, n - m) =~= s@.take(s@.len() - suffix@.len()));
        Some(kept)
    } else {
        None
    }
}

/// The parts into which the occurrences of `sep` cut `s`.
pub fn split(s: &str, sep: char) -> (r: Vec<String>)
    ensures
        texts_of(r@) == fields(s@, sep),
{
    let v = chars_of(s);
    let n: usize = v.len();
    let mut out: Vec<String> = Vec::new();
    let mut start: usize = 0;
    let mut i: usize = 0;
    proof {
        assert(s@.skip(0) =~= s@);
        assert(texts_of(out@) + fields(s@, sep) =~= fields(s@, sep));
    }
    while i < n
        invariant
            start <= i <= n,
            n == v@.len(),
            v@ == s@,
            forall|j: int| start <= j < i ==> #[trigger] v@[j] != sep,
            fields(s@, sep) == texts_of(out@) + fields(s@.skip(start as int), sep),
        decreases n - i,
    {
        if v[i] == sep {
            let part = s.substring_char(start, i).to_owned();
            proof {
                let rest = s@.skip(start as int);
                assert forall|j: int| 0 <= j < i - start implies #[trigger] rest[j] != sep by {
                    assert(rest[j] == v@[start + j]);
                }
                lemma_first_index(rest, sep, i - start);
                assert(rest.take(i - start) =~= s@.subrange(start as int, i as int));
                assert(rest.skip(i - start + 1) =~= s@.skip(i + 1));
                assert(texts_of(out@.push(part)) =~= texts_of(out@).push(part@));
                assert(texts_of(out@).push(part@) + fields(s@.skip(i + 1), sep) =~= texts_of(out@)
                    + (seq![part@] + fields(s@.skip(i + 1), sep)));
            }
            out.push(part);
            start = i + 1;
        }
        i += 1;
    }
    let part = s.substring_char(start, n).to_owned();
    proof {
        let rest = s@.skip(start as int);
        assert forall|j: int| 0 <= j < n - start implies #[trigger] rest[j] != sep by {
            assert(rest[j] == v@[start + j]);
        }
        lemma_first_index(rest, sep, n - start);
        assert(rest =~= s@.subrange(start as int, n as int));
        assert(texts_of(out@.push(part)) =~= texts_of(out@).push(part@));
        assert(texts_of(out@).push(part@) =~= texts_of(out@) + seq![part@]);
    }
    out.push(part);
    out
}

} // verus!
