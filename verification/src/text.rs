//! Character-level helpers on strings, each with its contract over `Seq<char>`.

use vstd::prelude::*;
use vstd::std_specs::iter::IteratorSpec;

verus! {

/// Appends one character to a string (std `String::push`).
#[verifier::external_body]
pub(crate) fn push_char(s: &mut String, c: char)
    ensures
        final(s)@ == old(s)@.push(c),
{
    s.push(c)
}

/// The characters of a string, in order.
pub fn chars_of(s: &str) -> (v: Vec<char>)
    ensures
        v@ == s@,
{
    let mut v: Vec<char> = Vec::new();
    let chars = s.chars();
    for c in it: chars
        invariant
            it.seq() == s@,
            v@ == it.seq().take(it.index()),
    {
        v.push(c);
        assert(it.seq().take(it.index() + 1) == v@);
    }
    v
}

/// A string made of the given characters.
pub fn from_chars(v: &[char]) -> (s: String)
    ensures
        s@ == v@,
{
    let mut s = String::new();
    let mut i: usize = 0;
    while i < v.len()
        invariant
            i <= v@.len(),
            s@ == v@.take(i as int),
        decreases v@.len() - i,
    {
        push_char(&mut s, v[i]);
        i = i + 1;
        assert(s@ == v@.take(i as int));
    }
    assert(v@.take(v@.len() as int) == v@);
    s
}

/// A string made of the first `n` characters of `v`.
pub fn from_first_chars(v: &[char], n: usize) -> (s: String)
    requires
        n <= v@.len(),
    ensures
        s@ == v@.take(n as int),
{
    let mut s = String::new();
    let mut i: usize = 0;
    while i < n
        invariant
            n <= v@.len(),
            i <= n,
            s@ == v@.take(i as int),
        decreases n - i,
    {
        push_char(&mut s, v[i]);
        i = i + 1;
        assert(s@ == v@.take(i as int));
    }
    s
}

/// `s` followed by `t`.
pub fn concat(s: &str, t: &str) -> (r: String)
    ensures
        r@ == s@ + t@,
{
    let mut r = s.to_string();
    r.append(t);
    r
}

/// Unicode `White_Space`: the characters that `str::trim` and
/// `char::is_whitespace` treat as white space.
pub open spec fn is_white_space(c: char) -> bool {
    let n = c as u32;
    ||| 0x09 <= n <= 0x0d
    ||| n == 0x20
    ||| n == 0x85
    ||| n == 0xa0
    ||| n == 0x1680
    ||| 0x2000 <= n <= 0x200a
    ||| n == 0x2028
    ||| n == 0x2029
    ||| n == 0x202f
    ||| n == 0x205f
    ||| n == 0x3000
}

/// Whether `c` is Unicode white space.
pub fn white_space(c: char) -> (b: bool)
    ensures
        b == is_white_space(c),
{
    let n = c as u32;
    (0x09 <= n && n <= 0x0d) || n == 0x20 || n == 0x85 || n == 0xa0 || n == 0x1680 || (0x2000
        <= n && n <= 0x200a) || n == 0x2028 || n == 0x2029 || n == 0x202f || n == 0x205f || n
        == 0x3000
}

/// `s` without its leading white space.
pub open spec fn trim_start(s: Seq<char>) -> Seq<char>
    decreases s.len(),
{
    if s.len() > 0 && is_white_space(s[0]) {
        trim_start(s.drop_first())
    } else {
        s
    }
}

/// `s` without its trailing white space.
pub open spec fn trim_end(s: Seq<char>) -> Seq<char>
    decreases s.len(),
{
    if s.len() > 0 && is_white_space(s.last()) {
        trim_end(s.drop_last())
    } else {
        s
    }
}

/// `s` without leading and trailing white space (`str::trim`).
pub open spec fn trim(s: Seq<char>) -> Seq<char> {
    trim_end(trim_start(s))
}

proof fn lemma_trim_start_skip(s: Seq<char>, i: int)
    requires
        0 <= i <= s.len(),
        forall|k: int| 0 <= k < i ==> is_white_space(#[trigger] s[k]),
        i == s.len() || !is_white_space(s[i]),
    ensures
        trim_start(s) == s.skip(i),
    decreases i,
{
    if i == 0 {
        assert(s.skip(0) == s);
    } else {
        let t = s.drop_first();
        assert forall|k: int| 0 <= k < i - 1 implies is_white_space(#[trigger] t[k]) by {
            assert(t[k] == s[k + 1]);
        }
        if i - 1 < t.len() {
            assert(t[i - 1] == s[i]);
        }
        lemma_trim_start_skip(t, i - 1);
        assert(t.skip(i - 1) == s.skip(i));
    }
}

proof fn lemma_trim_end_take(s: Seq<char>, j: int)
    requires
        0 <= j <= s.len(),
        forall|k: int| j <= k < s.len() ==> is_white_space(#[trigger] s[k]),
        j == 0 || !is_white_space(s[j - 1]),
    ensures
        trim_end(s) == s.take(j),
    decreases s.len() - j,
{
    if j == s.len() {
        assert(s.take(j) == s);
    } else {
        let t = s.drop_last();
        assert forall|k: int| j <= k < t.len() implies is_white_space(#[trigger] t[k]) by {
            assert(t[k] == s[k]);
        }
        if j > 0 {
            assert(t[j - 1] == s[j - 1]);
        }
        lemma_trim_end_take(t, j);
        assert(t.take(j) == s.take(j));
    }
}

/// The characters of `v` without leading and trailing white space.
pub fn trim_chars(v: &Vec<char>) -> (r: Vec<char>)
    ensures
        r@ == trim(v@),
{
    let n = v.len();
    let mut i: usize = 0;
    while i < n && white_space(v[i])
        invariant
            n == v@.len(),
            i <= n,
            forall|k: int| 0 <= k < i ==> is_white_space(#[trigger] v@[k]),
        decreases n - i,
    {
        i = i + 1;
    }
    proof {
        lemma_trim_start_skip(v@, i as int);
    }
    let ghost t = v@.skip(i as int);
    let mut j: usize = n;
    while j > i && white_space(v[j - 1])
        invariant
            n == v@.len(),
            i <= j <= n,
            forall|k: int| j <= k < n ==> is_white_space(#[trigger] v@[k]),
        decreases j,
    {
        j = j - 1;
    }
    proof {
        assert forall|k: int| j - i <= k < t.len() implies is_white_space(#[trigger] t[k]) by {
            assert(t[k] == v@[k + i]);
        }
        if j > i {
            assert(t[j - i - 1] == v@[j - 1]);
        }
        lemma_trim_end_take(t, j - i);
    }
    let mut r: Vec<char> = Vec::new();
    let mut k: usize = i;
    while k < j
        invariant
            n == v@.len(),
            i <= k <= j <= n,
            r@ == v@.subrange(i as int, k as int),
        decreases j - k,
    {
        r.push(v[k]);
        k = k + 1;
        assert(r@ == v@.subrange(i as int, k as int));
    }
    assert(r@ == t.take(j - i));
    r
}

/// Rust's `str::split` by one character: the pieces between the separators,
/// including empty ones.
pub open spec fn split_on(s: Seq<char>, sep: char) -> Seq<Seq<char>>
    decreases s.len(),
{
    if s.len() == 0 {
        seq![Seq::<char>::empty()]
    } else {
        let rest = split_on(s.drop_last(), sep);
        if s.last() == sep {
            rest.push(Seq::<char>::empty())
        } else {
            rest.update(rest.len() - 1, rest.last().push(s.last()))
        }
    }
}

pub proof fn lemma_split_on_nonempty(s: Seq<char>, sep: char)
    ensures
        split_on(s, sep).len() >= 1,
    decreases s.len(),
{
    if s.len() > 0 {
        lemma_split_on_nonempty(s.drop_last(), sep);
    }
}

/// The pieces of `parts` that are not empty, in order.
pub open spec fn nonempty_parts(parts: Seq<Seq<char>>) -> Seq<Seq<char>>
    decreases parts.len(),
{
    if parts.len() == 0 {
        parts
    } else if parts.last().len() == 0 {
        nonempty_parts(parts.drop_last())
    } else {
        nonempty_parts(parts.drop_last()).push(parts.last())
    }
}

/// The pieces of `parts` with `sep` between each two of them (`join`).
pub open spec fn join(parts: Seq<Seq<char>>, sep: Seq<char>) -> Seq<char>
    decreases parts.len(),
{
    if parts.len() == 0 {
        Seq::<char>::empty()
    } else if parts.len() == 1 {
        parts[0]
    } else {
        join(parts.drop_last(), sep) + sep + parts.last()
    }
}

/// Consecutive equal pieces merged into one (`Vec::dedup`).
pub open spec fn dedup(parts: Seq<Seq<char>>) -> Seq<Seq<char>>
    decreases parts.len(),
{
    if parts.len() == 0 {
        parts
    } else {
        let rest = dedup(parts.drop_last());
        if rest.len() > 0 && rest.last() == parts.last() {
            rest
        } else {
            rest.push(parts.last())
        }
    }
}

/// The words of `v` between the separator `sep`, empty words left out.
pub fn nonempty_words(v: &Vec<char>, sep: char) -> (r: Vec<String>)
    ensures
        r.deep_view() == nonempty_parts(split_on(v@, sep)),
{
    let mut r: Vec<String> = Vec::new();
    let mut word: Vec<char> = Vec::new();
    let mut i: usize = 0;
    while i < v.len()
        invariant
            i <= v@.len(),
            ({
                let parts = split_on(v@.take(i as int), sep);
                &&& parts.len() >= 1
                &&& parts.last() == word@
                &&& r.deep_view() == nonempty_parts(parts.drop_last())
            }),
        decreases v@.len() - i,
    {
        let ghost old_parts = split_on(v@.take(i as int), sep);
        let ghost old_r = r.deep_view();
        let c = v[i];
        assert(v@.take(i + 1).drop_last() == v@.take(i as int));
        assert(v@.take(i + 1).last() == c);
        if c == sep {
            assert(split_on(v@.take(i + 1), sep) == old_parts.push(Seq::<char>::empty()));
            if word.len() > 0 {
                let w = from_chars(word.as_slice());
                r.push(w);
                assert(r.deep_view() == old_r.push(word@));
            }
            word = Vec::new();
            assert(split_on(v@.take(i + 1), sep).drop_last() == old_parts);
        } else {
            word.push(c);
            assert(split_on(v@.take(i + 1), sep).drop_last() == old_parts.drop_last());
        }
        i = i + 1;
    }
    let ghost parts = split_on(v@.take(i as int), sep);
    assert(v@.take(i as int) == v@);
    if word.len() > 0 {
        let ghost old_r = r.deep_view();
        let w = from_chars(word.as_slice());
        r.push(w);
        assert(r.deep_view() == old_r.push(word@));
        assert(parts == parts.drop_last().push(parts.last()));
    } else {
        assert(parts == parts.drop_last().push(parts.last()));
    }
    r
}

/// The strings of `parts` joined with `sep` between each two of them.
pub fn join_strings(parts: &Vec<String>, sep: &str) -> (r: String)
    ensures
        r@ == join(parts.deep_view(), sep@),
{
    let n = parts.len();
    if n == 0 {
        return String::new();
    }
    let mut r = parts[0].clone();
    let mut i: usize = 1;
    assert(parts.deep_view().take(1) == seq![parts.deep_view()[0]]);
    while i < n
        invariant
            n == parts@.len(),
            1 <= i <= n,
            r@ == join(parts.deep_view().take(i as int), sep@),
        decreases n - i,
    {
        r.append(sep);
        r.append(parts[i].as_str());
        assert(parts.deep_view().take(i + 1).drop_last() == parts.deep_view().take(i as int));
        i = i + 1;
    }
    assert(parts.deep_view().take(n as int) == parts.deep_view());
    r
}

/// `parts` with consecutive equal strings merged into one (`Vec::dedup`).
pub fn dedup_strings(parts: Vec<String>) -> (r: Vec<String>)
    ensures
        r.deep_view() == dedup(parts.deep_view()),
{
    let n = parts.len();
    let mut r: Vec<String> = Vec::new();
    let mut i: usize = 0;
    while i < n
        invariant
            n == parts@.len(),
            i <= n,
            r.deep_view() == dedup(parts.deep_view().take(i as int)),
        decreases n - i,
    {
        assert(parts.deep_view().take(i + 1).drop_last() == parts.deep_view().take(i as int));
        let k = r.len();
        if k > 0 && r[k - 1] == parts[i] {
        } else {
            r.push(parts[i].clone());
        }
        i = i + 1;
    }
    assert(parts.deep_view().take(n as int) == parts.deep_view());
    r
}

/// The pieces of `v` between the separator `sep`, empty pieces included
/// (`str::split` by a character).
pub fn split_chars(v: &Vec<char>, sep: char) -> (r: Vec<String>)
    ensures
        r.deep_view() == split_on(v@, sep),
        r@.len() >= 1,
{
    let mut r: Vec<String> = Vec::new();
    let mut word: Vec<char> = Vec::new();
    let mut i: usize = 0;
    while i < v.len()
        invariant
            i <= v@.len(),
            ({
                let parts = split_on(v@.take(i as int), sep);
                &&& parts.len() >= 1
                &&& parts.last() == word@
                &&& r.deep_view() == parts.drop_last()
            }),
        decreases v@.len() - i,
    {
        let ghost old_parts = split_on(v@.take(i as int), sep);
        let ghost old_r = r.deep_view();
        let c = v[i];
        assert(v@.take(i + 1).drop_last() == v@.take(i as int));
        assert(v@.take(i + 1).last() == c);
        if c == sep {
            assert(split_on(v@.take(i + 1), sep) == old_parts.push(Seq::<char>::empty()));
            let w = from_chars(word.as_slice());
            r.push(w);
            assert(r.deep_view() == old_r.push(word@));
            assert(old_parts == old_parts.drop_last().push(old_parts.last()));
            word = Vec::new();
            assert(split_on(v@.take(i + 1), sep).drop_last() == old_parts);
        } else {
            word.push(c);
            assert(split_on(v@.take(i + 1), sep).drop_last() == old_parts.drop_last());
        }
        i = i + 1;
    }
    let ghost parts = split_on(v@.take(i as int), sep);
    assert(v@.take(i as int) == v@);
    let ghost old_r = r.deep_view();
    let w = from_chars(word.as_slice());
    r.push(w);
    assert(r.deep_view() == old_r.push(word@));
    assert(parts == parts.drop_last().push(parts.last()));
    r
}

/// Whether `s` is exactly the text `t`.
pub fn equals_text(s: &String, t: &str) -> (b: bool)
    ensures
        b == (s@ == t@),
{
    *s == t.to_string()
}

/// `needle` occurs in `hay` at position `i`.
pub open spec fn occurs_at(hay: Seq<char>, needle: Seq<char>, i: int) -> bool {
    0 <= i && i + needle.len() <= hay.len() && hay.subrange(i, i + needle.len()) == needle
}

/// `needle` occurs somewhere in `hay` (`str::contains`; the empty text
/// occurs everywhere).
pub open spec fn contains_text(hay: Seq<char>, needle: Seq<char>) -> bool {
    exists|i: int| #[trigger] occurs_at(hay, needle, i)
}

/// Whether `needle` occurs in `hay`.
pub fn contains(hay: &str, needle: &str) -> (b: bool)
    ensures
        b == contains_text(hay@, needle@),
{
    let h = chars_of(hay);
    let n = chars_of(needle);
    let hl = h.len();
    if n.len() > h.len() {
        assert forall|i: int| !#[trigger] occurs_at(hay@, needle@, i) by {}
        return false;
    }
    let last = h.len() - n.len();
    let mut i: usize = 0;
    while i <= last
        invariant
            h@ == hay@,
            n@ == needle@,
            n@.len() <= h@.len(),
            h@.len() <= usize::MAX,
            last == h@.len() - n@.len(),
            i <= last + 1,
            forall|k: int| 0 <= k < i ==> !#[trigger] occurs_at(hay@, needle@, k),
        decreases last + 1 - i,
    {
        let mut j: usize = 0;
        let mut same = true;
        while j < n.len()
            invariant
                h@ == hay@,
                n@ == needle@,
                i + n@.len() <= h@.len(),
                h@.len() <= usize::MAX,
                j <= n@.len(),
                same == (forall|k: int| 0 <= k < j ==> h@[i + k] == n@[k]),
            decreases n@.len() - j,
        {
            if h[i + j] != n[j] {
                same = false;
            }
            j = j + 1;
        }
        if same {
            assert(hay@.subrange(i as int, i + needle@.len()) =~= needle@);
            assert(occurs_at(hay@, needle@, i as int));
            return true;
        }
        assert(!occurs_at(hay@, needle@, i as int)) by {
            if occurs_at(hay@, needle@, i as int) {
                assert forall|k: int| 0 <= k < n@.len() implies h@[i + k] == n@[k] by {
                    assert(hay@.subrange(i as int, i + needle@.len())[k] == h@[i + k]);
                }
            }
        }
        i = i + 1;
    }
    assert forall|k: int| !#[trigger] occurs_at(hay@, needle@, k) by {
        if k > last {
        }
    }
    false
}

/// `s` with every occurrence of `pat` taken out, found left to right and
/// without overlap (`str::replace` with an empty replacement); an empty `pat`
/// leaves `s` as it is.
pub open spec fn without_text(s: Seq<char>, pat: Seq<char>) -> Seq<char>
    decreases s.len(),
{
    if pat.len() == 0 || s.len() < pat.len() {
        s
    } else if s.take(pat.len() as int) == pat {
        without_text(s.skip(pat.len() as int), pat)
    } else {
        seq![s[0]] + without_text(s.skip(1), pat)
    }
}

/// Whether `p` occurs in `h` at position `i`.
fn matches_at(h: &Vec<char>, p: &Vec<char>, i: usize) -> (b: bool)
    requires
        i <= h@.len(),
    ensures
        b == (p@.len() <= h@.len() - i && h@.subrange(i as int, i + p@.len()) == p@),
{
    if p.len() > h.len() - i {
        return false;
    }
    let hl = h.len();
    let mut j: usize = 0;
    while j < p.len()
        invariant
            i + p@.len() <= h@.len(),
            hl == h@.len(),
            j <= p@.len(),
            forall|q: int| 0 <= q < j ==> h@[i + q] == p@[q],
        decreases p@.len() - j,
    {
        if h[i + j] != p[j] {
            assert(h@.subrange(i as int, i + p@.len())[j as int] != p@[j as int]);
            return false;
        }
        j = j + 1;
    }
    assert(h@.subrange(i as int, i + p@.len()) =~= p@);
    true
}

/// `s` without the occurrences of `pat` (`s.replace(pat, "")`).
pub fn remove_text(s: &str, pat: &str) -> (r: String)
    ensures
        r@ == without_text(s@, pat@),
{
    let h = chars_of(s);
    let p = chars_of(pat);
    if p.len() == 0 {
        return from_chars(h.as_slice());
    }
    let mut r = String::new();
    let mut i: usize = 0;
    assert(s@.skip(0) == s@);
    while i < h.len()
        invariant
            h@ == s@,
            p@ == pat@,
            p@.len() > 0,
            i <= h@.len(),
            r@ + without_text(s@.skip(i as int), pat@) == without_text(s@, pat@),
        decreases h@.len() - i,
    {
        let ghost rest = s@.skip(i as int);
        if matches_at(&h, &p, i) {
            assert(rest.take(pat@.len() as int) == pat@) by {
                assert(rest.take(pat@.len() as int) =~= s@.subrange(i as int, i + pat@.len()));
            }
            assert(rest.skip(pat@.len() as int) == s@.skip(i + pat@.len()));
            i = i + p.len();
        } else {
            let c = h[i];
            assert(rest.skip(1) == s@.skip(i + 1));
            if h.len() - i >= p.len() {
                assert(rest.take(pat@.len() as int) != pat@) by {
                    assert(rest.take(pat@.len() as int) =~= s@.subrange(i as int, i + pat@.len()));
                }
                assert(without_text(rest, pat@) == seq![c] + without_text(s@.skip(i + 1), pat@));
            } else {
                assert(without_text(s@.skip(i + 1), pat@) == s@.skip(i + 1));
                assert(rest =~= seq![c] + s@.skip(i + 1));
            }
            let ghost old_r = r@;
            push_char(&mut r, c);
            assert(r@ + without_text(s@.skip(i + 1), pat@) =~= old_r + (seq![c] + without_text(
                s@.skip(i + 1),
                pat@,
            )));
            i = i + 1;
        }
    }
    assert(without_text(s@.skip(i as int), pat@) == Seq::<char>::empty()) by {
        assert(s@.skip(i as int) =~= Seq::<char>::empty());
    }
    assert(r@ + Seq::<char>::empty() =~= r@);
    r
}

/// `s` in lower case, as std's `str::to_lowercase` writes it.
pub uninterp spec fn lowercase(s: Seq<char>) -> Seq<char>;

/// Calls std's `str::to_lowercase` (Unicode lower case, with Greek final
/// sigma). The result is named, not spelled out.
#[verifier::external_body]
pub(crate) fn to_lowercase(s: &str) -> (r: String)
    ensures
        r@ == lowercase(s@),
{
    s.to_lowercase()
}

} // verus!
