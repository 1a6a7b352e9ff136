use vstd::prelude::*;
use vstd::utf8::encode_utf8;

verus! {

/// The number of bytes of `s` in UTF-8.
pub open spec fn utf8_len(s: Seq<char>) -> nat {
    encode_utf8(s).len()
}

/// Whether two texts hold the same characters.
pub fn same_text(a: &str, b: &str) -> (r: bool)
    ensures
        r == (a@ == b@),
{
    String::from_str(a) == String::from_str(b)
}

pub open spec fn strings_view(v: Seq<String>) -> Seq<Seq<char>> {
    v.map_values(|s: String| s@)
}

/// The parts joined by `sep`, which stands only between two parts.
pub open spec fn join_with(parts: Seq<Seq<char>>, sep: Seq<char>) -> Seq<char>
    decreases parts.len(),
{
    if parts.len() == 0 {
        Seq::empty()
    } else if parts.len() == 1 {
        parts[0]
    } else {
        join_with(parts.drop_last(), sep) + sep + parts.last()
    }
}

/// Joins `parts[lo..hi]` with `sep` between two parts.
pub fn join_range(parts: &Vec<String>, lo: usize, hi: usize, sep: &str) -> (r: String)
    requires
        lo <= hi <= parts@.len(),
    ensures
        r@ == join_with(strings_view(parts@).subrange(lo as int, hi as int), sep@),
{
    let ghost words = strings_view(parts@);
    if lo == hi {
        return String::new();
    }
    let mut out = parts[lo].clone();
    let mut i: usize = lo + 1;
    assert(words.subrange(lo as int, lo + 1).drop_last() =~= Seq::<Seq<char>>::empty());
    while i < hi
        invariant
            lo < i <= hi <= parts@.len(),
            words == strings_view(parts@),
            out@ == join_with(words.subrange(lo as int, i as int), sep@),
        decreases hi - i,
    {
        assert(words.subrange(lo as int, i + 1).drop_last() =~= words.subrange(lo as int, i as int));
        out.append(sep);
        out.append(parts[i].as_str());
        i = i + 1;
    }
    out
}

/// `needle` occurs in `haystack` as a run of consecutive characters.
pub open spec fn occurs_in(needle: Seq<char>, haystack: Seq<char>) -> bool {
    exists|i: int|
        0 <= i && i + needle.len() <= haystack.len() && #[trigger] haystack.subrange(
            i,
            i + needle.len(),
        ) == needle
}

fn chars_of(s: &str) -> (r: Vec<char>)
    ensures
        r@ == s@,
{
    let n = s.unicode_len();
    let mut out: Vec<char> = Vec::new();
    let mut i: usize = 0;
    while i < n
        invariant
            n == s@.len(),
            0 <= i <= n,
            out@ == s@.subrange(0, i as int),
        decreases n - i,
    {
        out.push(s.get_char(i));
        i = i + 1;
        assert(out@ =~= s@.subrange(0, i as int));
    }
    assert(out@ =~= s@);
    out
}

/// Whether `needle` occurs in `haystack`.
pub fn str_contains(haystack: &str, needle: &str) -> (r: bool)
    ensures
        r == occurs_in(needle@, haystack@),
{
    let h = chars_of(haystack);
    let w = chars_of(needle);
    let n = h.len();
    let m = w.len();
    if m > n {
        assert forall|i: int|
            0 <= i && i + m <= n implies #[trigger] h@.subrange(i, i + m) != w@ by {}
        return false;
    }
    let mut i: usize = 0;
    while i <= n - m
        invariant
            h@ == haystack@,
            w@ == needle@,
            n == h@.len(),
            m == w@.len(),
            m <= n,
            0 <= i <= n - m + 1,
            forall|k: int| 0 <= k < i ==> #[trigger] h@.subrange(k, k + m) != w@,
        decreases n - m + 1 - i,
    {
        let mut j: usize = 0;
        while j < m && h[i + j] == w[j]
            invariant
                n == h@.len(),
                m == w@.len(),
                i + m <= n,
                0 <= j <= m,
                forall|t: int| 0 <= t < j ==> h@[i + t] == w@[t],
            decreases m - j,
        {
            j = j + 1;
        }
        if j == m {
            assert(h@.subrange(i as int, i + m) =~= w@);
            return true;
        }
        assert(h@.subrange(i as int, i + m)[j as int] != w@[j as int]);
        i = i + 1;
    }
    false
}

} // verus!
