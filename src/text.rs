use vstd::prelude::*;

verus! {

/// What `str::to_lowercase` returns for a text: it depends on the characters alone.
pub uninterp spec fn lower_of(s: Seq<char>) -> Seq<char>;

/// `t` occurs in `s` as a contiguous run of characters.
pub open spec fn has_substring(s: Seq<char>, t: Seq<char>) -> bool {
    exists|i: int| 0 <= i <= s.len() - t.len() && #[trigger] s.subrange(i, i + t.len()) == t
}

/// The texts of `parts`, with `sep` between each two neighbours.
pub open spec fn joined(parts: Seq<Seq<char>>, sep: Seq<char>) -> Seq<char>
    decreases parts.len(),
{
    if parts.len() == 0 {
        Seq::empty()
    } else if parts.len() == 1 {
        parts[0]
    } else {
        joined(parts.drop_last(), sep) + sep + parts.last()
    }
}

/// Relies on `str::to_lowercase`: the lower-case form of a text.
#[verifier::external_body]
pub(crate) fn lowercase(s: &str) -> (r: String)
    ensures
        r@ == lower_of(s@),
{
    s.to_lowercase()
}

/// The characters of a text, in order.
fn chars_of(s: &str) -> (r: Vec<char>)
    ensures
        r@ == s@,
{
    let n = s.unicode_len();
    let mut r: Vec<char> = Vec::new();
    let mut i: usize = 0;
    while i < n
        invariant
            n == s@.len(),
            i <= n,
            r@ == s@.take(i as int),
        decreases n - i,
    {
        r.push(s.get_char(i));
        i = i + 1;
        assert(r@ =~= s@.take(i as int));
    }
    assert(r@ =~= s@);
    r
}

/// Whether `t` occurs in `s` as a contiguous run of characters.
pub fn contains(s: &str, t: &str) -> (r: bool)
    ensures
        r == has_substring(s@, t@),
{
    let hay = chars_of(s);
    let needle = chars_of(t);
    let n = hay.len();
    let m = needle.len();
    if m > n {
        return false;
    }
    let mut i: usize = 0;
    while i <= n - m
        invariant
            hay@ == s@,
            needle@ == t@,
            n == hay.len(),
            m == needle.len(),
            m <= n,
            i <= n - m + 1,
            forall|k: int| 0 <= k < i ==> #[trigger] s@.subrange(k, k + m) != t@,
        decreases n - m + 1 - i,
    {
        let mut j: usize = 0;
        while j < m && hay[i + j] == needle[j]
            invariant
                hay@ == s@,
                needle@ == t@,
                n == hay.len(),
                m == needle.len(),
                i + m <= n,
                j <= m,
                forall|l: int| 0 <= l < j ==> hay@[i + l] == needle@[l],
            decreases m - j,
        {
            j = j + 1;
        }
        if j == m {
            assert(s@.subrange(i as int, i + m) =~= t@);
            return true;
        }
        assert(s@.subrange(i as int, i + m)[j as int] != t@[j as int]);
        i = i + 1;
    }
    false
}

/// Joins the texts of `parts`, putting `sep` between each two neighbours.
pub fn join_with(parts: &Vec<String>, sep: &str) -> (r: String)
    ensures
        r@ == joined(parts.deep_view(), sep@),
{
    let mut r = String::new();
    let mut i: usize = 0;
    while i < parts.len()
        invariant
            i <= parts.len(),
            r@ == joined(parts.deep_view().take(i as int), sep@),
        decreases parts.len() - i,
    {
        let ghost pre = parts.deep_view().take(i as int);
        let ghost next = parts.deep_view().take(i as int + 1);
        assert(next.drop_last() =~= pre);
        if i > 0 {
            r.append(sep);
        }
        r.append(parts[i].as_str());
        i = i + 1;
        proof {
            if i == 1 {
                assert(pre =~= Seq::<Seq<char>>::empty());
            }
        }
    }
    assert(parts.deep_view().take(parts.len() as int) =~= parts.deep_view());
    r
}

} // verus!
