use vstd::prelude::*;

verus! {

/// Index of the first occurrence of `d` in `s`, or `s.len()` when `d`
/// does not occur.
pub open spec fn find_first(s: Seq<char>, d: char) -> int
    decreases s.len(),
{
    if s.len() == 0 {
        0
    } else if s[0] == d {
        0
    } else {
        1 + find_first(s.skip(1), d)
    }
}

pub proof fn lemma_find_first(s: Seq<char>, d: char)
    ensures
        0 <= find_first(s, d) <= s.len(),
        find_first(s, d) < s.len() ==> s[find_first(s, d)] == d,
        forall|j: int| 0 <= j < find_first(s, d) ==> s[j] != d,
    decreases s.len(),
{
    if s.len() > 0 && s[0] != d {
        lemma_find_first(s.skip(1), d);
        assert forall|j: int| 0 <= j < find_first(s, d) implies s[j] != d by {
            if j > 0 {
                assert(s.skip(1)[j - 1] == s[j]);
            }
        }
    }
}

/// `find_first` returns the position of a known first occurrence.
pub proof fn lemma_find_first_is(s: Seq<char>, d: char, k: int)
    requires
        0 <= k <= s.len(),
        forall|j: int| 0 <= j < k ==> s[j] != d,
        k < s.len() ==> s[k] == d,
    ensures
        find_first(s, d) == if k < s.len() {
            k
        } else {
            s.len() as int
        },
    decreases k,
{
    if s.len() > 0 && s[0] != d {
        let t = s.skip(1);
        assert forall|j: int| 0 <= j < k - 1 implies t[j] != d by {
            assert(t[j] == s[j + 1]);
        }
        assert(k - 1 < t.len() ==> t[k - 1] == d);
        lemma_find_first_is(t, d, k - 1);
    }
}

/// The pieces of `s` between occurrences of the delimiter `d`: one more
/// piece than there are occurrences, each piece free of `d`.
pub open spec fn split_on(s: Seq<char>, d: char) -> Seq<Seq<char>>
    decreases s.len(),
{
    let k = find_first(s, d);
    if 0 <= k < s.len() {
        seq![s.take(k)] + split_on(s.skip(k + 1), d)
    } else {
        seq![s]
    }
}

/// Everything before the first line break.
pub open spec fn first_line(s: Seq<char>) -> Seq<char> {
    split_on(s, '\n')[0]
}

pub proof fn lemma_split_on_found(s: Seq<char>, d: char, k: int)
    requires
        0 <= k < s.len(),
        s[k] == d,
        forall|j: int| 0 <= j < k ==> s[j] != d,
    ensures
        split_on(s, d) == seq![s.take(k)] + split_on(s.skip(k + 1), d),
{
    lemma_find_first_is(s, d, k);
}

pub proof fn lemma_split_on_none(s: Seq<char>, d: char)
    requires
        forall|j: int| 0 <= j < s.len() ==> s[j] != d,
    ensures
        split_on(s, d) == seq![s],
{
    lemma_find_first_is(s, d, s.len() as int);
    lemma_find_first(s, d);
    if find_first(s, d) < s.len() {
        assert(false);
    }
}

/// Splits a string at every occurrence of `d`. The result holds one
/// piece more than there are occurrences of `d`, in order.
pub fn split_char(s: &str, d: char) -> (r: Vec<String>)
    ensures
        r.deep_view() == split_on(s@, d),
        r@.len() >= 1,
{
    let n = s.unicode_len();
    let mut r: Vec<String> = Vec::new();
    let mut start: usize = 0;
    let mut i: usize = 0;
    proof {
        assert(r.deep_view() =~= Seq::<Seq<char>>::empty());
        assert(s@.skip(0) =~= s@);
        assert(r.deep_view() + split_on(s@.skip(0), d) =~= split_on(s@, d));
    }
    while i < n
        invariant
            start <= i <= n,
            n == s@.len(),
            split_on(s@, d) == r.deep_view() + split_on(s@.skip(start as int), d),
            forall|j: int| start <= j < i ==> s@[j] != d,
        decreases n - i,
    {
        if s.get_char(i) == d {
            let ghost old_dv = r.deep_view();
            let piece = String::from_str(s.substring_char(start, i));
            r.push(piece);
            proof {
                let tail = s@.skip(start as int);
                let k = i - start;
                assert forall|j: int| 0 <= j < k implies tail[j] != d by {
                    assert(tail[j] == s@[start + j]);
                }
                assert(tail[k] == s@[i as int]);
                lemma_split_on_found(tail, d, k);
                assert(tail.take(k) =~= s@.subrange(start as int, i as int));
                assert(tail.skip(k + 1) =~= s@.skip(i + 1));
                assert(r.deep_view() =~= old_dv.push(s@.subrange(start as int, i as int)));
                assert(old_dv + (seq![tail.take(k)] + split_on(tail.skip(k + 1), d))
                    =~= r.deep_view() + split_on(s@.skip(i + 1), d));
            }
            start = i + 1;
        }
        i += 1;
    }
    let ghost old_dv = r.deep_view();
    let piece = String::from_str(s.substring_char(start, n));
    r.push(piece);
    proof {
        let tail = s@.skip(start as int);
        assert forall|j: int| 0 <= j < tail.len() implies tail[j] != d by {
            assert(tail[j] == s@[start + j]);
        }
        lemma_split_on_none(tail, d);
        assert(tail =~= s@.subrange(start as int, n as int));
        assert(r.deep_view() =~= old_dv.push(tail));
        assert(old_dv + seq![tail] =~= r.deep_view());
    }
    r
}

/// True when `needle` occurs contiguously somewhere in `hay`.
pub open spec fn contains_seq(hay: Seq<char>, needle: Seq<char>) -> bool {
    exists|k: int|
        0 <= k <= hay.len() - needle.len() && #[trigger] hay.subrange(k, k + needle.len())
            == needle
}

/// Substring search: true when `needle` occurs in `hay`.
pub fn contains_str(hay: &str, needle: &str) -> (r: bool)
    ensures
        r == contains_seq(hay@, needle@),
{
    let hn = hay.unicode_len();
    let nn = needle.unicode_len();
    if nn > hn {
        return false;
    }
    if nn == 0 {
        proof {
            assert(hay@.subrange(0, 0 + needle@.len() as int) =~= needle@);
        }
        return true;
    }
    let mut k: usize = 0;
    while k <= hn - nn
        invariant
            1 <= nn <= hn,
            hn == hay@.len(),
            nn == needle@.len(),
            k <= hn - nn + 1,
            forall|kk: int| 0 <= kk < k ==> #[trigger] hay@.subrange(kk, kk + nn) != needle@,
        decreases hn - nn + 1 - k,
    {
        let mut j: usize = 0;
        let mut matched = true;
        while j < nn
            invariant
                nn <= hn,
                hn == hay@.len(),
                nn == needle@.len(),
                k <= hn - nn,
                j <= nn,
                matched ==> forall|jj: int| 0 <= jj < j ==> hay@[k + jj] == #[trigger] needle@[jj],
                !matched ==> hay@.subrange(k as int, k + nn) != needle@,
            decreases nn - j,
        {
            if hay.get_char(k + j) != needle.get_char(j) {
                proof {
                    assert(hay@.subrange(k as int, k + nn)[j as int] == hay@[k + j]);
                }
                matched = false;
                j = nn;
            } else {
                j += 1;
            }
        }
        if matched {
            proof {
                assert(hay@.subrange(k as int, k + nn) =~= needle@);
            }
            return true;
        }
        k += 1;
    }
    proof {
        if contains_seq(hay@, needle@) {
            let kk = choose|kk: int|
                0 <= kk <= hay@.len() - needle@.len() && #[trigger] hay@.subrange(
                    kk,
                    kk + needle@.len(),
                ) == needle@;
            assert(hay@.subrange(kk, kk + nn) != needle@);
        }
    }
    false
}

/// `s` with every space removed.
pub open spec fn without_spaces(s: Seq<char>) -> Seq<char>
    decreases s.len(),
{
    if s.len() == 0 {
        Seq::empty()
    } else if s.last() == ' ' {
        without_spaces(s.drop_last())
    } else {
        without_spaces(s.drop_last()).push(s.last())
    }
}

/// Removes every space from a string.
pub fn remove_spaces(s: &str) -> (r: String)
    ensures
        r@ == without_spaces(s@),
{
    let n = s.unicode_len();
    let mut r = String::new();
    let mut i: usize = 0;
    proof {
        assert(s@.subrange(0, 0) =~= Seq::<char>::empty());
    }
    while i < n
        invariant
            i <= n,
            n == s@.len(),
            r@ == without_spaces(s@.subrange(0, i as int)),
        decreases n - i,
    {
        let c = s.get_char(i);
        proof {
            assert(s@.subrange(0, i + 1).drop_last() =~= s@.subrange(0, i as int));
            assert(s@.subrange(0, i + 1).last() == s@[i as int]);
        }
        if c != ' ' {
            let piece = s.substring_char(i, i + 1);
            r.append(piece);
            proof {
                assert(piece@ =~= seq![s@[i as int]]);
                assert(r@ =~= without_spaces(s@.subrange(0, i + 1)));
            }
        }
        i += 1;
    }
    proof {
        assert(s@.subrange(0, n as int) =~= s@);
    }
    r
}

} // verus!
