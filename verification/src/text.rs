//! Character-level text operations the authentication path needs: splitting
//! on a delimiter, trimming trailing delimiter characters, and substring
//! search.  Each is proved against a direct mathematical statement over the
//! string's character sequence.

use vstd::prelude::*;

verus! {

/// The pieces of `s` between occurrences of the delimiter `d`, in order.
/// Splitting never yields an empty list: a string without the delimiter is
/// one piece, and each delimiter adds one piece.
pub open spec fn split_chars(s: Seq<char>, d: char) -> Seq<Seq<char>>
    decreases s.len(),
{
    if s.len() == 0 {
        seq![Seq::<char>::empty()]
    } else if s[0] == d {
        seq![Seq::<char>::empty()] + split_chars(s.drop_first(), d)
    } else {
        let rest = split_chars(s.drop_first(), d);
        seq![seq![s[0]] + rest[0]] + rest.drop_first()
    }
}

/// `s` with every trailing occurrence of `c` removed.
pub open spec fn trim_end_chars(s: Seq<char>, c: char) -> Seq<char>
    decreases s.len(),
{
    if s.len() == 0 {
        s
    } else if s.last() == c {
        trim_end_chars(s.drop_last(), c)
    } else {
        s
    }
}

/// Whether `n` occurs as a contiguous subsequence of `h`.
pub open spec fn contains_chars(h: Seq<char>, n: Seq<char>) -> bool {
    exists|i: int| 0 <= i && i + n.len() <= h.len() && #[trigger] h.subrange(i, i + n.len()) == n
}

/// Splitting always yields at least one piece.
pub proof fn lemma_split_chars_nonempty(s: Seq<char>, d: char)
    ensures
        split_chars(s, d).len() >= 1,
    decreases s.len(),
{
    if s.len() != 0 {
        lemma_split_chars_nonempty(s.drop_first(), d);
    }
}

/// The pieces of `s` between occurrences of `d`, as owned strings.
pub fn split_str(s: &str, d: char) -> (r: Vec<String>)
    ensures
        r@.map_values(|p: String| p@) == split_chars(s@, d),
{
    let n = s.unicode_len();
    let mut pieces: Vec<String> = Vec::new();
    let mut start: usize = 0;
    let mut i: usize = 0;
    proof {
        assert(s@.skip(0) =~= s@);
        lemma_split_chars_nonempty(s@, d);
        assert(s@.subrange(0, 0) =~= Seq::<char>::empty());
        assert(split_chars(s@, d) =~= seq![split_chars(s@, d)[0]] + split_chars(
            s@,
            d,
        ).drop_first());
        assert(Seq::<char>::empty() + split_chars(s@, d)[0] =~= split_chars(s@, d)[0]);
    }
    while i < n
        invariant
            start <= i <= n,
            n == s@.len(),
            split_chars(s@, d) =~= pieces@.map_values(|p: String| p@) + seq![
                s@.subrange(start as int, i as int) + split_chars(s@.skip(i as int), d)[0],
            ] + split_chars(s@.skip(i as int), d).drop_first(),
        decreases n - i,
    {
        proof {
            lemma_split_chars_nonempty(s@.skip(i as int), d);
            lemma_split_chars_nonempty(s@.skip(i + 1), d);
            assert(s@.skip(i as int).drop_first() =~= s@.skip(i + 1));
            assert(s@.skip(i as int)[0] == s@[i as int]);
        }
        let c = s.get_char(i);
        if c == d {
            let ghost prev = pieces@;
            let piece = s.substring_char(start, i).to_owned();
            pieces.push(piece);
            proof {
                let rest0 = split_chars(s@.skip(i as int), d);
                let rest1 = split_chars(s@.skip(i + 1), d);
                assert(rest0 =~= seq![Seq::<char>::empty()] + rest1);
                assert(rest0[0] =~= Seq::<char>::empty());
                assert(rest0.drop_first() =~= rest1);
                assert(rest1 =~= seq![rest1[0]] + rest1.drop_first());
                assert(pieces@ =~= prev.push(piece));
                assert(pieces@.map_values(|p: String| p@) =~= prev.map_values(|p: String| p@)
                    + seq![s@.subrange(start as int, i as int)]);
                assert(s@.subrange(start as int, i as int) + rest0[0] =~= s@.subrange(
                    start as int,
                    i as int,
                ));
                assert(s@.subrange(i + 1, i + 1) =~= Seq::<char>::empty());
                assert(s@.subrange(i + 1, i + 1) + rest1[0] =~= rest1[0]);
                assert(split_chars(s@, d) =~= pieces@.map_values(|p: String| p@) + seq![
                    s@.subrange(i + 1, i + 1) + rest1[0],
                ] + rest1.drop_first());
            }
            start = i + 1;
        } else {
            proof {
                let rest1 = split_chars(s@.skip(i + 1), d);
                assert(s@.subrange(start as int, i + 1) =~= s@.subrange(start as int, i as int)
                    + seq![s@[i as int]]);
                assert(s@.subrange(start as int, i as int) + (seq![s@[i as int]] + rest1[0])
                    =~= s@.subrange(start as int, i + 1) + rest1[0]);
            }
        }
        i = i + 1;
    }
    proof {
        assert(s@.skip(n as int) =~= Seq::<char>::empty());
    }
    let ghost prev = pieces@;
    let last = s.substring_char(start, n).to_owned();
    pieces.push(last);
    proof {
        assert(pieces@ =~= prev.push(last));
        assert(pieces@.map_values(|p: String| p@) =~= prev.map_values(|p: String| p@) + seq![
            s@.subrange(start as int, n as int),
        ]);
        assert(s@.subrange(start as int, n as int) + Seq::<char>::empty() =~= s@.subrange(
            start as int,
            n as int,
        ));
        assert(split_chars(s@, d) =~= pieces@.map_values(|p: String| p@));
    }
    pieces
}

/// `s` with every trailing occurrence of `c` removed.
pub fn trim_end_str(s: &str, c: char) -> (r: String)
    ensures
        r@ == trim_end_chars(s@, c),
{
    let n = s.unicode_len();
    let mut end: usize = n;
    proof {
        assert(s@.take(n as int) =~= s@);
    }
    while end > 0 && s.get_char(end - 1) == c
        invariant
            end <= n,
            n == s@.len(),
            trim_end_chars(s@, c) == trim_end_chars(s@.take(end as int), c),
        decreases end,
    {
        proof {
            assert(s@.take(end as int).drop_last() =~= s@.take(end - 1));
            assert(s@.take(end as int).last() == s@[end - 1]);
        }
        end = end - 1;
    }
    proof {
        if end > 0 {
            assert(s@.take(end as int).last() != c);
        }
        assert(trim_end_chars(s@.take(end as int), c) == s@.take(end as int));
    }
    s.substring_char(0, end).to_owned()
}

/// Whether the characters of `hay` starting at `i` spell out `needle`.
fn matches_at(hay: &str, i: usize, needle: &str) -> (r: bool)
    requires
        i + needle@.len() <= hay@.len(),
    ensures
        r == (hay@.subrange(i as int, i + needle@.len()) == needle@),
{
    let hn = hay.unicode_len();
    let nn = needle.unicode_len();
    let mut j: usize = 0;
    while j < nn
        invariant
            j <= nn,
            nn == needle@.len(),
            hn == hay@.len(),
            i + nn <= hn,
            forall|k: int| 0 <= k < j ==> hay@[i + k] == needle@[k],
        decreases nn - j,
    {
        if hay.get_char(i + j) != needle.get_char(j) {
            proof {
                assert(hay@.subrange(i as int, i + needle@.len())[j as int] != needle@[j as int]);
            }
            return false;
        }
        j = j + 1;
    }
    proof {
        assert(hay@.subrange(i as int, i + needle@.len()) =~= needle@);
    }
    true
}

/// Whether `needle` occurs as a contiguous run of characters in `hay`.
pub fn contains_str(hay: &str, needle: &str) -> (r: bool)
    ensures
        r == contains_chars(hay@, needle@),
{
    let hn = hay.unicode_len();
    let nn = needle.unicode_len();
    if nn > hn {
        proof {
            assert(forall|i: int|
                !(0 <= i && i + needle@.len() <= hay@.len() && #[trigger] hay@.subrange(
                    i,
                    i + needle@.len(),
                ) == needle@));
        }
        return false;
    }
    let limit = hn - nn;
    let mut i: usize = 0;
    while i < limit
        invariant
            nn <= hn,
            hn == hay@.len(),
            nn == needle@.len(),
            limit == hn - nn,
            i <= limit,
            forall|k: int|
                0 <= k < i ==> #[trigger] hay@.subrange(k, k + needle@.len()) != needle@,
        decreases limit - i,
    {
        if matches_at(hay, i, needle) {
            proof {
                assert(0 <= i as int && i as int + needle@.len() <= hay@.len() && hay@.subrange(
                    i as int,
                    i as int + needle@.len(),
                ) == needle@);
            }
            return true;
        }
        i = i + 1;
    }
    if matches_at(hay, limit, needle) {
        proof {
            assert(0 <= limit as int && limit as int + needle@.len() <= hay@.len()
                && hay@.subrange(limit as int, limit as int + needle@.len()) == needle@);
        }
        return true;
    }
    proof {
        assert(forall|k: int|
            0 <= k && k + needle@.len() <= hay@.len() ==> #[trigger] hay@.subrange(
                k,
                k + needle@.len(),
            ) != needle@);
    }
    false
}

} // verus!
