use vstd::prelude::*;

use crate::conf::texts_of;
use crate::text::{contains_seq, lower_of, lowercase, str_contains};

verus! {

/// After reading the first `i` characters of a desktop entry's keyword list:
/// the keywords finished so far, and the keyword being read.
pub open spec fn keywords_upto(s: Seq<char>, i: int) -> (Seq<Seq<char>>, Seq<char>)
    decreases i,
{
    if i <= 0 {
        (Seq::empty(), Seq::empty())
    } else {
        let (done, cur) = keywords_upto(s, i - 1);
        if s[i - 1] == ';' {
            (if cur.len() > 0 { done.push(cur) } else { done }, Seq::empty())
        } else {
            (done, cur.push(s[i - 1]))
        }
    }
}

/// The keywords of a `;`-separated list: its non-empty pieces, in order.
pub open spec fn keyword_list(s: Seq<char>) -> Seq<Seq<char>> {
    let (done, cur) = keywords_upto(s, s.len() as int);
    if cur.len() > 0 {
        done.push(cur)
    } else {
        done
    }
}

/// Whether an application matches a query, all three already in lower case:
/// its name or one of its keywords holds the query.
pub open spec fn matches_query(name: Seq<char>, keywords: Seq<Seq<char>>, query: Seq<char>) -> bool {
    contains_seq(name, query) || exists|k: int| 0 <= k < keywords.len() && contains_seq(
        #[trigger] keywords[k],
        query,
    )
}

/// The keywords of a desktop entry's `;`-separated keyword list.
pub fn keywords_of(s: &str) -> (r: Vec<String>)
    ensures
        texts_of(r@) == keyword_list(s@),
{
    let n = s.unicode_len();
    let mut out: Vec<String> = Vec::new();
    let mut start: usize = 0;
    let mut i: usize = 0;
    while i < n
        invariant
            n == s@.len(),
            start <= i <= n,
            keywords_upto(s@, i as int) == (texts_of(out@), s@.subrange(start as int, i as int)),
        decreases n - i,
    {
        let c = s.get_char(i);
        let ghost cur = s@.subrange(start as int, i as int);
        if c == ';' {
            if start < i {
                let piece = String::from_str(s.substring_char(start, i));
                out.push(piece);
                assert(texts_of(out@) =~= keywords_upto(s@, i as int).0.push(cur));
            }
            start = i + 1;
            assert(s@.subrange(start as int, i + 1) =~= Seq::<char>::empty());
        } else {
            assert(s@.subrange(start as int, i + 1) =~= cur.push(c));
        }
        i = i + 1;
    }
    if start < n {
        let piece = String::from_str(s.substring_char(start, n));
        out.push(piece);
        assert(texts_of(out@) =~= keywords_upto(s@, n as int).0.push(
            s@.subrange(start as int, n as int),
        ));
    }
    out
}

/// Whether an application matches a query, all given in lower case (see
/// `matches_query`).
pub fn matches_lowered(name: &str, keywords: &Vec<String>, query: &str) -> (r: bool)
    ensures
        r == matches_query(name@, texts_of(keywords@), query@),
{
    if str_contains(name, query) {
        return true;
    }
    let mut k: usize = 0;
    while k < keywords.len()
        invariant
            k <= keywords@.len(),
            forall|j: int| 0 <= j < k ==> !contains_seq(#[trigger] texts_of(keywords@)[j], query@),
        decreases keywords.len() - k,
    {
        if str_contains(keywords[k].as_str(), query) {
            assert(texts_of(keywords@)[k as int] == keywords@[k as int]@);
            return true;
        }
        k = k + 1;
    }
    false
}

/// Whether an application is listed for the text typed in the search box:
/// its name, or one of the keywords of its desktop entry, holds the query,
/// all compared in lower case.
pub fn app_matches(name: &str, keywords: Option<&str>, query: &str) -> (r: bool)
    ensures
        r == matches_query(
            lower_of(name@),
            match keywords {
                Some(k) => keyword_list(k@).map_values(|w: Seq<char>| lower_of(w)),
                None => Seq::empty(),
            },
            lower_of(query@),
        ),
{
    let query_low = lowercase(query);
    let name_low = lowercase(name);
    let mut lowered: Vec<String> = Vec::new();
    let ghost words: Seq<Seq<char>> = Seq::empty();
    match keywords {
        Some(k) => {
            let words_exec = keywords_of(k);
            proof {
                words = keyword_list(k@);
            }
            let mut i: usize = 0;
            while i < words_exec.len()
                invariant
                    i <= words_exec@.len(),
                    texts_of(words_exec@) == words,
                    texts_of(lowered@) == words.take(i as int).map_values(|w: Seq<char>| lower_of(w)),
                decreases words_exec.len() - i,
            {
                let w = lowercase(words_exec[i].as_str());
                assert(texts_of(words_exec@)[i as int] == words_exec@[i as int]@);
                let ghost before = texts_of(lowered@);
                lowered.push(w);
                assert(texts_of(lowered@) =~= before.push(w@));
                assert(texts_of(lowered@) =~= words.take(i + 1).map_values(
                    |w: Seq<char>| lower_of(w),
                ));
                i = i + 1;
            }
            assert(words.take(i as int) =~= words);
        },
        None => {},
    }
    assert(texts_of(lowered@) =~= words.map_values(|w: Seq<char>| lower_of(w)));
    matches_lowered(name_low.as_str(), &lowered, query_low.as_str())
}

} // verus!
