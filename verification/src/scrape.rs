//! Parsing of feed listing pages: plain substring scanning over the page
//! text, row by row.

use vstd::prelude::*;
use crate::feed::{Feed, FeedV, Location};
use crate::text::{all_digits, dec_value, parse_u32, spec_trim_end, trim_end};

verus! {

/// Why a listing page could not be parsed.
#[derive(Debug, PartialEq, Eq, Structural)]
pub enum ScrapeError {
    /// The page held no feed rows at all.
    NoFeeds,
    /// The feed table was missing from the page.
    MissingFeedTable,
    /// A feed row named a location id the crate does not know.
    UnknownLocationID(u32),
}

/// Whether `pat` occurs in `s` starting at position `i`.
pub open spec fn match_at(s: Seq<char>, pat: Seq<char>, i: int) -> bool {
    &&& 0 <= i
    &&& i + pat.len() <= s.len()
    &&& s.subrange(i, i + pat.len()) == pat
}

/// The first position at or after `i` where `pat` occurs in `s`.
pub open spec fn first_match_from(s: Seq<char>, pat: Seq<char>, i: int) -> Option<int>
    decreases s.len() - i,
{
    if i < 0 || i + pat.len() > s.len() {
        None
    } else if pat.len() == 0 {
        Some(i)
    } else if match_at(s, pat, i) {
        Some(i)
    } else {
        first_match_from(s, pat, i + 1)
    }
}

/// A match found at or after `j` lies within the text.
pub proof fn lemma_first_match_from_bounds(s: Seq<char>, pat: Seq<char>, j: int)
    ensures
        match first_match_from(s, pat, j) {
            Some(m) => j <= m && 0 <= m && m + pat.len() <= s.len() && (pat.len() > 0
                ==> match_at(s, pat, m)),
            None => true,
        },
    decreases s.len() - j,
{
    if j < 0 || j + pat.len() > s.len() || pat.len() == 0 || match_at(s, pat, j) {
    } else {
        lemma_first_match_from_bounds(s, pat, j + 1);
    }
}

/// A found match lies within the text.
pub proof fn lemma_spec_find_bounds(s: Seq<char>, pat: Seq<char>)
    ensures
        match spec_find(s, pat) {
            Some(m) => 0 <= m && m + pat.len() <= s.len(),
            None => true,
        },
{
    lemma_first_match_from_bounds(s, pat, 0);
}

/// The first occurrence of `pat` in `s`.
pub open spec fn spec_find(s: Seq<char>, pat: Seq<char>) -> Option<int> {
    first_match_from(s, pat, 0)
}

/// The first occurrence of the character `c` in `s` at or after `i`.
pub open spec fn first_ch_from(s: Seq<char>, c: char, i: int) -> Option<int>
    decreases s.len() - i,
{
    if i < 0 || i >= s.len() {
        None
    } else if s[i] == c {
        Some(i)
    } else {
        first_ch_from(s, c, i + 1)
    }
}

/// The first occurrence of the character `c` in `s`.
pub open spec fn spec_find_ch(s: Seq<char>, c: char) -> Option<int> {
    first_ch_from(s, c, 0)
}

/// A found character lies within the text and is the character sought.
pub proof fn lemma_first_ch_bounds(s: Seq<char>, c: char, j: int)
    ensures
        match first_ch_from(s, c, j) {
            Some(m) => j <= m && 0 <= m && m < s.len() && s[m] == c,
            None => true,
        },
    decreases s.len() - j,
{
    if j < 0 || j >= s.len() || s[j] == c {
    } else {
        lemma_first_ch_bounds(s, c, j + 1);
    }
}

/// The last occurrence of the character `c` in `s`.
pub open spec fn spec_rfind_ch(s: Seq<char>, c: char) -> Option<int>
    decreases s.len(),
{
    if s.len() == 0 {
        None
    } else if s.last() == c {
        Some(s.len() - 1)
    } else {
        spec_rfind_ch(s.drop_last(), c)
    }
}

/// Finds the first occurrence of `pat` in `s`, by character position.
pub fn find_sub(s: &str, pat: &str) -> (r: Option<usize>)
    ensures
        (r is Some) == (spec_find(s@, pat@) is Some),
        r is Some ==> spec_find(s@, pat@) == Some(r->0 as int),
        r is Some ==> r->0 + pat@.len() <= s@.len(),
{
    let slen = s.unicode_len();
    let plen = pat.unicode_len();
    if plen > slen {
        return None;
    }
    if plen == 0 {
        return Some(0);
    }
    let mut i: usize = 0;
    while i <= slen - plen
        invariant
            0 < plen <= slen,
            slen == s@.len(),
            plen == pat@.len(),
            i <= slen - plen + 1,
            spec_find(s@, pat@) == first_match_from(s@, pat@, i as int),
        decreases slen - plen - i + 1,
    {
        let mut j: usize = 0;
        let mut matched = true;
        while j < plen && matched
            invariant
                plen <= slen,
                slen == s@.len(),
                plen == pat@.len(),
                i + plen <= slen,
                j <= plen,
                matched ==> forall|jj: int| 0 <= jj < j ==> s@[i + jj] == pat@[jj],
                !matched ==> !match_at(s@, pat@, i as int),
            decreases plen - j, (if matched { 1int } else { 0int }),
        {
            if s.get_char(i + j) != pat.get_char(j) {
                proof {
                    if match_at(s@, pat@, i as int) {
                        assert(s@.subrange(i as int, i + pat@.len())[j as int] == s@[i + j]);
                    }
                }
                matched = false;
            } else {
                j = j + 1;
            }
        }
        if matched {
            proof {
                assert(s@.subrange(i as int, i + pat@.len()) =~= pat@);
            }
            return Some(i);
        }
        i = i + 1;
    }
    proof {
        assert(first_match_from(s@, pat@, i as int) is None);
    }
    None
}

/// Finds the first occurrence of the character `c` in `s`.
pub fn find_ch(s: &str, c: char) -> (r: Option<usize>)
    ensures
        (r is Some) == (spec_find_ch(s@, c) is Some),
        r is Some ==> spec_find_ch(s@, c) == Some(r->0 as int),
        r is Some ==> r->0 < s@.len(),
{
    let slen = s.unicode_len();
    let mut i: usize = 0;
    while i < slen
        invariant
            slen == s@.len(),
            i <= slen,
            spec_find_ch(s@, c) == first_ch_from(s@, c, i as int),
        decreases slen - i,
    {
        if s.get_char(i) == c {
            return Some(i);
        }
        i = i + 1;
    }
    None
}

/// Finds the last occurrence of the character `c` in `s`.
pub fn rfind_ch(s: &str, c: char) -> (r: Option<usize>)
    ensures
        (r is Some) == (spec_rfind_ch(s@, c) is Some),
        r is Some ==> spec_rfind_ch(s@, c) == Some(r->0 as int),
        r is Some ==> r->0 < s@.len(),
{
    let mut k = s.unicode_len();
    proof {
        assert(s@.take(s@.len() as int) =~= s@);
    }
    while k > 0
        invariant
            k <= s@.len(),
            spec_rfind_ch(s@, c) == spec_rfind_ch(s@.take(k as int), c),
        decreases k,
    {
        proof {
            assert(s@.take(k as int).last() == s@[k - 1]);
            assert(s@.take(k as int).drop_last() =~= s@.take(k - 1));
        }
        if s.get_char(k - 1) == c {
            return Some(k - 1);
        }
        k = k - 1;
    }
    None
}

/// What remains of `s` after the first occurrence of `pat`, if one exists.
pub open spec fn spec_slice_from(s: Seq<char>, pat: Seq<char>) -> Option<Seq<char>> {
    match spec_find(s, pat) {
        Some(i) => Some(s.subrange(i + pat.len(), s.len() as int)),
        None => None,
    }
}

/// The part of `s` before the first occurrence of `pat`, if one exists.
pub open spec fn spec_slice_to(s: Seq<char>, pat: Seq<char>) -> Option<Seq<char>> {
    match spec_find(s, pat) {
        Some(i) => Some(s.take(i)),
        None => None,
    }
}

/// What remains of `s` after the first occurrence of the character `c`.
pub open spec fn spec_slice_from_ch(s: Seq<char>, c: char) -> Option<Seq<char>> {
    match spec_find_ch(s, c) {
        Some(i) => Some(s.subrange(i + 1, s.len() as int)),
        None => None,
    }
}

/// The part of `s` before the first occurrence of the character `c`.
pub open spec fn spec_slice_to_ch(s: Seq<char>, c: char) -> Option<Seq<char>> {
    match spec_find_ch(s, c) {
        Some(i) => Some(s.take(i)),
        None => None,
    }
}

/// What remains after the first occurrence of `start`.
pub fn slice_from<'a>(string: &'a str, start: &str) -> (r: Option<&'a str>)
    ensures
        (r is Some) == (spec_slice_from(string@, start@) is Some),
        r is Some ==> Some(r->0@) == spec_slice_from(string@, start@),
{
    let slen = string.unicode_len();
    let plen = start.unicode_len();
    match find_sub(string, start) {
        Some(pos) => Some(string.substring_char(pos + plen, slen)),
        None => None,
    }
}

/// What remains after the first occurrence of the character `start`.
pub fn slice_from_ch(string: &str, start: char) -> (r: Option<&str>)
    ensures
        (r is Some) == (spec_slice_from_ch(string@, start) is Some),
        r is Some ==> Some(r->0@) == spec_slice_from_ch(string@, start),
{
    let slen = string.unicode_len();
    match find_ch(string, start) {
        Some(pos) => Some(string.substring_char(pos + 1, slen)),
        None => None,
    }
}

/// The part before the first occurrence of `end`.
pub fn slice_to<'a>(string: &'a str, end: &str) -> (r: Option<&'a str>)
    ensures
        (r is Some) == (spec_slice_to(string@, end@) is Some),
        r is Some ==> Some(r->0@) == spec_slice_to(string@, end@),
{
    match find_sub(string, end) {
        Some(pos) => Some(string.substring_char(0, pos)),
        None => None,
    }
}

/// The part before the first occurrence of the character `end`.
pub fn slice_to_ch(string: &str, end: char) -> (r: Option<&str>)
    ensures
        (r is Some) == (spec_slice_to_ch(string@, end) is Some),
        r is Some ==> Some(r->0@) == spec_slice_to_ch(string@, end),
{
    match find_ch(string, end) {
        Some(pos) => Some(string.substring_char(0, pos)),
        None => None,
    }
}

/// The text of a tag: what lies between the tag's own closing `>` and the
/// first occurrence of `end`.
pub open spec fn spec_tag_body(s: Seq<char>, end: Seq<char>) -> Option<Seq<char>> {
    match spec_slice_from_ch(s, '>') {
        Some(body) => spec_slice_to(body, end),
        None => None,
    }
}

pub fn tag_body<'a>(string: &'a str, end: &str) -> (r: Option<&'a str>)
    ensures
        (r is Some) == (spec_tag_body(string@, end@) is Some),
        r is Some ==> Some(r->0@) == spec_tag_body(string@, end@),
{
    match slice_from_ch(string, '>') {
        Some(body) => slice_to(body, end),
        None => None,
    }
}

/// The text between the tag first matching `start` and the first occurrence
/// of `end` after it.
pub open spec fn spec_tag_body_find(s: Seq<char>, start: Seq<char>, end: Seq<char>) -> Option<
    Seq<char>,
> {
    match spec_slice_from(s, start) {
        Some(rest) => spec_tag_body(rest, end),
        None => None,
    }
}

pub fn tag_body_find<'a>(string: &'a str, start: &str, end: &str) -> (r: Option<&'a str>)
    ensures
        (r is Some) == (spec_tag_body_find(string@, start@, end@) is Some),
        r is Some ==> Some(r->0@) == spec_tag_body_find(string@, start@, end@),
{
    match slice_from(string, start) {
        Some(rest) => tag_body(rest, end),
        None => None,
    }
}

/// `s` split at every occurrence of `pat`, the separators removed.
pub open spec fn spec_split(s: Seq<char>, pat: Seq<char>) -> Seq<Seq<char>>
    decreases s.len(),
    via spec_split_decreases
{
    if pat.len() == 0 {
        seq![s]
    } else {
        match spec_find(s, pat) {
            None => seq![s],
            Some(i) => seq![s.take(i)] + spec_split(
                s.subrange(i + pat.len(), s.len() as int),
                pat,
            ),
        }
    }
}

#[via_fn]
proof fn spec_split_decreases(s: Seq<char>, pat: Seq<char>) {
    lemma_spec_find_bounds(s, pat);
}

/// `s` split at occurrences of `pat` into at most `n` parts; the last part
/// keeps the rest of the text unsplit.
pub open spec fn spec_splitn(s: Seq<char>, pat: Seq<char>, n: int) -> Seq<Seq<char>>
    decreases s.len(),
    via spec_splitn_decreases
{
    if pat.len() == 0 || n <= 1 {
        seq![s]
    } else {
        match spec_find(s, pat) {
            None => seq![s],
            Some(i) => seq![s.take(i)] + spec_splitn(
                s.subrange(i + pat.len(), s.len() as int),
                pat,
                n - 1,
            ),
        }
    }
}

#[via_fn]
proof fn spec_splitn_decreases(s: Seq<char>, pat: Seq<char>, n: int) {
    lemma_spec_find_bounds(s, pat);
}

/// Splits `s` at every occurrence of `pat`.
pub fn split_all<'a>(s: &'a str, pat: &str) -> (parts: Vec<&'a str>)
    requires
        pat@.len() > 0,
    ensures
        parts@.len() == spec_split(s@, pat@).len(),
        forall|k: int| 0 <= k < parts@.len() ==> (#[trigger] parts@[k])@ == spec_split(s@, pat@)[k],
{
    let mut parts: Vec<&'a str> = Vec::new();
    let mut rest: &'a str = s;
    let mut done = false;
    while !done
        invariant
            pat@.len() > 0,
            done ==> parts@.len() == spec_split(s@, pat@).len(),
            !done ==> spec_split(s@, pat@).len() == parts@.len() + spec_split(rest@, pat@).len(),
            !done ==> forall|k: int|
                0 <= k < spec_split(rest@, pat@).len() ==> spec_split(rest@, pat@)[k]
                    == spec_split(s@, pat@)[parts@.len() + k],
            forall|k: int|
                0 <= k < parts@.len() ==> (#[trigger] parts@[k])@ == spec_split(s@, pat@)[k],
        decreases rest@.len(), (if done { 0int } else { 1int }),
    {
        match find_sub(rest, pat) {
            Some(i) => {
                let ghost pre = rest@;
                let rlen = rest.unicode_len();
                let plen = pat.unicode_len();
                let part = rest.substring_char(0, i);
                let next = rest.substring_char(i + plen, rlen);
                proof {
                    assert(spec_split(pre, pat@) == seq![pre.take(i as int)] + spec_split(
                        next@,
                        pat@,
                    ));
                    assert(spec_split(pre, pat@)[0] == pre.take(i as int));
                    assert(spec_split(pre, pat@)[0] == spec_split(s@, pat@)[parts@.len() as int]);
                }
                parts.push(part);
                rest = next;
                proof {
                    assert forall|k: int|
                        0 <= k < spec_split(rest@, pat@).len() implies spec_split(rest@, pat@)[k]
                        == spec_split(s@, pat@)[parts@.len() + k] by {
                        assert((seq![pre.take(i as int)] + spec_split(rest@, pat@))[k + 1]
                            == spec_split(rest@, pat@)[k]);
                    }
                }
            },
            None => {
                proof {
                    assert(spec_split(rest@, pat@) =~= seq![rest@]);
                    assert(spec_split(rest@, pat@)[0] == rest@);
                    assert(spec_split(s@, pat@)[parts@.len() as int] == rest@);
                }
                parts.push(rest);
                done = true;
            },
        }
    }
    parts
}

/// Splits `s` at occurrences of `pat` into at most `n` parts.
pub fn split_n<'a>(s: &'a str, pat: &str, n: usize) -> (parts: Vec<&'a str>)
    requires
        pat@.len() > 0,
    ensures
        parts@.len() == spec_splitn(s@, pat@, n as int).len(),
        forall|k: int|
            0 <= k < parts@.len() ==> (#[trigger] parts@[k])@ == spec_splitn(s@, pat@, n as int)[k],
{
    let mut parts: Vec<&'a str> = Vec::new();
    let mut rest: &'a str = s;
    let mut left: usize = n;
    let mut done = false;
    while !done
        invariant
            pat@.len() > 0,
            done ==> parts@.len() == spec_splitn(s@, pat@, n as int).len(),
            !done ==> spec_splitn(s@, pat@, n as int).len() == parts@.len() + spec_splitn(
                rest@,
                pat@,
                left as int,
            ).len(),
            !done ==> forall|k: int|
                0 <= k < spec_splitn(rest@, pat@, left as int).len() ==> spec_splitn(
                    rest@,
                    pat@,
                    left as int,
                )[k] == spec_splitn(s@, pat@, n as int)[parts@.len() + k],
            forall|k: int|
                0 <= k < parts@.len() ==> (#[trigger] parts@[k])@ == spec_splitn(
                    s@,
                    pat@,
                    n as int,
                )[k],
        decreases rest@.len(), (if done { 0int } else { 1int }),
    {
        if left <= 1 {
            proof {
                assert(spec_splitn(rest@, pat@, left as int) =~= seq![rest@]);
                assert(spec_splitn(rest@, pat@, left as int)[0] == rest@);
                assert(spec_splitn(s@, pat@, n as int)[parts@.len() as int] == rest@);
            }
            parts.push(rest);
            done = true;
        } else {
            match find_sub(rest, pat) {
                Some(i) => {
                    let ghost pre = rest@;
                    let ghost pre_left = left as int;
                    let rlen = rest.unicode_len();
                    let plen = pat.unicode_len();
                    let part = rest.substring_char(0, i);
                    let next = rest.substring_char(i + plen, rlen);
                    proof {
                        assert(spec_splitn(pre, pat@, pre_left) == seq![pre.take(i as int)]
                            + spec_splitn(next@, pat@, pre_left - 1));
                        assert(spec_splitn(pre, pat@, pre_left)[0] == pre.take(i as int));
                        assert(spec_splitn(pre, pat@, pre_left)[0] == spec_splitn(
                            s@,
                            pat@,
                            n as int,
                        )[parts@.len() as int]);
                    }
                    parts.push(part);
                    rest = next;
                    left = left - 1;
                    proof {
                        assert forall|k: int|
                            0 <= k < spec_splitn(rest@, pat@, left as int).len() implies
                            spec_splitn(rest@, pat@, left as int)[k] == spec_splitn(
                            s@,
                            pat@,
                            n as int,
                        )[parts@.len() + k] by {
                            assert((seq![pre.take(i as int)] + spec_splitn(
                                rest@,
                                pat@,
                                left as int,
                            ))[k + 1] == spec_splitn(rest@, pat@, left as int)[k]);
                        }
                    }
                },
                None => {
                    proof {
                        assert(spec_splitn(rest@, pat@, left as int) =~= seq![rest@]);
                        assert(spec_splitn(rest@, pat@, left as int)[0] == rest@);
                        assert(spec_splitn(s@, pat@, n as int)[parts@.len() as int] == rest@);
                    }
                    parts.push(rest);
                    done = true;
                },
            }
        }
    }
    parts
}

/// The views of a sequence of borrowed strings.
pub open spec fn views_of(parts: Seq<&str>) -> Seq<Seq<char>> {
    parts.map(|i: int, p: &str| p@)
}

/// The tag bodies of all parts, or nothing if any part has none.
pub open spec fn spec_tag_bodies(parts: Seq<Seq<char>>, end: Seq<char>) -> Option<Seq<Seq<char>>>
    decreases parts.len(),
{
    if parts.len() == 0 {
        Some(Seq::empty())
    } else {
        match spec_tag_body(parts[0], end) {
            None => None,
            Some(b) => match spec_tag_bodies(parts.drop_first(), end) {
                None => None,
                Some(r) => Some(seq![b] + r),
            },
        }
    }
}

/// The contents of the first `num` table cells of a row, if the row has at
/// least that many well-formed cells.
pub open spec fn spec_tr_columns(row: Seq<char>, num: int) -> Option<Seq<Seq<char>>> {
    let parts = spec_splitn(row, "<td"@, num + 1);
    let tail = if parts.len() == 0 {
        Seq::<Seq<char>>::empty()
    } else {
        parts.skip(1)
    };
    match spec_tag_bodies(tail, "</td>"@) {
        None => None,
        Some(cols) => if cols.len() < num {
            None
        } else {
            Some(cols)
        },
    }
}

/// Splits a table row into its first `num` cell bodies.
pub fn tr_columns<'a>(row: &'a str, num: usize) -> (r: Option<Vec<&'a str>>)
    requires
        num < usize::MAX,
    ensures
        (r is Some) == (spec_tr_columns(row@, num as int) is Some),
        r is Some ==> Some(views_of(r->0@)) == spec_tr_columns(row@, num as int),
{
    proof {
        reveal_strlit("<td");
    }
    let ghost pviews = spec_splitn(row@, "<td"@, num as int + 1);
    let parts = split_n(row, "<td", num + 1);
    proof {
        assert(pviews.len() >= 1);
        assert(views_of(Seq::<&str>::empty()) =~= Seq::<Seq<char>>::empty());
    }
    let mut columns: Vec<&'a str> = Vec::new();
    let mut k: usize = 1;
    while k < parts.len()
        invariant
            pviews == spec_splitn(row@, "<td"@, num as int + 1),
            num < usize::MAX,
            1 <= k <= parts@.len(),
            parts@.len() == pviews.len(),
            pviews.len() >= 1,
            forall|j: int| 0 <= j < parts@.len() ==> (#[trigger] parts@[j])@ == pviews[j],
            (spec_tag_bodies(pviews.skip(1), "</td>"@) is Some) == (spec_tag_bodies(
                pviews.skip(k as int),
                "</td>"@,
            ) is Some),
            spec_tag_bodies(pviews.skip(k as int), "</td>"@) matches Some(rest)
                ==> spec_tag_bodies(pviews.skip(1), "</td>"@) == Some(
                views_of(columns@) + rest,
            ),
        decreases parts@.len() - k,
    {
        proof {
            assert(pviews.skip(k as int)[0] == pviews[k as int]);
            assert(pviews.skip(k as int).drop_first() =~= pviews.skip(k + 1));
        }
        match tag_body(parts[k], "</td>") {
            Some(b) => {
                let ghost old_cols = columns@;
                columns.push(b);
                proof {
                    assert(views_of(columns@) =~= views_of(old_cols).push(b@));
                    match spec_tag_bodies(pviews.skip(k + 1), "</td>"@) {
                        Some(rest) => {
                            assert(spec_tag_bodies(pviews.skip(k as int), "</td>"@) == Some(
                                seq![b@] + rest,
                            ));
                            assert(views_of(old_cols) + (seq![b@] + rest) =~= views_of(columns@)
                                + rest);
                        },
                        None => {},
                    }
                }
            },
            None => {
                proof {
                    assert(spec_tag_bodies(pviews.skip(k as int), "</td>"@) is None);
                    assert(spec_tr_columns(row@, num as int) is None);
                }
                return None;
            },
        }
        k = k + 1;
    }
    proof {
        assert(pviews.skip(k as int) =~= Seq::<Seq<char>>::empty());
        assert(spec_tag_bodies(pviews.skip(k as int), "</td>"@) == Some(
            Seq::<Seq<char>>::empty(),
        ));
        assert(views_of(columns@) + Seq::<Seq<char>>::empty() =~= views_of(columns@));
    }
    if columns.len() < num {
        return None;
    }
    Some(columns)
}

/// A parsed hyperlink: the numeric id its address ends in, and its text.
pub struct Link<'a> {
    pub href_id: u32,
    pub value: &'a str,
}

/// The pieces of the first hyperlink address in `body`: the text after
/// `href="`, the number after the last `/` of the address, and the position
/// of the address's closing quote.
pub open spec fn spec_link_info(body: Seq<char>) -> Option<(Seq<char>, u32, int)> {
    match spec_slice_from(body, "href=\""@) {
        None => None,
        Some(hs) => match spec_find_ch(hs, '"') {
            None => None,
            Some(e) => {
                let idv = hs.take(e);
                match spec_rfind_ch(idv, '/') {
                    None => None,
                    Some(p) => {
                        let digits = idv.subrange(p + 1, idv.len() as int);
                        if digits.len() > 0 && all_digits(digits) && dec_value(digits)
                            <= u32::MAX {
                            Some((hs, dec_value(digits) as u32, e))
                        } else {
                            None
                        }
                    },
                }
            },
        },
    }
}

/// The id of the first hyperlink in `body`.
pub open spec fn spec_parse_href_id(body: Seq<char>) -> Option<u32> {
    match spec_link_info(body) {
        Some(info) => Some(info.1),
        None => None,
    }
}

/// The first hyperlink of `body`: its id and its text.
pub open spec fn spec_link_parse(body: Seq<char>) -> Option<(u32, Seq<char>)> {
    match spec_link_info(body) {
        None => None,
        Some(info) => {
            let hs = info.0;
            let e = info.2;
            if e + 2 <= hs.len() {
                match spec_slice_to(hs.subrange(e + 2, hs.len() as int), "</a"@) {
                    None => None,
                    Some(v) => Some((info.1, v)),
                }
            } else {
                None
            }
        },
    }
}

impl<'a> Link<'a> {
    pub fn new(href_id: u32, value: &'a str) -> (r: Self)
        ensures
            r.href_id == href_id,
            r.value == value,
    {
        Link { href_id, value }
    }

    /// The address text, id and closing-quote position of the first
    /// hyperlink.
    pub fn parse_href_info(body: &'a str) -> (r: Option<(&'a str, u32, usize)>)
        ensures
            (r is Some) == (spec_link_info(body@) is Some),
            r matches Some(t) ==> (spec_link_info(body@) matches Some(info) && t.0@ == info.0
                && t.1 == info.1 && t.2 as int == info.2),
    {
        let href_start = match slice_from(body, "href=\"") {
            Some(h) => h,
            None => {
                return None;
            },
        };
        let id_end_pos = match find_ch(href_start, '"') {
            Some(p) => p,
            None => {
                return None;
            },
        };
        let id_value = href_start.substring_char(0, id_end_pos);
        proof {
            assert(id_value@ =~= href_start@.take(id_end_pos as int));
        }
        let id_start_pos = match rfind_ch(id_value, '/') {
            Some(p) => p,
            None => {
                return None;
            },
        };
        let digits = id_value.substring_char(id_start_pos + 1, id_value.unicode_len());
        let href_id = match parse_u32(digits) {
            Some(v) => v,
            None => {
                return None;
            },
        };
        Some((href_start, href_id, id_end_pos))
    }

    /// The id of the first hyperlink.
    pub fn parse_href_id(body: &'a str) -> (r: Option<u32>)
        ensures
            r == spec_parse_href_id(body@),
    {
        match Self::parse_href_info(body) {
            Some(info) => Some(info.1),
            None => None,
        }
    }

    /// The first hyperlink of `body`, as its id and its text. A link whose
    /// address quote is not followed by `">` yields nothing.
    pub fn parse(body: &'a str) -> (r: Option<Self>)
        ensures
            (r is Some) == (spec_link_parse(body@) is Some),
            r is Some ==> (spec_link_parse(body@) matches Some(lk) && r->0.href_id == lk.0
                && r->0.value@ == lk.1),
    {
        let (href_start, href_id, id_end_pos) = match Self::parse_href_info(body) {
            Some(info) => info,
            None => {
                return None;
            },
        };
        let hlen = href_start.unicode_len();
        if hlen < 2 || id_end_pos > hlen - 2 {
            return None;
        }
        let after = href_start.substring_char(id_end_pos + 2, hlen);
        match slice_to(after, "</a") {
            Some(value) => Some(Link::new(href_id, value)),
            None => None,
        }
    }
}

/// The views of a sequence of feeds.
pub open spec fn feed_views(s: Seq<Feed>) -> Seq<FeedV> {
    s.map(|i: int, f: Feed| f@)
}

/// The alert text of a row: the body of the first `open_pat` element,
/// closed by `end_pat`.
pub open spec fn spec_row_alert(s: Seq<char>, open_pat: Seq<char>, end_pat: Seq<char>) -> Option<
    Seq<char>,
> {
    match spec_find(s, open_pat) {
        None => None,
        Some(p) => spec_tag_body(s.subrange(p, s.len() as int), end_pat),
    }
}

/// Extracts the alert text of a row, if any.
fn row_alert(s: &str, open_pat: &str, end_pat: &str) -> (r: Option<String>)
    ensures
        (r is Some) == (spec_row_alert(s@, open_pat@, end_pat@) is Some),
        r matches Some(a) ==> Some(a@) == spec_row_alert(s@, open_pat@, end_pat@),
{
    let slen = s.unicode_len();
    match find_sub(s, open_pat) {
        None => None,
        Some(p) => {
            let sub = s.substring_char(p, slen);
            match tag_body(sub, end_pat) {
                Some(a) => Some(a.to_owned()),
                None => None,
            }
        },
    }
}

/// One row of the top-feeds table: nothing if the row does not parse as a
/// feed with at least `min_listeners` listeners, the feed otherwise, or the
/// offending id if the row names an unknown location.
pub open spec fn spec_parse_row_top(row: Seq<char>, min_listeners: u32) -> Option<
    Result<FeedV, u32>,
> {
    match spec_tr_columns(row, 3) {
        None => None,
        Some(cols) => {
            let lst = spec_trim_end(cols[0]);
            if !(lst.len() > 0 && all_digits(lst) && dec_value(lst) <= u32::MAX) {
                None
            } else if dec_value(lst) < min_listeners {
                None
            } else {
                let links = spec_splitn(cols[1], "<a"@, 3);
                if links.len() <= 1 {
                    None
                } else {
                    match spec_parse_href_id(links[1]) {
                        None => None,
                        Some(loc_id) => {
                            let county = if links.len() > 2 {
                                spec_tag_body(links[2], "</"@)
                            } else {
                                Some("Numerous"@)
                            };
                            match county {
                                None => None,
                                Some(cty) => match Location::spec_from_id(loc_id) {
                                    None => Some(Err(loc_id)),
                                    Some(location) => match spec_link_parse(cols[2]) {
                                        None => None,
                                        Some(lk) => Some(
                                            Ok(
                                                FeedV {
                                                    id: lk.0,
                                                    name: lk.1,
                                                    listeners: dec_value(lst) as u32,
                                                    location,
                                                    county: cty,
                                                    alert: spec_row_alert(
                                                        cols[2],
                                                        "<div"@,
                                                        "</div"@,
                                                    ),
                                                },
                                            ),
                                        ),
                                    },
                                },
                            }
                        },
                    }
                }
            }
        },
    }
}

/// Parses one row of the top-feeds table.
fn parse_row_top(row: &str, min_listeners: u32) -> (r: Result<Option<Feed>, ScrapeError>)
    ensures
        match spec_parse_row_top(row@, min_listeners) {
            None => r matches Ok(f) && f is None,
            Some(Err(id)) => r == Err::<Option<Feed>, ScrapeError>(ScrapeError::UnknownLocationID(id)),
            Some(Ok(fv)) => r matches Ok(f) && f matches Some(feed) && feed@ == fv,
        },
{
    let columns = match tr_columns(row, 3) {
        Some(c) => c,
        None => {
            return Ok(None);
        },
    };
    proof {
        assert(views_of(columns@)[0] == columns@[0]@);
        assert(views_of(columns@)[1] == columns@[1]@);
        assert(views_of(columns@)[2] == columns@[2]@);
    }
    let listeners = match parse_u32(trim_end(columns[0])) {
        Some(v) => v,
        None => {
            return Ok(None);
        },
    };
    if listeners < min_listeners {
        return Ok(None);
    }
    proof {
        reveal_strlit("<a");
    }
    let links = split_n(columns[1], "<a", 3);
    if links.len() <= 1 {
        return Ok(None);
    }
    let loc_id = match Link::parse_href_id(links[1]) {
        Some(id) => id,
        None => {
            return Ok(None);
        },
    };
    let county: String = if links.len() > 2 {
        match tag_body(links[2], "</") {
            Some(c) => c.to_owned(),
            None => {
                return Ok(None);
            },
        }
    } else {
        "Numerous".to_owned()
    };
    let location = match Location::from_id(loc_id) {
        Some(loc) => loc,
        None => {
            return Err(ScrapeError::UnknownLocationID(loc_id));
        },
    };
    let link = match Link::parse(columns[2]) {
        Some(lk) => lk,
        None => {
            return Ok(None);
        },
    };
    let alert = row_alert(columns[2], "<div", "</div");
    let feed = Feed {
        id: link.href_id,
        name: link.value.to_owned(),
        listeners,
        location,
        county,
        alert,
    };
    Ok(Some(feed))
}

/// The feeds of a sequence of top-table rows, or the first unknown location
/// id among them.
pub open spec fn spec_scrape_rows_top(rows: Seq<Seq<char>>, min_listeners: u32) -> Result<
    Seq<FeedV>,
    u32,
>
    decreases rows.len(),
{
    if rows.len() == 0 {
        Ok(Seq::empty())
    } else {
        match spec_parse_row_top(rows[0], min_listeners) {
            None => spec_scrape_rows_top(rows.drop_first(), min_listeners),
            Some(Err(id)) => Err(id),
            Some(Ok(fv)) => match spec_scrape_rows_top(rows.drop_first(), min_listeners) {
                Err(id) => Err(id),
                Ok(rest) => Ok(seq![fv] + rest),
            },
        }
    }
}

/// The feed rows of a table: everything after the two header rows.
pub open spec fn spec_body_rows(table: Seq<char>) -> Seq<Seq<char>> {
    let parts = spec_split(table, "<tr>"@);
    if parts.len() <= 2 {
        Seq::empty()
    } else {
        parts.skip(2)
    }
}

/// Parses the page of the fifty most-listened feeds. Fails with
/// `MissingFeedTable` when the page has no feed table, with
/// `UnknownLocationID` when a row names a location this crate does not know,
/// and with `NoFeeds` when no row yields a feed with at least
/// `min_listeners` listeners.
pub fn scrape_top(body: &str, min_listeners: u32) -> (r: Result<Vec<Feed>, ScrapeError>)
    ensures
        match spec_tag_body_find(body@, "<table class=\"btable\""@, "</table>"@) {
            None => r == Err::<Vec<Feed>, ScrapeError>(ScrapeError::MissingFeedTable),
            Some(table) => match spec_scrape_rows_top(spec_body_rows(table), min_listeners) {
                Err(id) => r == Err::<Vec<Feed>, ScrapeError>(ScrapeError::UnknownLocationID(id)),
                Ok(fs) => if fs.len() == 0 {
                    r == Err::<Vec<Feed>, ScrapeError>(ScrapeError::NoFeeds)
                } else {
                    r matches Ok(feeds) && feed_views(feeds@) == fs
                },
            },
        },
{
    let feed_table = match tag_body_find(body, "<table class=\"btable\"", "</table>") {
        Some(t) => t,
        None => {
            return Err(ScrapeError::MissingFeedTable);
        },
    };
    proof {
        reveal_strlit("<tr>");
    }
    let ghost table = feed_table@;
    let ghost rviews = spec_split(table, "<tr>"@);
    let ghost brows = spec_body_rows(table);
    let rows = split_all(feed_table, "<tr>");
    let mut feeds: Vec<Feed> = Vec::new();
    let mut k: usize = 2;
    proof {
        if rviews.len() <= 2 {
            assert(brows =~= Seq::<Seq<char>>::empty());
        } else {
            assert(brows =~= rviews.skip(2));
        }
        assert(feed_views(feeds@) =~= Seq::<FeedV>::empty());
    }
    while k < rows.len()
        invariant
            table == feed_table@,
            Some(table) == spec_tag_body_find(body@, "<table class=\"btable\""@, "</table>"@),
            rviews == spec_split(table, "<tr>"@),
            brows == spec_body_rows(table),
            rows@.len() == rviews.len(),
            forall|j: int| 0 <= j < rows@.len() ==> (#[trigger] rows@[j])@ == rviews[j],
            2 <= k,
            k <= rows@.len() || k == 2,
            k > 2 ==> k <= rows@.len(),
            (spec_scrape_rows_top(brows, min_listeners) is Ok) == (spec_scrape_rows_top(
                spec_rows_after(rviews, k as int),
                min_listeners,
            ) is Ok),
            spec_scrape_rows_top(spec_rows_after(rviews, k as int), min_listeners) matches Ok(
                rest,
            ) ==> spec_scrape_rows_top(brows, min_listeners) == Ok::<Seq<FeedV>, u32>(
                feed_views(feeds@) + rest,
            ),
            spec_scrape_rows_top(spec_rows_after(rviews, k as int), min_listeners) matches Err(
                id,
            ) ==> spec_scrape_rows_top(brows, min_listeners) == Err::<Seq<FeedV>, u32>(id),
        decreases rows@.len() - k,
    {
        proof {
            assert(spec_rows_after(rviews, k as int)[0] == rviews[k as int]);
            assert(spec_rows_after(rviews, k as int).drop_first() =~= spec_rows_after(
                rviews,
                k + 1,
            ));
        }
        match parse_row_top(rows[k], min_listeners) {
            Ok(None) => {},
            Ok(Some(feed)) => {
                let ghost old_feeds = feeds@;
                feeds.push(feed);
                proof {
                    assert(feed_views(feeds@) =~= feed_views(old_feeds).push(feed@));
                    match spec_scrape_rows_top(spec_rows_after(rviews, k + 1), min_listeners) {
                        Ok(rest) => {
                            assert(feed_views(old_feeds) + (seq![feed@] + rest) =~= feed_views(
                                feeds@,
                            ) + rest);
                        },
                        Err(_) => {},
                    }
                }
            },
            Err(e) => {
                return Err(e);
            },
        }
        k = k + 1;
    }
    proof {
        assert(spec_rows_after(rviews, k as int) =~= Seq::<Seq<char>>::empty());
        assert(spec_scrape_rows_top(spec_rows_after(rviews, k as int), min_listeners) == Ok::<
            Seq<FeedV>,
            u32,
        >(Seq::empty()));
        assert(feed_views(feeds@) + Seq::<FeedV>::empty() =~= feed_views(feeds@));
        assert(spec_scrape_rows_top(brows, min_listeners) == Ok::<Seq<FeedV>, u32>(
            feed_views(feeds@),
        ));
    }
    if feeds.is_empty() {
        proof {
            assert(feed_views(feeds@).len() == 0);
        }
        return Err(ScrapeError::NoFeeds);
    }
    Ok(feeds)
}

/// The row parts from position `k` on; empty once `k` passes the end.
pub open spec fn spec_rows_after(parts: Seq<Seq<char>>, k: int) -> Seq<Seq<char>> {
    if parts.len() <= k {
        Seq::empty()
    } else {
        parts.skip(k)
    }
}

/// The feed table of a location page: feeds for the United States sit in
/// the second table, elsewhere in the third.
pub open spec fn spec_loc_table(body: Seq<char>) -> Option<Seq<char>> {
    match spec_slice_from(body, "<table class=\"btable\""@) {
        None => None,
        Some(first) => match spec_slice_from(first, "<table class=\"btable\""@) {
            None => None,
            Some(second) => {
                let chosen = match spec_slice_from(second, "<table class=\"btable\""@) {
                    Some(third) => third,
                    None => second,
                };
                spec_tag_body(chosen, "</table>"@)
            },
        },
    }
}

/// One row of a location page's feed table: the feed it describes, if the
/// row parses and has at least `min_listeners` listeners.
pub open spec fn spec_parse_row_loc(row: Seq<char>, min_listeners: u32, location: Location) -> Option<
    FeedV,
> {
    match spec_tr_columns(row, 4) {
        None => None,
        Some(cols) => match spec_slice_to_ch(cols[3], '<') {
            None => None,
            Some(lstr) => if !(lstr.len() > 0 && all_digits(lstr) && dec_value(lstr)
                <= u32::MAX) {
                None
            } else if dec_value(lstr) < min_listeners {
                None
            } else {
                match spec_tag_body(cols[0], "</"@) {
                    None => None,
                    Some(cty) => match spec_link_parse(cols[1]) {
                        None => None,
                        Some(lk) => Some(
                            FeedV {
                                id: lk.0,
                                name: lk.1,
                                listeners: dec_value(lstr) as u32,
                                location,
                                county: cty,
                                alert: spec_row_alert(cols[1], "<font"@, "</font"@),
                            },
                        ),
                    },
                }
            },
        },
    }
}

/// Parses one row of a location page.
fn parse_row_loc(row: &str, min_listeners: u32, location: Location) -> (r: Option<Feed>)
    ensures
        (r is Some) == (spec_parse_row_loc(row@, min_listeners, location) is Some),
        r matches Some(feed) ==> Some(feed@) == spec_parse_row_loc(row@, min_listeners, location),
{
    let columns = match tr_columns(row, 4) {
        Some(c) => c,
        None => {
            return None;
        },
    };
    proof {
        assert(views_of(columns@)[0] == columns@[0]@);
        assert(views_of(columns@)[1] == columns@[1]@);
        assert(views_of(columns@)[3] == columns@[3]@);
    }
    let lstr = match slice_to_ch(columns[3], '<') {
        Some(v) => v,
        None => {
            return None;
        },
    };
    let listeners = match parse_u32(lstr) {
        Some(v) => v,
        None => {
            return None;
        },
    };
    if listeners < min_listeners {
        return None;
    }
    let county = match tag_body(columns[0], "</") {
        Some(c) => c.to_owned(),
        None => {
            return None;
        },
    };
    let link = match Link::parse(columns[1]) {
        Some(lk) => lk,
        None => {
            return None;
        },
    };
    let alert = row_alert(columns[1], "<font", "</font");
    Some(
        Feed {
            id: link.href_id,
            name: link.value.to_owned(),
            listeners,
            location,
            county,
            alert,
        },
    )
}

/// The feeds of a sequence of location-page rows.
pub open spec fn spec_scrape_rows_loc(
    rows: Seq<Seq<char>>,
    min_listeners: u32,
    location: Location,
) -> Seq<FeedV>
    decreases rows.len(),
{
    if rows.len() == 0 {
        Seq::empty()
    } else {
        match spec_parse_row_loc(rows[0], min_listeners, location) {
            None => spec_scrape_rows_loc(rows.drop_first(), min_listeners, location),
            Some(fv) => seq![fv] + spec_scrape_rows_loc(rows.drop_first(), min_listeners, location),
        }
    }
}

/// Parses a location page. Fails with `MissingFeedTable` when the page has
/// no feed table, and with `NoFeeds` when no row yields a feed with at
/// least `min_listeners` listeners.
pub fn scrape_location(body: &str, min_listeners: u32, location: Location) -> (r: Result<
    Vec<Feed>,
    ScrapeError,
>)
    ensures
        match spec_loc_table(body@) {
            None => r == Err::<Vec<Feed>, ScrapeError>(ScrapeError::MissingFeedTable),
            Some(table) => {
                let fs = spec_scrape_rows_loc(spec_body_rows(table), min_listeners, location);
                if fs.len() == 0 {
                    r == Err::<Vec<Feed>, ScrapeError>(ScrapeError::NoFeeds)
                } else {
                    r matches Ok(feeds) && feed_views(feeds@) == fs
                }
            },
        },
{
    let first = match slice_from(body, "<table class=\"btable\"") {
        Some(t) => t,
        None => {
            return Err(ScrapeError::MissingFeedTable);
        },
    };
    let second = match slice_from(first, "<table class=\"btable\"") {
        Some(t) => t,
        None => {
            return Err(ScrapeError::MissingFeedTable);
        },
    };
    let chosen = match slice_from(second, "<table class=\"btable\"") {
        Some(third) => third,
        None => second,
    };
    let feed_table = match tag_body(chosen, "</table>") {
        Some(t) => t,
        None => {
            return Err(ScrapeError::MissingFeedTable);
        },
    };
    proof {
        reveal_strlit("<tr>");
    }
    let ghost table = feed_table@;
    let ghost rviews = spec_split(table, "<tr>"@);
    let ghost brows = spec_body_rows(table);
    let rows = split_all(feed_table, "<tr>");
    let mut feeds: Vec<Feed> = Vec::new();
    let mut k: usize = 2;
    proof {
        if rviews.len() <= 2 {
            assert(brows =~= Seq::<Seq<char>>::empty());
        } else {
            assert(brows =~= rviews.skip(2));
        }
        assert(feed_views(feeds@) =~= Seq::<FeedV>::empty());
        assert(brows == spec_rows_after(rviews, 2));
    }
    while k < rows.len()
        invariant
            table == feed_table@,
            Some(table) == spec_loc_table(body@),
            rviews == spec_split(table, "<tr>"@),
            brows == spec_body_rows(table),
            rows@.len() == rviews.len(),
            forall|j: int| 0 <= j < rows@.len() ==> (#[trigger] rows@[j])@ == rviews[j],
            2 <= k,
            k > 2 ==> k <= rows@.len(),
            spec_scrape_rows_loc(brows, min_listeners, location) == feed_views(feeds@)
                + spec_scrape_rows_loc(spec_rows_after(rviews, k as int), min_listeners, location),
        decreases rows@.len() - k,
    {
        proof {
            assert(spec_rows_after(rviews, k as int)[0] == rviews[k as int]);
            assert(spec_rows_after(rviews, k as int).drop_first() =~= spec_rows_after(
                rviews,
                k + 1,
            ));
        }
        match parse_row_loc(rows[k], min_listeners, location) {
            Some(feed) => {
                let ghost old_feeds = feeds@;
                feeds.push(feed);
                proof {
                    assert(feed_views(feeds@) =~= feed_views(old_feeds).push(feed@));
                    assert(feed_views(old_feeds) + (seq![feed@] + spec_scrape_rows_loc(
                        spec_rows_after(rviews, k + 1),
                        min_listeners,
                        location,
                    )) =~= feed_views(feeds@) + spec_scrape_rows_loc(
                        spec_rows_after(rviews, k + 1),
                        min_listeners,
                        location,
                    ));
                }
            },
            None => {},
        }
        k = k + 1;
    }
    proof {
        assert(spec_rows_after(rviews, k as int) =~= Seq::<Seq<char>>::empty());
        assert(feed_views(feeds@) + Seq::<FeedV>::empty() =~= feed_views(feeds@));
    }
    if feeds.is_empty() {
        proof {
            assert(feed_views(feeds@).len() == 0);
        }
        return Err(ScrapeError::NoFeeds);
    }
    Ok(feeds)
}

} // verus!
