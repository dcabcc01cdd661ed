//! The reusable text-extraction strategies that pull a short URL out of a
//! raw response body: raw passthrough, delimiter-bounded extraction, and
//! keyed-field extraction.
//!
//! None of these is a real XML or JSON parser: they are deliberately crude,
//! best-effort string searches, and malformed input is an ordinary `None`
//! result, never a fatal error.

use vstd::prelude::*;
use vstd::string::*;

verus! {

/// True when `pat` occurs in `text` starting at position `i`.
pub open spec fn found_at(text: Seq<char>, pat: Seq<char>, i: int) -> bool {
    0 <= i && i + pat.len() <= text.len() && text.subrange(i, i + pat.len()) == pat
}

/// The first position at or after `i` where `pat` occurs in `text`, if any.
pub open spec fn first_found_from(text: Seq<char>, pat: Seq<char>, i: int) -> Option<int>
    decreases text.len() - i + 1,
    when 0 <= i
{
    if i + pat.len() > text.len() {
        None
    } else if found_at(text, pat, i) {
        Some(i)
    } else {
        first_found_from(text, pat, i + 1)
    }
}

/// The position of the first occurrence of `pat` in `text`, if any.
pub open spec fn first_found(text: Seq<char>, pat: Seq<char>) -> Option<int> {
    first_found_from(text, pat, 0)
}

/// `first_found_from` yields the least position at or after `i` at which the
/// pattern occurs, and `None` exactly when there is no such position.
pub proof fn lemma_first_found_from(text: Seq<char>, pat: Seq<char>, i: int)
    requires
        0 <= i,
    ensures
        match first_found_from(text, pat, i) {
            Some(k) => i <= k && found_at(text, pat, k) && (forall|j: int|
                i <= j < k ==> !found_at(text, pat, j)),
            None => forall|j: int| i <= j ==> !found_at(text, pat, j),
        },
    decreases text.len() - i + 1,
{
    if i + pat.len() > text.len() {
        // the pattern no longer fits anywhere at or after i
    } else if found_at(text, pat, i) {
        // i itself is the least such position
    } else {
        lemma_first_found_from(text, pat, i + 1);
    }
}

/// Whether `pat` occurs in `text` starting exactly at position `i`,
/// by comparing the characters one by one.
fn check_match(text: &str, pat: &str, i: usize, plen: usize) -> (r: bool)
    requires
        plen == pat@.len(),
        i + plen <= text@.len(),
        text@.len() <= usize::MAX,
    ensures
        r == found_at(text@, pat@, i as int),
{
    let mut k: usize = 0;
    while k < plen
        invariant
            plen == pat@.len(),
            i + plen <= text@.len(),
            text@.len() <= usize::MAX,
            k <= plen,
            forall|m: int| 0 <= m < k ==> text@[i + m] == pat@[m],
        decreases plen - k,
    {
        if text.get_char(i + k) != pat.get_char(k) {
            proof {
                assert(text@.subrange(i as int, i + plen)[k as int] == text@[i + k]);
            }
            return false;
        }
        k += 1;
    }
    proof {
        assert(text@.subrange(i as int, i + plen) =~= pat@);
    }
    true
}

/// Finds the first occurrence of `pat` in `text`, scanning left to right.
/// The tie-break of every strategy built on it: the position returned is the
/// least one at which the pattern occurs.
pub fn find_first(text: &str, pat: &str) -> (r: Option<usize>)
    ensures
        match r {
            Some(i) => first_found(text@, pat@) == Some(i as int) && found_at(
                text@,
                pat@,
                i as int,
            ) && (forall|j: int| 0 <= j < i ==> !found_at(text@, pat@, j)),
            None => first_found(text@, pat@) is None && (forall|j: int|
                0 <= j ==> !found_at(text@, pat@, j)),
        },
{
    proof {
        lemma_first_found_from(text@, pat@, 0);
    }
    let tlen = text.unicode_len();
    let plen = pat.unicode_len();
    if plen > tlen {
        return None;
    }
    let end = tlen - plen;
    let mut i: usize = 0;
    while i <= end
        invariant
            tlen == text@.len(),
            plen == pat@.len(),
            plen <= tlen,
            end == tlen - plen,
            i <= end + 1,
            first_found(text@, pat@) == first_found_from(text@, pat@, i as int),
        decreases end + 1 - i,
    {
        if check_match(text, pat, i, plen) {
            proof {
                assert(first_found_from(text@, pat@, i as int) == Some(i as int));
                lemma_first_found_from(text@, pat@, 0);
                assert(forall|j: int| 0 <= j < i ==> !found_at(text@, pat@, j));
            }
            return Some(i);
        }
        proof {
            if plen == 0 {
                assert(text@.subrange(i as int, i as int + pat@.len()) =~= pat@);
            }
            assert(first_found_from(text@, pat@, i as int) == first_found_from(
                text@,
                pat@,
                i as int + 1,
            ));
        }
        i += 1;
    }
    proof {
        assert(first_found_from(text@, pat@, i as int) is None);
    }
    None
}

/// Raw passthrough: the whole response body is the short URL, unless the
/// body is empty, which signals failure.
pub open spec fn passthrough_spec(s: Seq<char>) -> Option<Seq<char>> {
    if s.len() == 0 {
        None
    } else {
        Some(s)
    }
}

/// Returns the entire input unless it is empty.
pub fn passthrough(res: &str) -> (r: Option<String>)
    ensures
        r.deep_view() == passthrough_spec(res@),
{
    if res.unicode_len() == 0 {
        None
    } else {
        Some(String::from_str(res))
    }
}

/// Delimiter-bounded extraction: the text strictly between the first
/// occurrence of `opening` and the next occurrence of `closing` after it.
/// `None` when the input is empty or either delimiter is absent.
pub open spec fn delimited_spec(
    s: Seq<char>,
    opening: Seq<char>,
    closing: Seq<char>,
) -> Option<Seq<char>> {
    if s.len() == 0 {
        None
    } else {
        match first_found(s, opening) {
            None => None,
            Some(i) => {
                let rest = s.subrange(i + opening.len(), s.len() as int);
                match first_found(rest, closing) {
                    None => None,
                    Some(j) => Some(rest.subrange(0, j)),
                }
            },
        }
    }
}

/// Extracts the text strictly between the first occurrence of `opening` and
/// the first occurrence of `closing` that follows it.
pub fn extract_between(res: &str, opening: &str, closing: &str) -> (r: Option<String>)
    ensures
        r.deep_view() == delimited_spec(res@, opening@, closing@),
{
    let tlen = res.unicode_len();
    if tlen == 0 {
        return None;
    }
    let olen = opening.unicode_len();
    match find_first(res, opening) {
        None => None,
        Some(i) => {
            let rest = res.substring_char(i + olen, tlen);
            match find_first(rest, closing) {
                None => None,
                Some(j) => Some(String::from_str(rest.substring_char(0, j))),
            }
        },
    }
}

/// The crude unescape applied by the keyed-field strategy: every backslash
/// is dropped. No escape-sequence decoding takes place.
pub open spec fn without_backslashes(s: Seq<char>) -> Seq<char>
    decreases s.len(),
{
    if s.len() == 0 {
        Seq::empty()
    } else if s[0] == '\\' {
        without_backslashes(s.drop_first())
    } else {
        seq![s[0]] + without_backslashes(s.drop_first())
    }
}

proof fn lemma_without_backslashes_push(s: Seq<char>, c: char)
    ensures
        without_backslashes(s.push(c)) == without_backslashes(s) + (if c == '\\' {
            Seq::<char>::empty()
        } else {
            seq![c]
        }),
    decreases s.len(),
{
    reveal_with_fuel(without_backslashes, 3);
    if s.len() == 0 {
        assert(s.push(c)[0] == c);
        assert(s.push(c).drop_first() =~= Seq::<char>::empty());
        assert(without_backslashes(s.push(c)) =~= without_backslashes(s) + (if c == '\\' {
            Seq::<char>::empty()
        } else {
            seq![c]
        }));
    } else {
        assert(s.push(c)[0] == s[0]);
        assert(s.push(c).drop_first() =~= s.drop_first().push(c));
        lemma_without_backslashes_push(s.drop_first(), c);
        assert(without_backslashes(s.push(c)) =~= without_backslashes(s) + (if c == '\\' {
            Seq::<char>::empty()
        } else {
            seq![c]
        }));
    }
}

/// Appends `s` to `acc` with every backslash removed.
fn push_without_backslashes(acc: &mut String, s: &str)
    ensures
        final(acc)@ == old(acc)@ + without_backslashes(s@),
{
    let len = s.unicode_len();
    proof {
        assert(old(acc)@ + without_backslashes(s@.subrange(0, 0)) =~= old(acc)@);
    }
    let mut i: usize = 0;
    while i < len
        invariant
            len == s@.len(),
            i <= len,
            acc@ == old(acc)@ + without_backslashes(s@.subrange(0, i as int)),
        decreases len - i,
    {
        let c = s.get_char(i);
        proof {
            assert(s@.subrange(0, i as int + 1) =~= s@.subrange(0, i as int).push(s@[i as int]));
            lemma_without_backslashes_push(s@.subrange(0, i as int), s@[i as int]);
        }
        if c != '\\' {
            let piece = s.substring_char(i, i + 1);
            proof {
                assert(piece@ =~= seq![s@[i as int]]);
            }
            acc.append(piece);
            proof {
                assert(acc@ =~= old(acc)@ + without_backslashes(s@.subrange(0, i as int + 1)));
            }
        } else {
            proof {
                assert(acc@ =~= old(acc)@ + without_backslashes(s@.subrange(0, i as int + 1)));
            }
        }
        i += 1;
    }
    proof {
        assert(s@.subrange(0, len as int) =~= s@);
    }
}

/// Keyed-field extraction: the input is split on the quoted field name, the
/// segment following the first occurrence is clipped at the first comma, and
/// the first quoted value inside the clipped segment is taken, with every
/// backslash stripped and the literal `prefix` put in front. `None` when the
/// input is empty, the quoted field name is absent, or no quote follows it.
pub open spec fn keyed_spec(s: Seq<char>, field: Seq<char>, prefix: Seq<char>) -> Option<
    Seq<char>,
> {
    if s.len() == 0 {
        None
    } else {
        let pat = seq!['"'] + field + seq!['"'];
        match first_found(s, pat) {
            None => None,
            Some(i) => {
                let seg = s.subrange(i + pat.len(), s.len() as int);
                let clipped = match first_found(seg, seq![',']) {
                    Some(j) => seg.subrange(0, j),
                    None => seg,
                };
                match first_found(clipped, seq!['"']) {
                    None => None,
                    Some(q) => {
                        let after = clipped.subrange(q + 1, clipped.len() as int);
                        let raw = match first_found(after, seq!['"']) {
                            Some(q2) => after.subrange(0, q2),
                            None => after,
                        };
                        Some(prefix + without_backslashes(raw))
                    },
                }
            },
        }
    }
}

/// Extracts the first quoted value that follows the quoted `field` name,
/// strips backslashes from it, and puts `prefix` in front of it.
pub fn extract_keyed(res: &str, field: &str, prefix: &str) -> (r: Option<String>)
    ensures
        r.deep_view() == keyed_spec(res@, field@, prefix@),
{
    let tlen = res.unicode_len();
    if tlen == 0 {
        return None;
    }
    let pat = String::from_str("\"").concat(field).concat("\"");
    proof {
        reveal_strlit("\"");
        reveal_strlit(",");
        assert("\""@ =~= seq!['"']);
        assert(","@ =~= seq![',']);
        assert(pat@ == seq!['"'] + field@ + seq!['"']);
    }
    let plen = pat.as_str().unicode_len();
    match find_first(res, pat.as_str()) {
        None => None,
        Some(i) => {
            let seg = res.substring_char(i + plen, tlen);
            let clipped = match find_first(seg, ",") {
                Some(j) => seg.substring_char(0, j),
                None => seg,
            };
            let clen = clipped.unicode_len();
            match find_first(clipped, "\"") {
                None => None,
                Some(q) => {
                    let after = clipped.substring_char(q + 1, clen);
                    let raw = match find_first(after, "\"") {
                        Some(q2) => after.substring_char(0, q2),
                        None => after,
                    };
                    let mut out = String::from_str(prefix);
                    push_without_backslashes(&mut out, raw);
                    Some(out)
                },
            }
        },
    }
}

} // verus!
