//! Scanning of character sequences: the pieces from which the wire formats
//! of this crate are read.
use vstd::prelude::*;

verus! {

/// What follows `lead` in `text`, if `text` begins with `lead`.
pub open spec fn after(text: Seq<char>, lead: Seq<char>) -> Option<Seq<char>> {
    if lead.is_prefix_of(text) {
        Some(text.skip(lead.len() as int))
    } else {
        None
    }
}

/// What stands before `tail` in `text`, if `text` ends with `tail`.
pub open spec fn before(text: Seq<char>, tail: Seq<char>) -> Option<Seq<char>> {
    if tail.is_suffix_of(text) {
        Some(text.take(text.len() - tail.len()))
    } else {
        None
    }
}

/// Whether `at` is the position of the first `mark` in `text`.
pub open spec fn first_at(text: Seq<char>, mark: char, at: int) -> bool {
    &&& 0 <= at < text.len()
    &&& text[at] == mark
    &&& forall|j: int| 0 <= j < at ==> text[j] != mark
}

/// `text` cut before its first `mark`: what stands before it, and the rest,
/// which begins with `mark`. None where `text` holds no `mark`.
#[verifier::opaque]
pub open spec fn until(text: Seq<char>, mark: char) -> Option<(Seq<char>, Seq<char>)> {
    if exists|at: int| first_at(text, mark, at) {
        let at = choose|at: int| first_at(text, mark, at);
        Some((text.take(at), text.skip(at)))
    } else {
        None
    }
}

/// The member of `text` that follows `lead` and ends before the first
/// `mark`, with the rest of `text` from that `mark` on.
pub open spec fn member(text: Seq<char>, lead: Seq<char>, mark: char) -> Option<
    (Seq<char>, Seq<char>),
> {
    match after(text, lead) {
        None => None,
        Some(rest) => until(rest, mark),
    }
}

/// What `text` holds between `lead` at its start and `tail` at its end.
pub open spec fn enclosed(text: Seq<char>, lead: Seq<char>, tail: Seq<char>) -> Option<
    Seq<char>,
> {
    match after(text, lead) {
        None => None,
        Some(rest) => before(rest, tail),
    }
}

/// A text that is cut at the position of its first `mark`.
pub proof fn lemma_until(text: Seq<char>, mark: char, at: int)
    requires
        first_at(text, mark, at),
    ensures
        until(text, mark) == Some((text.take(at), text.skip(at))),
{
    reveal(until);
    let chosen = choose|at: int| first_at(text, mark, at);
    if chosen < at {
        assert(text[chosen] != mark);
    }
    if at < chosen {
        assert(text[at] != mark);
    }
}

/// A text without `mark` is not cut.
pub proof fn lemma_until_none(text: Seq<char>, mark: char)
    requires
        !text.contains(mark),
    ensures
        until(text, mark) is None,
{
    reveal(until);
    if exists|at: int| first_at(text, mark, at) {
        let at = choose|at: int| first_at(text, mark, at);
        assert(text[at] == mark);
    }
}

/// A member that holds no `mark` is read back from the text that it was
/// written into, with the rest of that text.
pub proof fn lemma_member(lead: Seq<char>, part: Seq<char>, rest: Seq<char>, mark: char)
    requires
        !part.contains(mark),
        rest.len() > 0,
        rest[0] == mark,
    ensures
        member(lead + part + rest, lead, mark) == Some((part, rest)),
{
    let text = lead + part + rest;
    let tail = part + rest;
    assert(text.take(lead.len() as int) =~= lead);
    assert(text.skip(lead.len() as int) =~= tail);
    let at = part.len() as int;
    assert(first_at(tail, mark, at)) by {
        assert forall|j: int| 0 <= j < at implies tail[j] != mark by {
            assert(tail[j] == part[j]);
        }
    }
    lemma_until(tail, mark, at);
    assert(tail.take(at) =~= part);
    assert(tail.skip(at) =~= rest);
}

/// What was written between `lead` and `tail` is read back.
pub proof fn lemma_enclosed(lead: Seq<char>, body: Seq<char>, tail: Seq<char>)
    ensures
        enclosed(lead + body + tail, lead, tail) == Some(body),
{
    let text = lead + body + tail;
    let rest = body + tail;
    assert(text.take(lead.len() as int) =~= lead);
    assert(text.skip(lead.len() as int) =~= rest);
    assert(rest.skip(rest.len() - tail.len()) =~= tail);
    assert(rest.take(rest.len() - tail.len()) =~= body);
}

/// The characters of `s`, by position.
pub fn chars_of(s: &str) -> (v: Vec<char>)
    ensures
        v@ == s@,
{
    let mut v: Vec<char> = Vec::new();
    for c in it: s.chars()
        invariant
            v@ == it.seq().take(it.index() as int),
            it.seq() == s@,
    {
        v.push(c);
    }
    v
}

/// Whether `part` stands in `text` at position `at`.
pub(crate) fn stands_at(text: &[char], at: usize, part: &[char]) -> (b: bool)
    requires
        at <= text.len(),
    ensures
        b == part@.is_prefix_of(text@.skip(at as int)),
{
    let n = part.len();
    if text.len() - at < n {
        return false;
    }
    let ghost rest = text@.skip(at as int);
    let mut i: usize = 0;
    while i < n
        invariant
            at + n <= text.len(),
            n == part.len(),
            i <= n,
            rest == text@.skip(at as int),
            forall|j: int| 0 <= j < i ==> rest[j] == part@[j],
        decreases n - i,
    {
        if text[at + i] != part[i] {
            proof {
                assert(rest[i as int] == text@[at + i]);
                if part@.is_prefix_of(rest) {
                    assert(rest.subrange(0, n as int)[i as int] == part@[i as int]);
                }
            }
            return false;
        }
        assert(rest[i as int] == text@[at + i]);
        i += 1;
    }
    proof {
        assert(rest.subrange(0, n as int) =~= part@);
    }
    true
}

/// The position of the first `mark` of `text` at or after `from`.
pub(crate) fn find(text: &[char], from: usize, mark: char) -> (r: Option<usize>)
    requires
        from <= text.len(),
    ensures
        match r {
            Some(at) => from <= at < text.len() && until(text@.skip(from as int), mark) == Some(
                (text@.subrange(from as int, at as int), text@.skip(at as int)),
            ),
            None => until(text@.skip(from as int), mark) is None,
        },
{
    let ghost rest = text@.skip(from as int);
    let mut i: usize = from;
    while i < text.len()
        invariant
            from <= i <= text.len(),
            rest == text@.skip(from as int),
            forall|j: int| 0 <= j < i - from ==> rest[j] != mark,
        decreases text.len() - i,
    {
        if text[i] == mark {
            proof {
                let k = i - from;
                assert(rest[k] == mark);
                lemma_until(rest, mark, k);
                assert(rest.take(k) =~= text@.subrange(from as int, i as int));
                assert(rest.skip(k) =~= text@.skip(i as int));
            }
            return Some(i);
        }
        i += 1;
    }
    proof {
        lemma_until_none(rest, mark);
    }
    None
}

/// Reads the member of `text` that follows `lead` at position `at` and ends
/// before the first `mark`: where it begins, and where that `mark` stands.
pub(crate) fn read_member(text: &[char], at: usize, lead: &str, mark: char) -> (r: Option<
    (usize, usize),
>)
    requires
        at <= text.len(),
    ensures
        match r {
            Some((from, to)) => at <= from <= to < text.len() && member(
                text@.skip(at as int),
                lead@,
                mark,
            ) == Some((text@.subrange(from as int, to as int), text@.skip(to as int))),
            None => member(text@.skip(at as int), lead@, mark) is None,
        },
{
    let lead = chars_of(lead);
    if !stands_at(text, at, lead.as_slice()) {
        return None;
    }
    let from = at + lead.len();
    proof {
        assert(text@.skip(at as int).skip(lead@.len() as int) =~= text@.skip(from as int));
    }
    match find(text, from, mark) {
        None => None,
        Some(to) => Some((from, to)),
    }
}

/// Reads what `text` holds from position `at` on between `lead` and `tail`:
/// where it begins and where it ends.
pub(crate) fn read_enclosed(text: &[char], at: usize, lead: &str, tail: &str) -> (r: Option<
    (usize, usize),
>)
    requires
        at <= text.len(),
    ensures
        match r {
            Some((from, to)) => at <= from <= to <= text.len() && enclosed(
                text@.skip(at as int),
                lead@,
                tail@,
            ) == Some(text@.subrange(from as int, to as int)),
            None => enclosed(text@.skip(at as int), lead@, tail@) is None,
        },
{
    let lead = chars_of(lead);
    let tail = chars_of(tail);
    if !stands_at(text, at, lead.as_slice()) {
        return None;
    }
    let from = at + lead.len();
    let ghost rest = text@.skip(from as int);
    proof {
        assert(text@.skip(at as int).skip(lead@.len() as int) =~= rest);
    }
    if text.len() - from < tail.len() {
        return None;
    }
    let to = text.len() - tail.len();
    proof {
        assert(rest.skip(rest.len() - tail@.len()) =~= text@.skip(to as int));
        assert(rest.take(rest.len() - tail@.len()) =~= text@.subrange(from as int, to as int));
    }
    if !stands_at(text, to, tail.as_slice()) {
        proof {
            assert(text@.skip(to as int).subrange(0, tail@.len() as int) =~= text@.skip(to as int));
        }
        return None;
    }
    proof {
        assert(text@.skip(to as int).subrange(0, tail@.len() as int) =~= text@.skip(to as int));
    }
    Some((from, to))
}

} // verus!
