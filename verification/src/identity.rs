use crate::error::ReportError;
use vstd::prelude::*;
use vstd::std_specs::iter::IteratorSpec;
use vstd::string::*;

verus! {

/// The pieces into which the slashes of `s` cut it, in order. A text without
/// a slash is one piece; `n` slashes make `n + 1` pieces, empty ones included.
pub open spec fn segments(s: Seq<char>) -> Seq<Seq<char>>
    decreases s.len(),
{
    if s.len() == 0 {
        seq![Seq::empty()]
    } else {
        let before = segments(s.drop_last());
        if s.last() == '/' {
            before.push(Seq::empty())
        } else {
            before.drop_last().push(before.last().push(s.last()))
        }
    }
}

/// How the pieces of a text change when one more character follows it.
proof fn lemma_segments_push(s: Seq<char>, c: char)
    ensures
        segments(s).len() >= 1,
        c == '/' ==> segments(s.push(c)) == segments(s).push(Seq::empty()),
        c != '/' ==> segments(s.push(c)) == segments(s).drop_last().push(
            segments(s).last().push(c),
        ),
    decreases s.len(),
{
    if s.len() > 0 {
        lemma_segments_push(s.drop_last(), s.last());
    }
    assert(s.push(c).drop_last() == s);
}

/// The text that the given pieces make when a slash is put between each two.
pub open spec fn joined(pieces: Seq<Seq<char>>) -> Seq<char>
    decreases pieces.len(),
{
    if pieces.len() == 0 {
        Seq::empty()
    } else if pieces.len() == 1 {
        pieces[0]
    } else {
        joined(pieces.drop_last()) + seq!['/'] + pieces.last()
    }
}

/// The segments of a text, joined by slashes, are the text again.
pub proof fn lemma_segments_rejoin(s: Seq<char>)
    ensures
        segments(s).len() >= 1,
        joined(segments(s)) == s,
    decreases s.len(),
{
    if s.len() > 0 {
        let before = segments(s.drop_last());
        lemma_segments_rejoin(s.drop_last());
        if s.last() == '/' {
            assert(segments(s).drop_last() == before);
        } else if before.len() == 1 {
        } else {
            let after = before.drop_last().push(before.last().push(s.last()));
            assert(after.drop_last() == before.drop_last());
            assert(joined(after) == (joined(before.drop_last()) + seq!['/']
                + before.last()).push(s.last()));
        }
    }
}

/// No segment of a text holds a slash.
pub proof fn lemma_segments_hold_no_slash(s: Seq<char>)
    ensures
        forall|i: int, j: int|
            0 <= i < segments(s).len() && 0 <= j < segments(s)[i].len() ==> segments(s)[i][j]
                != '/',
    decreases s.len(),
{
    if s.len() > 0 {
        lemma_segments_hold_no_slash(s.drop_last());
        lemma_segments_rejoin(s.drop_last());
    }
}

/// The role name in a caller identity of the form
/// `arn:partition:sts::account:assumed-role/RoleName/SessionName`: the second
/// of its slash-separated segments.
pub fn resolve_role_name(identity: &str) -> (outcome: Result<String, ReportError>)
    ensures
        outcome is Ok <==> segments(identity@).len() >= 2,
        outcome matches Ok(name) ==> name@ == segments(identity@)[1],
        outcome matches Err(error) ==> error == ReportError::MalformedIdentity,
{
    let total = identity.unicode_len();
    let mut rest = identity.chars();
    let mut seen: usize = 0;
    let mut slashes: u8 = 0;
    let mut start: usize = 0;
    let mut end: usize = 0;
    let ghost text = identity@;
    loop
        invariant
            text == identity@,
            seen <= text.len() == total,
            rest.remaining() == text.skip(seen as int),
            rest.obeys_prophetic_iter_laws(),
            slashes <= 2,
            slashes == 0 ==> segments(text.take(seen as int)).len() == 1,
            slashes == 1 ==> segments(text.take(seen as int)).len() == 2 && start <= seen
                && segments(text.take(seen as int))[1] == text.subrange(start as int, seen as int),
            slashes == 2 ==> segments(text.take(seen as int)).len() >= 3 && start <= end <= seen
                && segments(text.take(seen as int))[1] == text.subrange(start as int, end as int),
        ensures
            seen == text.len(),
        decreases text.len() - seen,
    {
        let ghost before = text.take(seen as int);
        match rest.next() {
            None => {
                break ;
            },
            Some(c) => {
                proof {
                    lemma_segments_push(before, c);
                    assert(text.take(seen + 1) == before.push(c));
                }
                if c == '/' {
                    if slashes == 0 {
                        start = seen + 1;
                        slashes = 1;
                    } else if slashes == 1 {
                        end = seen;
                        slashes = 2;
                    }
                }
                seen = seen + 1;
            },
        }
    }
    if slashes == 0 {
        Err(ReportError::MalformedIdentity)
    } else if slashes == 1 {
        Ok(identity.substring_char(start, seen).to_owned())
    } else {
        Ok(identity.substring_char(start, end).to_owned())
    }
}

} // verus!
