//! Splitting a character stream on the HTTP message boundary marker.
//!
//! A stream of text is cut into messages at every occurrence of the
//! boundary marker `"\r\n\r\n"`.  The functions here give the mathematical
//! meaning of that cut: `split_on_delim` yields the pieces between
//! markers (the last piece being the unterminated tail), and
//! `join_with_delim` puts a stream back together from its pieces.

use vstd::prelude::*;

verus! {

/// The boundary marker separating one HTTP message from the next.
pub open spec fn delim() -> Seq<char> {
    seq!['\r', '\n', '\r', '\n']
}

/// The boundary marker occurs in `s` starting at position `i`.
pub open spec fn delim_at(s: Seq<char>, i: int) -> bool {
    &&& 0 <= i
    &&& i + 4 <= s.len()
    &&& s[i] == '\r'
    &&& s[i + 1] == '\n'
    &&& s[i + 2] == '\r'
    &&& s[i + 3] == '\n'
}

/// `s` contains the boundary marker somewhere.
pub open spec fn has_delim(s: Seq<char>) -> bool {
    exists|i: int| delim_at(s, i)
}

/// Position of the leftmost boundary marker of `s`; when `s` has none,
/// some position in `[0, s.len()]` with no marker before it.
pub open spec fn first_delim(s: Seq<char>) -> int
    decreases s.len(),
{
    if s.len() == 0 {
        0
    } else if delim_at(s, 0) {
        0
    } else {
        1 + first_delim(s.skip(1))
    }
}

/// `delim_at` describes exactly an occurrence of the marker `delim()`.
pub proof fn lemma_delim_at_is_marker(s: Seq<char>, i: int)
    requires
        0 <= i,
        i + 4 <= s.len(),
    ensures
        delim_at(s, i) <==> s.subrange(i, i + 4) =~= delim(),
{
}

/// A marker occurrence in the suffix `s.skip(k)` is the same thing as a
/// marker occurrence in `s` shifted by `k`.
pub proof fn lemma_delim_skip(s: Seq<char>, k: int, j: int)
    requires
        0 <= k <= s.len(),
        0 <= j,
    ensures
        delim_at(s.skip(k), j) <==> delim_at(s, k + j),
{
    assert(s.skip(k).len() == s.len() - k);
    if delim_at(s.skip(k), j) {
        assert(s.skip(k)[j] == s[k + j]);
        assert(s.skip(k)[j + 1] == s[k + j + 1]);
        assert(s.skip(k)[j + 2] == s[k + j + 2]);
        assert(s.skip(k)[j + 3] == s[k + j + 3]);
    }
    if delim_at(s, k + j) {
        assert(s.skip(k)[j] == s[k + j]);
        assert(s.skip(k)[j + 1] == s[k + j + 1]);
        assert(s.skip(k)[j + 2] == s[k + j + 2]);
        assert(s.skip(k)[j + 3] == s[k + j + 3]);
    }
}

/// `first_delim` is in range, points at a marker whenever `s` has one,
/// and nothing before it is a marker.
pub proof fn lemma_first_delim(s: Seq<char>)
    ensures
        0 <= first_delim(s) <= s.len(),
        has_delim(s) ==> delim_at(s, first_delim(s)),
        forall|j: int| 0 <= j < first_delim(s) ==> !delim_at(s, j),
    decreases s.len(),
{
    if s.len() == 0 {
    } else if delim_at(s, 0) {
    } else {
        let s1 = s.skip(1);
        lemma_first_delim(s1);
        if has_delim(s) {
            let i = choose|i: int| delim_at(s, i);
            assert(i != 0);
            lemma_delim_skip(s, 1, i - 1);
            assert(delim_at(s1, i - 1));
            assert(has_delim(s1));
            lemma_delim_skip(s, 1, first_delim(s1));
        }
        assert forall|j: int| 0 <= j < first_delim(s) implies !delim_at(s, j) by {
            if j > 0 {
                lemma_delim_skip(s, 1, j - 1);
            }
        }
    }
}

/// The leftmost marker position is determined: a marker at `i` with no
/// marker before it pins `first_delim(s)` to `i`.
pub proof fn lemma_first_delim_is(s: Seq<char>, i: int)
    requires
        delim_at(s, i),
        forall|j: int| 0 <= j < i ==> !delim_at(s, j),
    ensures
        first_delim(s) == i,
    decreases s.len(),
{
    if i == 0 {
    } else {
        let s1 = s.skip(1);
        lemma_delim_skip(s, 1, i - 1);
        assert(delim_at(s1, i - 1));
        assert forall|j: int| 0 <= j < i - 1 implies !delim_at(s1, j) by {
            lemma_delim_skip(s, 1, j);
        }
        lemma_first_delim_is(s1, i - 1);
    }
}

/// The pieces of `s` between consecutive boundary markers, in order.
/// The final piece is the tail after the last marker (the whole of `s`
/// when there is no marker); it never contains a marker itself.
pub open spec fn split_on_delim(s: Seq<char>) -> Seq<Seq<char>>
    decreases s.len(),
    via split_on_delim_decreases
{
    if !has_delim(s) {
        seq![s]
    } else {
        seq![s.take(first_delim(s))] + split_on_delim(s.skip(first_delim(s) + 4))
    }
}

#[via_fn]
proof fn split_on_delim_decreases(s: Seq<char>) {
    if has_delim(s) {
        lemma_first_delim(s);
    }
}

/// There is always at least one piece, and the last piece holds no marker.
pub proof fn lemma_split_last(s: Seq<char>)
    ensures
        split_on_delim(s).len() >= 1,
        !has_delim(split_on_delim(s).last()),
    decreases s.len(),
{
    if !has_delim(s) {
        assert(split_on_delim(s).last() == s);
    } else {
        lemma_first_delim(s);
        let rest = s.skip(first_delim(s) + 4);
        lemma_split_last(rest);
        assert(split_on_delim(s).last() == split_on_delim(rest).last());
    }
}

/// A stream without any boundary marker is a single piece: splitting it
/// emits no message and keeps the whole stream as the tail.  This is why
/// pushing an empty chunk into a framer leaves its carry buffer alone.
pub proof fn lemma_split_no_delim(s: Seq<char>)
    requires
        !has_delim(s),
    ensures
        split_on_delim(s) =~= seq![s],
{
}

/// The pieces re-joined with one boundary marker between each pair.
pub open spec fn join_with_delim(pieces: Seq<Seq<char>>) -> Seq<char>
    decreases pieces.len(),
{
    if pieces.len() == 0 {
        Seq::empty()
    } else if pieces.len() == 1 {
        pieces[0]
    } else {
        pieces[0] + delim() + join_with_delim(pieces.skip(1))
    }
}

/// No byte is lost by framing: re-joining the pieces of `s` with the
/// boundary marker between them restores `s` exactly.  Every character
/// of the input ends up either in an emitted message or in the tail.
pub proof fn lemma_join_split(s: Seq<char>)
    ensures
        join_with_delim(split_on_delim(s)) =~= s,
    decreases s.len(),
{
    if !has_delim(s) {
    } else {
        lemma_first_delim(s);
        let i = first_delim(s);
        let rest = s.skip(i + 4);
        lemma_join_split(rest);
        lemma_split_last(rest);
        let pieces = split_on_delim(s);
        assert(pieces.skip(1) =~= split_on_delim(rest));
        assert(join_with_delim(pieces) =~= s.take(i) + delim() + rest);
        assert forall|k: int| 0 <= k < s.len() implies (s.take(i) + delim() + rest)[k] == s[k] by {
            if i <= k < i + 4 {
                assert(delim_at(s, i));
            }
        }
    }
}

/// Splitting is invariant under how the stream is cut into chunks: the
/// pieces of `a + b` are the completed pieces of `a` followed by the
/// pieces of the tail of `a` prefixed to `b`.  Feeding a stream to a
/// framer one chunk at a time therefore yields exactly the messages of
/// feeding it whole.
/// The framer's behaviour over a whole sequence of chunks: starting
/// from a given carry, feed each chunk in turn.  The first component is
/// every message emitted, in order; the second is the final carry.
pub open spec fn feed_all(carry: Seq<char>, chunks: Seq<Seq<char>>) -> (Seq<Seq<char>>, Seq<char>)
    decreases chunks.len(),
{
    if chunks.len() == 0 {
        (Seq::<Seq<char>>::empty(), carry)
    } else {
        let pieces = split_on_delim(carry + chunks.first());
        let rest = feed_all(pieces.last(), chunks.drop_first());
        (pieces.drop_last() + rest.0, rest.1)
    }
}

/// Framing completeness: however a stream is cut into chunks, feeding
/// them one at a time emits exactly the messages of the whole stream
/// fed at once, and ends with the same carry.  Starting from a carry
/// without a marker (as every framer maintains), the messages are the
/// completed pieces of `carry + stream` and the final carry is the
/// unterminated tail.
pub proof fn lemma_feed_all(carry: Seq<char>, chunks: Seq<Seq<char>>)
    requires
        !has_delim(carry),
    ensures
        feed_all(carry, chunks).0 =~~= split_on_delim(carry + chunks.flatten()).drop_last(),
        feed_all(carry, chunks).1 == split_on_delim(carry + chunks.flatten()).last(),
    decreases chunks.len(),
{
    if chunks.len() == 0 {
        assert(chunks.flatten() =~= Seq::<char>::empty());
        assert(carry + chunks.flatten() =~= carry);
        lemma_split_no_delim(carry);
    } else {
        let c0 = chunks.first();
        let rest_flat = chunks.drop_first().flatten();
        let pieces = split_on_delim(carry + c0);
        lemma_split_last(carry + c0);
        lemma_feed_all(pieces.last(), chunks.drop_first());
        assert(chunks.flatten() == c0 + rest_flat);
        assert(carry + chunks.flatten() =~= (carry + c0) + rest_flat);
        lemma_split_append(carry + c0, rest_flat);
        let tailsplit = split_on_delim(pieces.last() + rest_flat);
        lemma_split_last(pieces.last() + rest_flat);
        let whole = split_on_delim(carry + chunks.flatten());
        assert(whole =~~= pieces.drop_last() + tailsplit);
        Seq::<Seq<char>>::drop_last_distributes_over_add(pieces.drop_last(), tailsplit);
        assert((pieces.drop_last() + tailsplit).last() == tailsplit.last());
    }
}

/// No byte loss, over a whole session: re-joining every emitted
/// message and the final carry with boundary markers between them
/// restores the carry plus everything that was ever pushed.
pub proof fn lemma_feed_all_no_loss(carry: Seq<char>, chunks: Seq<Seq<char>>)
    requires
        !has_delim(carry),
    ensures
        join_with_delim(feed_all(carry, chunks).0.push(feed_all(carry, chunks).1)) =~= carry
            + chunks.flatten(),
{
    lemma_feed_all(carry, chunks);
    let whole = split_on_delim(carry + chunks.flatten());
    lemma_split_last(carry + chunks.flatten());
    assert(whole.drop_last().push(whole.last()) =~~= whole);
    lemma_join_split(carry + chunks.flatten());
}

pub proof fn lemma_split_append(a: Seq<char>, b: Seq<char>)
    ensures
        split_on_delim(a + b) =~~= split_on_delim(a).drop_last() + split_on_delim(
            split_on_delim(a).last() + b,
        ),
    decreases a.len(),
{
    lemma_split_last(a);
    if !has_delim(a) {
        assert(split_on_delim(a).last() == a);
        assert(split_on_delim(a).drop_last() =~~= Seq::<Seq<char>>::empty());
        assert(split_on_delim(a).last() + b =~= a + b);
    } else {
        lemma_first_delim(a);
        let i = first_delim(a);
        let arest = a.skip(i + 4);
        // the first marker of `a + b` is the first marker of `a`
        assert(delim_at(a + b, i)) by {
            assert((a + b)[i] == a[i]);
            assert((a + b)[i + 1] == a[i + 1]);
            assert((a + b)[i + 2] == a[i + 2]);
            assert((a + b)[i + 3] == a[i + 3]);
        }
        assert forall|j: int| 0 <= j < i implies !delim_at(a + b, j) by {
            if delim_at(a + b, j) {
                assert((a + b)[j] == a[j]);
                assert((a + b)[j + 1] == a[j + 1]);
                assert((a + b)[j + 2] == a[j + 2]);
                assert((a + b)[j + 3] == a[j + 3]);
                assert(delim_at(a, j));
            }
        }
        lemma_first_delim_is(a + b, i);
        assert((a + b).take(i) =~= a.take(i));
        assert((a + b).skip(i + 4) =~= arest + b);
        lemma_split_append(arest, b);
        lemma_split_last(arest);
        assert(split_on_delim(a).last() == split_on_delim(arest).last());
        assert(split_on_delim(a).drop_last() =~~= seq![a.take(i)] + split_on_delim(
            arest,
        ).drop_last());
        assert(split_on_delim(a + b) =~~= seq![a.take(i)] + split_on_delim(arest + b));
    }
}

} // verus!
