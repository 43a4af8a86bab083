//! The riffle: a sequence is cut in two, each half is broken into chunks of a
//! few items, and the chunks fall alternately, the lower half's first.

use itertools::Itertools;
use vstd::multiset::Multiset;
use vstd::prelude::*;
use vstd::seq_lib::{lemma_flatten_concat, lemma_multiset_commutative};

verus! {

/// The lowest point at which a sequence of `n` items may be cut: a sixth of
/// its length before the middle, and never before the first item.
pub open spec fn cut_low(n: nat) -> nat {
    if n / 2 - n / 6 > 1 {
        (n / 2 - n / 6) as nat
    } else {
        1
    }
}

/// The first point past those at which a sequence of `n` items may be cut:
/// just over a sixth of its length after the middle, and never past the last
/// item.
pub open spec fn cut_high(n: nat) -> nat {
    if n / 2 + n / 6 + 1 < n {
        n / 2 + n / 6 + 1
    } else {
        n
    }
}

/// The length of the first chunk of `len` items broken into chunks of `size`.
pub open spec fn first_chunk_len(len: nat, size: nat) -> nat {
    if len <= size {
        len
    } else {
        size
    }
}

/// `s` broken into consecutive chunks of `size` items; the last chunk holds
/// what is left and may be shorter. No chunk is empty.
pub open spec fn chunks<T>(s: Seq<T>, size: nat) -> Seq<Seq<T>>
    decreases s.len(),
{
    if size == 0 || s.len() == 0 {
        Seq::empty()
    } else {
        let k = first_chunk_len(s.len(), size) as int;
        seq![s.take(k)] + chunks(s.skip(k), size)
    }
}

/// The items of `first` and `second` in turn, beginning with `first`; once one
/// of them has run out, the rest of the other follows in its order.
pub open spec fn interleaved<T>(first: Seq<T>, second: Seq<T>) -> Seq<T>
    decreases first.len() + second.len(),
{
    if first.len() == 0 {
        second
    } else {
        seq![first[0]] + interleaved(second, first.drop_first())
    }
}

/// The order in which the items of `cards` lie after a riffle that cuts
/// before index `cut_point` and lets `chunk_size` items fall at a time.
pub open spec fn riffled<T>(cards: Seq<T>, cut_point: nat, chunk_size: nat) -> Seq<T> {
    interleaved(
        chunks(cards.skip(cut_point as int), chunk_size),
        chunks(cards.take(cut_point as int), chunk_size),
    ).flatten()
}

/// Whether `after` is an order in which a shuffle may leave `before`: a riffle
/// of `before` at one of its cut points, with two or three items to a chunk.
pub open spec fn is_shuffle_of<T>(after: Seq<T>, before: Seq<T>) -> bool {
    exists|cut_point: nat, chunk_size: nat|
        cut_low(before.len()) <= cut_point < cut_high(before.len()) && 2 <= chunk_size < 4
            && after == #[trigger] riffled(before, cut_point, chunk_size)
}

/// What each of the vectors in `chunks` holds.
pub open spec fn views<T>(chunks: Seq<Vec<T>>) -> Seq<Seq<T>> {
    chunks.map_values(|chunk: Vec<T>| chunk@)
}

/// The bounds between which a pile of `n` items is cut: the first is the
/// lowest cut point, the second lies just past the highest.
pub fn cut_bounds(n: usize) -> (bounds: (usize, usize))
    ensures
        bounds.0 == cut_low(n as nat),
        bounds.1 == cut_high(n as nat),
{
    let middle: usize = n / 2;
    let sixth: usize = n / 6;
    let low: usize = if middle - sixth > 1 {
        middle - sixth
    } else {
        1
    };
    let high: usize = if middle + sixth + 1 < n {
        middle + sixth + 1
    } else {
        n
    };
    (low, high)
}

/// The items of `cards` from index `from` up to `to`, broken into chunks of
/// `size` items, each chunk in a vector of its own.
pub fn split_chunks<T: Copy>(cards: &Vec<T>, from: usize, to: usize, size: usize) -> (out: Vec<Vec<T>>)
    requires
        from <= to <= cards.len(),
        size > 0,
    ensures
        views(out@) == chunks(cards@.subrange(from as int, to as int), size as nat),
{
    let mut out: Vec<Vec<T>> = Vec::new();
    let mut start: usize = from;
    proof {
        assert(views(out@) + chunks(cards@.subrange(from as int, to as int), size as nat)
            =~= chunks(cards@.subrange(from as int, to as int), size as nat));
    }
    while start < to
        invariant
            from <= start <= to <= cards.len(),
            size > 0,
            views(out@) + chunks(cards@.subrange(start as int, to as int), size as nat) == chunks(
                cards@.subrange(from as int, to as int),
                size as nat,
            ),
        decreases to - start,
    {
        let end: usize = if to - start <= size {
            to
        } else {
            start + size
        };
        let mut chunk: Vec<T> = Vec::new();
        let mut i: usize = start;
        while i < end
            invariant
                start <= i <= end <= cards.len(),
                chunk@ == cards@.subrange(start as int, i as int),
            decreases end - i,
        {
            chunk.push(cards[i]);
            i += 1;
        }
        proof {
            let rest = cards@.subrange(start as int, to as int);
            let k = first_chunk_len(rest.len(), size as nat) as int;
            assert(rest.take(k) =~= chunk@);
            assert(rest.skip(k) =~= cards@.subrange(end as int, to as int));
            assert(views(out@.push(chunk)) =~= views(out@) + seq![chunk@]);
        }
        out.push(chunk);
        start = end;
    }
    out
}

/// Alternates the items of two vectors with `Itertools::interleave` and
/// collects them: the adaptor hands out an item of `first`, then one of
/// `second`, and so on in turn; when one vector has no item left at its turn,
/// the other's remaining items follow in their order.
#[verifier::external_body]
fn interleave<T>(first: Vec<T>, second: Vec<T>) -> (mixed: Vec<T>)
    ensures
        mixed@ == interleaved(first@, second@),
{
    first.into_iter().interleave(second).collect()
}

/// The items of all the chunks in one vector, chunk after chunk.
pub fn flatten<T: Copy>(chunks: &Vec<Vec<T>>) -> (out: Vec<T>)
    ensures
        out@ == views(chunks@).flatten(),
{
    let mut out: Vec<T> = Vec::new();
    let mut i: usize = 0;
    while i < chunks.len()
        invariant
            i <= chunks.len(),
            out@ == views(chunks@).take(i as int).flatten(),
        decreases chunks.len() - i,
    {
        let chunk = &chunks[i];
        let ghost before = out@;
        let mut j: usize = 0;
        while j < chunk.len()
            invariant
                j <= chunk.len(),
                out@ == before + chunk@.take(j as int),
            decreases chunk.len() - j,
        {
            out.push(chunk[j]);
            j += 1;
        }
        proof {
            let all = views(chunks@);
            assert(chunk@.take(j as int) =~= chunk@);
            assert(all.take(i + 1) =~= all.take(i as int).push(chunk@));
            all.take(i as int).lemma_flatten_push(chunk@);
        }
        i += 1;
    }
    proof {
        assert(views(chunks@).take(i as int) =~= views(chunks@));
    }
    out
}

/// Riffles `cards`: the items before `cut_point` are the upper half, the
/// rest the lower half; both are broken into chunks of `chunk_size` items,
/// and the chunks are laid down alternately, the lower half's first.
pub fn riffle<T: Copy>(cards: &Vec<T>, cut_point: usize, chunk_size: usize) -> (out: Vec<T>)
    requires
        0 < cut_point < cards.len(),
        chunk_size > 0,
    ensures
        out@ == riffled(cards@, cut_point as nat, chunk_size as nat),
        out@.to_multiset() == cards@.to_multiset(),
        out@.len() == cards@.len(),
{
    let upper = split_chunks(cards, 0, cut_point, chunk_size);
    let lower = split_chunks(cards, cut_point, cards.len(), chunk_size);
    proof {
        assert(cards@.subrange(0, cut_point as int) =~= cards@.take(cut_point as int));
        assert(cards@.subrange(cut_point as int, cards.len() as int) =~= cards@.skip(
            cut_point as int,
        ));
        lemma_interleaved_map(lower@, upper@, |chunk: Vec<T>| chunk@);
        riffle_is_permutation(cards@, cut_point as nat, chunk_size as nat);
    }
    let mixed = interleave(lower, upper);
    flatten(&mixed)
}

/// Mapping every item commutes with interleaving.
pub proof fn lemma_interleaved_map<A, B>(first: Seq<A>, second: Seq<A>, f: spec_fn(A) -> B)
    ensures
        interleaved(first, second).map_values(f) == interleaved(
            first.map_values(f),
            second.map_values(f),
        ),
    decreases first.len() + second.len(),
{
    if first.len() > 0 {
        lemma_interleaved_map(second, first.drop_first(), f);
        assert(first.map_values(f).drop_first() =~= first.drop_first().map_values(f));
        assert(interleaved(first, second).map_values(f) =~= seq![f(first[0])] + interleaved(
            second,
            first.drop_first(),
        ).map_values(f));
    }
}

/// Chunks laid end to end give back the sequence they were cut from.
pub proof fn lemma_chunks_flatten<T>(s: Seq<T>, size: nat)
    requires
        size > 0,
    ensures
        chunks(s, size).flatten() == s,
    decreases s.len(),
{
    if s.len() > 0 {
        let k = first_chunk_len(s.len(), size) as int;
        lemma_chunks_flatten(s.skip(k), size);
        lemma_flatten_concat(seq![s.take(k)], chunks(s.skip(k), size));
        seq![s.take(k)].lemma_flatten_one_element();
        assert(s.take(k) + s.skip(k) =~= s);
    }
}

/// Interleaving two sequences of chunks neither drops nor repeats an item of
/// any chunk.
pub proof fn lemma_interleaved_flatten_multiset<T>(first: Seq<Seq<T>>, second: Seq<Seq<T>>)
    ensures
        interleaved(first, second).flatten().to_multiset() == first.flatten().to_multiset().add(
            second.flatten().to_multiset(),
        ),
    decreases first.len() + second.len(),
{
    if first.len() == 0 {
        assert(first.flatten().to_multiset() =~= Multiset::<T>::empty()) by {
            Seq::<T>::empty().to_multiset_ensures();
        }
        assert(second.flatten().to_multiset() =~= Multiset::<T>::empty().add(
            second.flatten().to_multiset(),
        ));
    } else {
        let head = first[0];
        let tail = first.drop_first();
        lemma_interleaved_flatten_multiset(second, tail);
        lemma_flatten_concat(seq![head], interleaved(second, tail));
        seq![head].lemma_flatten_one_element();
        lemma_multiset_commutative(head, interleaved(second, tail).flatten());
        lemma_multiset_commutative(head, tail.flatten());
        assert(head.to_multiset().add(
            second.flatten().to_multiset().add(tail.flatten().to_multiset()),
        ) =~= head.to_multiset().add(tail.flatten().to_multiset()).add(
            second.flatten().to_multiset(),
        ));
    }
}

/// No chunk is empty or longer than `size`, and every chunk but the last
/// holds exactly `size` items.
pub proof fn chunks_are_full_but_the_last<T>(s: Seq<T>, size: nat, i: int)
    requires
        size > 0,
        0 <= i < chunks(s, size).len(),
    ensures
        1 <= chunks(s, size)[i].len() <= size,
        i + 1 < chunks(s, size).len() ==> chunks(s, size)[i].len() == size,
    decreases s.len(),
{
    let k = first_chunk_len(s.len(), size) as int;
    if i > 0 {
        chunks_are_full_but_the_last(s.skip(k), size, i - 1);
    } else if s.len() <= size {
        assert(chunks(s.skip(k), size).len() == 0);
    }
}

/// A riffle is a permutation: whatever the cut point and the chunk size, the
/// riffled sequence holds every item as often as the sequence it was made
/// from, and so is exactly as long.
pub proof fn riffle_is_permutation<T>(cards: Seq<T>, cut_point: nat, chunk_size: nat)
    requires
        cut_point <= cards.len(),
        chunk_size > 0,
    ensures
        riffled(cards, cut_point, chunk_size).to_multiset() == cards.to_multiset(),
        riffled(cards, cut_point, chunk_size).len() == cards.len(),
{
    let upper = cards.take(cut_point as int);
    let lower = cards.skip(cut_point as int);
    lemma_interleaved_flatten_multiset(chunks(lower, chunk_size), chunks(upper, chunk_size));
    lemma_chunks_flatten(lower, chunk_size);
    lemma_chunks_flatten(upper, chunk_size);
    lemma_multiset_commutative(upper, lower);
    assert(upper + lower =~= cards);
    assert(lower.to_multiset().add(upper.to_multiset()) =~= upper.to_multiset().add(
        lower.to_multiset(),
    ));
    riffled(cards, cut_point, chunk_size).to_multiset_ensures();
    cards.to_multiset_ensures();
}

/// Every cut point that a shuffle may pick for a pile of at least two items
/// lies past the first item and before the end: both halves hold an item.
pub proof fn cut_point_leaves_two_halves<T>(cards: Seq<T>, cut_point: nat)
    requires
        cards.len() >= 2,
        cut_low(cards.len()) <= cut_point < cut_high(cards.len()),
    ensures
        1 <= cut_point < cards.len(),
        cards.take(cut_point as int).len() >= 1,
        cards.skip(cut_point as int).len() >= 1,
{
}

/// The range of cut points of a pile of at least two items is never empty.
pub proof fn cut_range_is_not_empty(n: nat)
    requires
        n >= 2,
    ensures
        1 <= cut_low(n) < cut_high(n) <= n,
{
}

/// Where neither half is longer than a chunk, the riffle is a plain cut: the
/// lower half comes to lie on top of the upper half.
pub proof fn riffle_of_short_halves_is_a_cut<T>(cards: Seq<T>, cut_point: nat, chunk_size: nat)
    requires
        0 < cut_point < cards.len(),
        cut_point <= chunk_size,
        cards.len() - cut_point <= chunk_size,
    ensures
        riffled(cards, cut_point, chunk_size) == cards.skip(cut_point as int) + cards.take(
            cut_point as int,
        ),
{
    let upper = cards.take(cut_point as int);
    let lower = cards.skip(cut_point as int);
    lemma_chunks_of_short(upper, chunk_size);
    lemma_chunks_of_short(lower, chunk_size);
    let none = Seq::<Seq<T>>::empty();
    assert(interleaved(seq![lower], seq![upper]) =~= seq![lower, upper]) by {
        assert(seq![lower].drop_first() =~= none);
        assert(seq![upper].drop_first() =~= none);
        assert(interleaved(seq![upper], none) =~= seq![upper] + interleaved(none, none));
        assert(interleaved(seq![lower], seq![upper]) =~= seq![lower] + interleaved(
            seq![upper],
            none,
        ));
    }
    assert(seq![lower, upper] =~= seq![lower] + seq![upper]);
    lemma_flatten_concat(seq![lower], seq![upper]);
    seq![lower].lemma_flatten_one_element();
    seq![upper].lemma_flatten_one_element();
}

/// A shuffle of two, three or four items has one outcome only, whatever is
/// drawn: the cut falls in the middle, and the lower half comes to lie on top
/// of the upper half.
pub proof fn shuffle_of_small_pile_is_a_cut<T>(before: Seq<T>, after: Seq<T>)
    requires
        2 <= before.len() <= 4,
        is_shuffle_of(after, before),
    ensures
        after == before.skip((before.len() / 2) as int) + before.take((before.len() / 2) as int),
{
    let (cut_point, chunk_size) = choose|cut_point: nat, chunk_size: nat|
        cut_low(before.len()) <= cut_point < cut_high(before.len()) && 2 <= chunk_size < 4
            && after == #[trigger] riffled(before, cut_point, chunk_size);
    riffle_of_short_halves_is_a_cut(before, cut_point, chunk_size);
}

/// Two shuffles in a row bring a pile of two or of four items back to the
/// order it had.
pub proof fn small_pile_shuffled_twice_is_restored<T>(before: Seq<T>, once: Seq<T>, twice: Seq<T>)
    requires
        before.len() == 2 || before.len() == 4,
        is_shuffle_of(once, before),
        is_shuffle_of(twice, once),
    ensures
        twice == before,
{
    shuffle_of_small_pile_is_a_cut(before, once);
    shuffle_of_small_pile_is_a_cut(once, twice);
    assert(twice =~= before);
}

/// The order after a riffle depends on nothing but the order before it, the
/// cut point and the chunk size: two riffles that agree in these agree in
/// their outcome.
pub proof fn riffle_depends_on_draws_only<T>(
    before: Seq<T>,
    cut_point: nat,
    chunk_size: nat,
    one: Seq<T>,
    other: Seq<T>,
)
    requires
        one == riffled(before, cut_point, chunk_size),
        other == riffled(before, cut_point, chunk_size),
    ensures
        one == other,
{
}

/// A sequence that is not empty and no longer than a chunk is one chunk.
proof fn lemma_chunks_of_short<T>(s: Seq<T>, size: nat)
    requires
        0 < s.len() <= size,
    ensures
        chunks(s, size) == seq![s],
{
    let k = s.len() as int;
    assert(s.take(k) =~= s);
    assert(chunks(s.skip(k), size) =~= Seq::<Seq<T>>::empty());
}

} // verus!
