//! Facts about mapping the elements of a sequence to sequences and putting
//! the results behind one another.

use vstd::prelude::*;
use vstd::seq_lib::lemma_flatten_concat;

verus! {

/// The first `len` elements are the whole sequence.
pub proof fn lemma_flat_map_whole<A, B>(s: Seq<A>, f: spec_fn(A) -> Seq<B>)
    ensures
        s.take(s.len() as int).flat_map(f) == s.flat_map(f),
{
    assert(s.take(s.len() as int) == s);
}

/// One more element adds its image at the end.
pub proof fn lemma_flat_map_step<A, B>(s: Seq<A>, f: spec_fn(A) -> Seq<B>, i: int)
    requires
        0 <= i < s.len(),
    ensures
        s.take(i + 1).flat_map(f) == s.take(i).flat_map(f) + f(s[i]),
{
    broadcast use Seq::lemma_flatten_push;

    assert(s.take(i + 1).map_values(f) == s.take(i).map_values(f).push(f(s[i])));
}

/// Two sequences behind one another give their images behind one another.
pub proof fn lemma_flat_map_concat<A, B>(front: Seq<A>, back: Seq<A>, f: spec_fn(A) -> Seq<B>)
    ensures
        (front + back).flat_map(f) == front.flat_map(f) + back.flat_map(f),
{
    assert((front + back).map_values(f) == front.map_values(f) + back.map_values(f));
    lemma_flatten_concat(front.map_values(f), back.map_values(f));
}

/// The image of one element lies in the whole between the images of what
/// comes before it and of what comes after it.
pub proof fn lemma_flat_map_part<A, B>(s: Seq<A>, f: spec_fn(A) -> Seq<B>, i: int)
    requires
        0 <= i < s.len(),
    ensures
        s.flat_map(f) == s.take(i).flat_map(f) + f(s[i]) + s.skip(i + 1).flat_map(f),
{
    lemma_flat_map_step(s, f, i);
    assert(s == s.take(i + 1) + s.skip(i + 1));
    lemma_flat_map_concat(s.take(i + 1), s.skip(i + 1), f);
}

} // verus!
