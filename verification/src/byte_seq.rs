//! Facts about byte sequences that the codecs lean on.
use vstd::prelude::*;

verus! {

/// Appending is associative.
pub broadcast proof fn lemma_seq_add_assoc(a: Seq<u8>, b: Seq<u8>, c: Seq<u8>)
    ensures
        #[trigger] ((a + b) + c) == a + (b + c),
{
    assert(((a + b) + c) =~= a + (b + c));
}

/// The deep view of a byte vector is its view.
pub broadcast proof fn lemma_bytes_deep_view(v: Vec<u8>)
    ensures
        #[trigger] v.deep_view() == v@,
{
    assert(v.deep_view() =~= v@);
}

/// The deep view of a vector of words is its view.
pub broadcast proof fn lemma_words_deep_view(v: Vec<u32>)
    ensures
        #[trigger] v.deep_view() == v@,
{
    assert(v.deep_view() =~= v@);
}

/// The deep view of a byte array is its view.
pub broadcast proof fn lemma_byte_array_deep_view<const N: usize>(a: [u8; N])
    ensures
        #[trigger] a.deep_view() == a@,
{
    assert(a.deep_view() =~= a@);
}

} // verus!
