use vstd::prelude::*;
use crate::helper::{structure_signer, MessageLayer};
use crate::results::imported;

verus! {

proof fn lemma_malformed_only(records: Seq<Option<String>>)
    requires
        forall|i: int| 0 <= i < records.len() ==> records[i] is None,
    ensures
        imported(records) == Seq::<Seq<char>>::empty(),
    decreases records.len(),
{
    if records.len() > 0 {
        assert(records[0] is None);
        lemma_malformed_only(records.drop_first());
    }
}

/// An import whose stream holds one well-formed certificate followed by
/// malformed records reports exactly that certificate: the damaged tail is
/// skipped, and neither fails the import nor empties its result.
pub proof fn lemma_malformed_tail_skipped(good: String, tail: Seq<Option<String>>)
    requires
        forall|i: int| 0 <= i < tail.len() ==> tail[i] is None,
    ensures
        imported(seq![Some(good)] + tail) == seq![good@],
{
    let records = seq![Some(good)] + tail;
    assert(records.drop_first() =~= tail);
    lemma_malformed_only(tail);
    assert(imported(records) == seq![good@] + imported(tail));
    assert(seq![good@] + Seq::<Seq<char>>::empty() =~= seq![good@]);
}

/// A message with no signature group has no signer, whatever else its
/// layers hold, so its verification fails.
pub proof fn lemma_no_signature_group_no_signer(layers: Seq<MessageLayer>)
    requires
        forall|i: int| 0 <= i < layers.len() ==> !(layers[i] is SignatureGroup),
    ensures
        structure_signer(layers) is None,
    decreases layers.len(),
{
    if layers.len() > 0 {
        assert(!(layers[0] is SignatureGroup));
        lemma_no_signature_group_no_signer(layers.drop_first());
    }
}

} // verus!
