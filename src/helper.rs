use vstd::prelude::*;
use crate::error::{SequoiaError, SequoiaErrorKind};

verus! {

/// One layer of a parsed message, outermost first. A signature group lists
/// the outcome of each of its signatures: the hex fingerprint of the issuing
/// certificate for one that verified, `None` for one that did not.
pub enum MessageLayer {
    Compression,
    Encryption,
    SignatureGroup { results: Vec<Option<String>> },
}

/// The issuer of the first signature in a group that verified.
pub open spec fn group_signer(results: Seq<Option<String>>) -> Option<Seq<char>>
    decreases results.len(),
{
    if results.len() == 0 {
        None
    } else {
        match results[0] {
            Some(s) => Some(s@),
            None => group_signer(results.drop_first()),
        }
    }
}

/// The signer that a walk over `layers` accepts: the first verified
/// signature of the first signature group that has one. Compression and
/// encryption layers never stand in for a signature.
pub open spec fn structure_signer(layers: Seq<MessageLayer>) -> Option<Seq<char>>
    decreases layers.len(),
{
    if layers.len() == 0 {
        None
    } else {
        match layers[0] {
            MessageLayer::SignatureGroup { results } => match group_signer(results@) {
                Some(s) => Some(s),
                None => structure_signer(layers.drop_first()),
            },
            _ => structure_signer(layers.drop_first()),
        }
    }
}

fn first_verified(results: &Vec<Option<String>>) -> (r: Option<String>)
    ensures
        r is None <==> group_signer(results@) is None,
        r is Some ==> group_signer(results@) == Some(r->Some_0@),
{
    let ghost all = results@;
    assert(all.subrange(0, all.len() as int) =~= all);
    let mut i: usize = 0;
    while i < results.len()
        invariant
            i <= all.len(),
            all == results@,
            group_signer(all) == group_signer(all.subrange(i as int, all.len() as int)),
        decreases all.len() - i,
    {
        let ghost rest = all.subrange(i as int, all.len() as int);
        assert(rest[0] == all[i as int]);
        match &results[i] {
            Some(s) => {
                return Some(s.clone());
            },
            None => {},
        }
        assert(rest.drop_first() =~= all.subrange(i + 1, all.len() as int));
        i = i + 1;
    }
    assert(all.subrange(i as int, all.len() as int).len() == 0);
    None
}

/// Per-verification state: the signer, once one has been accepted.
pub struct Helper {
    signer: Option<String>,
}

impl Helper {
    pub closed spec fn spec_signer(&self) -> Option<Seq<char>> {
        match self.signer {
            Some(s) => Some(s@),
            None => None,
        }
    }

    pub fn new() -> (r: Helper)
        ensures
            r.spec_signer() is None,
    {
        Helper { signer: None }
    }

    /// Walks the layers in order and records the signer of the first
    /// verified signature of the first group that has one, then stops; with
    /// no such signature it fails and records nothing.
    pub fn check(&mut self, layers: &Vec<MessageLayer>) -> (r: Result<(), SequoiaError>)
        ensures
            r is Ok <==> structure_signer(layers@) is Some,
            r is Ok ==> final(self).spec_signer() == structure_signer(layers@),
            r is Err ==> final(self).spec_signer() == old(self).spec_signer(),
            r is Err ==> r->Err_0.kind == SequoiaErrorKind::Unknown
                && r->Err_0.message@ == "No valid signature"@,
    {
        let ghost all = layers@;
        assert(all.subrange(0, all.len() as int) =~= all);
        let mut i: usize = 0;
        while i < layers.len()
            invariant
                i <= all.len(),
                all == layers@,
                *self == *old(self),
                structure_signer(all) == structure_signer(all.subrange(i as int, all.len() as int)),
            decreases all.len() - i,
        {
            let ghost rest = all.subrange(i as int, all.len() as int);
            assert(rest[0] == all[i as int]);
            match &layers[i] {
                MessageLayer::SignatureGroup { results } => {
                    match first_verified(results) {
                        Some(s) => {
                            self.signer = Some(s);
                            return Ok(());
                        },
                        None => {},
                    }
                },
                _ => {},
            }
            assert(rest.drop_first() =~= all.subrange(i + 1, all.len() as int));
            i = i + 1;
        }
        assert(all.subrange(i as int, all.len() as int).len() == 0);
        Err(SequoiaError::new(SequoiaErrorKind::Unknown, "No valid signature"))
    }

    /// Hands over the recorded signer, ending this helper's use.
    pub fn into_signer(self) -> (r: Option<String>)
        ensures
            r is None <==> self.spec_signer() is None,
            r is Some ==> self.spec_signer() == Some(r->Some_0@),
    {
        self.signer
    }
}

pub open spec fn seqs_view<T>(v: Seq<Vec<T>>) -> Seq<Seq<T>> {
    v.map_values(|x: Vec<T>| x@)
}

/// Certificate resolution: the certificates found for each referenced key
/// handle, in order, joined into one list. A handle that matched nothing
/// contributes an empty list.
pub fn collect_certs<T>(per_handle: Vec<Vec<T>>) -> (r: Vec<T>)
    ensures
        r@ == seqs_view(per_handle@).flatten(),
{
    let ghost whole = seqs_view(per_handle@).flatten();
    let mut rest = per_handle;
    let mut out: Vec<T> = Vec::new();
    while rest.len() > 0
        invariant
            out@ + seqs_view(rest@).flatten() == whole,
        decreases rest@.len(),
    {
        let ghost before = rest@;
        let mut first = rest.remove(0);
        assert(seqs_view(before).drop_first() =~= seqs_view(rest@));
        assert(seqs_view(before).first() == first@);
        assert(out@ + first@ + seqs_view(rest@).flatten() == whole) by {
            assert(out@ + (first@ + seqs_view(rest@).flatten()) =~= out@ + first@ + seqs_view(rest@).flatten());
        }
        out.append(&mut first);
    }
    assert(seqs_view(rest@).flatten() =~= Seq::<T>::empty());
    assert(out@ =~= whole);
    out
}

} // verus!
