use vstd::prelude::*;
use vstd::string::StringExecFns;
use crate::error::{SequoiaError, SequoiaErrorKind};
use crate::results::{SequoiaImportResult, SequoiaVerificationResult};

verus! {

/// The identifier of the custody backend that imports raw key material.
pub open spec fn softkeys_id() -> Seq<char> {
    seq!['s', 'o', 'f', 't', 'k', 'e', 'y', 's']
}

pub open spec fn strings_view(v: Seq<String>) -> Seq<Seq<char>> {
    v.map_values(|s: String| s@)
}

/// `i` is the first position in `ids` that holds the softkeys identifier.
pub open spec fn is_first_softkeys(ids: Seq<Seq<char>>, i: int) -> bool {
    &&& 0 <= i < ids.len()
    &&& ids[i] == softkeys_id()
    &&& forall|j: int| 0 <= j < i ==> ids[j] != softkeys_id()
}

/// Picks, among the custody backends listed by identifier in enumeration
/// order, the first one whose identifier is exactly `softkeys`.
pub fn find_softkeys_backend(ids: &Vec<String>) -> (r: Result<usize, SequoiaError>)
    ensures
        r is Ok ==> is_first_softkeys(strings_view(ids@), r->Ok_0 as int),
        r is Err <==> forall|j: int| 0 <= j < ids@.len() ==> ids@[j]@ != softkeys_id(),
        r is Err ==> r->Err_0.kind == SequoiaErrorKind::Unknown
            && r->Err_0.message@ == "softkeys backend is not configured."@,
{
    let softkeys = String::from_str("softkeys");
    proof { reveal_strlit("softkeys"); }
    assert(softkeys@ =~= softkeys_id());
    let mut i: usize = 0;
    while i < ids.len()
        invariant
            i <= ids@.len(),
            softkeys@ == softkeys_id(),
            forall|j: int| 0 <= j < i ==> ids@[j]@ != softkeys_id(),
        decreases ids@.len() - i,
    {
        if ids[i] == softkeys {
            return Ok(i);
        }
        i = i + 1;
    }
    Err(SequoiaError::new(SequoiaErrorKind::Unknown, "softkeys backend is not configured."))
}

/// An import of an empty blob is answered at once with an empty result,
/// before any backend or store is touched; `None` means the import proceeds.
pub fn import_shortcut(blob: &[u8]) -> (r: Option<SequoiaImportResult>)
    ensures
        r is Some <==> blob@.len() == 0,
        r is Some ==> r->Some_0@.len() == 0,
{
    if blob.len() == 0 {
        Some(SequoiaImportResult::empty())
    } else {
        None
    }
}

pub open spec fn keys_view(c: Seq<Vec<String>>) -> Seq<Seq<Seq<char>>> {
    c.map_values(|v: Vec<String>| strings_view(v@))
}

/// The first key of the first certificate that has any: the first-match
/// selection over the candidates in store order.
pub open spec fn first_key(c: Seq<Seq<Seq<char>>>) -> Option<Seq<char>>
    decreases c.len(),
{
    if c.len() == 0 {
        None
    } else if c[0].len() > 0 {
        Some(c[0][0])
    } else {
        first_key(c.drop_first())
    }
}

/// Given, for each candidate certificate in store order, the fingerprints
/// of its keys that the policy accepts for signing, returns the first one.
pub fn select_signing_key(candidates: &Vec<Vec<String>>) -> (r: Option<String>)
    ensures
        r is None <==> first_key(keys_view(candidates@)) is None,
        r is Some ==> first_key(keys_view(candidates@)) == Some(r->Some_0@),
{
    let ghost all = keys_view(candidates@);
    assert(all.subrange(0, all.len() as int) =~= all);
    let mut i: usize = 0;
    while i < candidates.len()
        invariant
            i <= candidates@.len(),
            all == keys_view(candidates@),
            first_key(all) == first_key(all.subrange(i as int, all.len() as int)),
        decreases candidates@.len() - i,
    {
        let ghost rest = all.subrange(i as int, all.len() as int);
        assert(rest[0] == strings_view(candidates@[i as int]@));
        if candidates[i].len() > 0 {
            let k = candidates[i][0].clone();
            return Some(k);
        }
        assert(rest.drop_first() =~= all.subrange(i + 1, all.len() as int));
        i = i + 1;
    }
    assert(all.subrange(i as int, all.len() as int).len() == 0);
    None
}

/// The fingerprint to sign with for `key_handle`, or the error that names
/// the handle when no candidate offers a signing-capable key.
pub fn signing_key_for(key_handle: &str, candidates: &Vec<Vec<String>>) -> (r: Result<String, SequoiaError>)
    ensures
        r is Ok <==> first_key(keys_view(candidates@)) is Some,
        r is Ok ==> first_key(keys_view(candidates@)) == Some(r->Ok_0@),
        r is Err ==> r->Err_0.kind == SequoiaErrorKind::Unknown
            && r->Err_0.message@ == "No matching signing key for "@ + key_handle@,
{
    match select_signing_key(candidates) {
        Some(k) => Ok(k),
        None => Err(SequoiaError::with_detail(SequoiaErrorKind::Unknown, "No matching signing key for ", key_handle)),
    }
}

/// The first of the keys that the keystore holds for the selected
/// fingerprint; none at all is an error.
pub fn first_keystore_key<K>(keys: Vec<K>) -> (r: Result<K, SequoiaError>)
    ensures
        r is Ok <==> keys@.len() > 0,
        r is Ok ==> r->Ok_0 == keys@[0],
        r is Err ==> r->Err_0.kind == SequoiaErrorKind::Unknown
            && r->Err_0.message@ == "No matching key in keystore"@,
{
    let mut keys = keys;
    if keys.len() == 0 {
        return Err(SequoiaError::new(SequoiaErrorKind::Unknown, "No matching key in keystore"));
    }
    Ok(keys.remove(0))
}

/// A verification input must not be empty.
pub fn check_signature_input(signature: &[u8]) -> (r: Result<(), SequoiaError>)
    ensures
        r is Err <==> signature@.len() == 0,
        r is Err ==> r->Err_0.kind == SequoiaErrorKind::Unknown
            && r->Err_0.message@ == "empty signature"@,
{
    if signature.len() == 0 {
        return Err(SequoiaError::new(SequoiaErrorKind::Unknown, "empty signature"));
    }
    Ok(())
}

/// The result of a verification that read `content` to the end: it succeeds
/// exactly when a signer was recorded.
pub fn verification_outcome(content: Vec<u8>, signer: Option<String>) -> (r: Result<SequoiaVerificationResult, SequoiaError>)
    ensures
        r is Ok <==> signer is Some,
        r is Ok ==> r->Ok_0.spec_content() == content@ && r->Ok_0.spec_signer() == signer->Some_0@,
        r is Err ==> r->Err_0.kind == SequoiaErrorKind::Unknown
            && r->Err_0.message@ == "No valid signature"@,
{
    match signer {
        Some(s) => Ok(SequoiaVerificationResult::new(content, s)),
        None => Err(SequoiaError::new(SequoiaErrorKind::Unknown, "No valid signature")),
    }
}

} // verus!
