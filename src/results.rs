use vstd::prelude::*;
use crate::error::{SequoiaError, SequoiaErrorKind};

verus! {

/// A produced signature: the serialized signed message.
pub struct SequoiaSignature {
    data: Vec<u8>,
}

impl SequoiaSignature {
    pub closed spec fn view(&self) -> Seq<u8> {
        self.data@
    }

    pub fn new(data: Vec<u8>) -> (r: SequoiaSignature)
        ensures
            r@ == data@,
    {
        SequoiaSignature { data }
    }

    pub fn data(&self) -> (r: &[u8])
        ensures
            r@ == self@,
    {
        self.data.as_slice()
    }
}

/// The outcome of a successful verification: the recovered content and the
/// hex fingerprint of the certificate that issued the accepted signature.
pub struct SequoiaVerificationResult {
    content: Vec<u8>,
    signer: String,
}

impl SequoiaVerificationResult {
    pub closed spec fn spec_content(&self) -> Seq<u8> {
        self.content@
    }

    pub closed spec fn spec_signer(&self) -> Seq<char> {
        self.signer@
    }

    pub fn new(content: Vec<u8>, signer: String) -> (r: SequoiaVerificationResult)
        ensures
            r.spec_content() == content@,
            r.spec_signer() == signer@,
    {
        SequoiaVerificationResult { content, signer }
    }

    pub fn content(&self) -> (r: &[u8])
        ensures
            r@ == self.spec_content(),
    {
        self.content.as_slice()
    }

    pub fn signer(&self) -> (r: &str)
        ensures
            r@ == self.spec_signer(),
    {
        self.signer.as_str()
    }
}

/// The hex fingerprints of the imported certificates, in import order.
pub struct SequoiaImportResult {
    key_handles: Vec<String>,
}

impl SequoiaImportResult {
    pub closed spec fn view(&self) -> Seq<Seq<char>> {
        self.key_handles@.map_values(|s: String| s@)
    }

    pub fn empty() -> (r: SequoiaImportResult)
        ensures
            r@.len() == 0,
    {
        SequoiaImportResult { key_handles: Vec::new() }
    }

    /// Builds the result of an import from its parse records, in parse
    /// order: the fingerprint of each certificate that was read and
    /// imported, `None` for a malformed record, which is skipped.
    pub fn from_records(records: Vec<Option<String>>) -> (r: SequoiaImportResult)
        ensures
            r@ == imported(records@),
    {
        let ghost whole = imported(records@);
        let mut rest = records;
        let mut out: Vec<String> = Vec::new();
        assert(out@.map_values(|s: String| s@) + imported(rest@) =~= whole);
        while rest.len() > 0
            invariant
                out@.map_values(|s: String| s@) + imported(rest@) == whole,
            decreases rest@.len(),
        {
            let ghost before = rest@;
            let ghost shown = out@.map_values(|s: String| s@);
            let item = rest.remove(0);
            assert(before.drop_first() =~= rest@);
            match item {
                Some(s) => {
                    out.push(s);
                    assert(out@.map_values(|s: String| s@) =~= shown.push(s@));
                    assert(shown + imported(before) =~= shown.push(s@) + imported(rest@));
                },
                None => {},
            }
        }
        SequoiaImportResult { key_handles: out }
    }

    pub fn count(&self) -> (r: usize)
        ensures
            r == self@.len(),
    {
        self.key_handles.len()
    }

    /// The fingerprint at `index`; past the end this is an `InvalidArgument`
    /// error.
    pub fn get(&self, index: usize) -> (r: Result<&str, SequoiaError>)
        ensures
            index < self@.len() ==> r is Ok && r->Ok_0@ == self@[index as int],
            index >= self@.len() ==> r is Err && r->Err_0.kind == SequoiaErrorKind::InvalidArgument
                && r->Err_0.message@ == "No matching key handle"@,
    {
        if index >= self.key_handles.len() {
            return Err(SequoiaError::new(SequoiaErrorKind::InvalidArgument, "No matching key handle"));
        }
        Ok(self.key_handles[index].as_str())
    }
}

/// The fingerprints that an import reports for its parse records: those of
/// the records that were read, in order.
pub open spec fn imported(records: Seq<Option<String>>) -> Seq<Seq<char>>
    decreases records.len(),
{
    if records.len() == 0 {
        Seq::empty()
    } else {
        match records[0] {
            Some(s) => seq![s@] + imported(records.drop_first()),
            None => imported(records.drop_first()),
        }
    }
}

} // verus!
