use vstd::prelude::*;
use vstd::string::StringExecFns;
use sequoia_openpgp::KeyHandle;
use crate::error::{SequoiaError, SequoiaErrorKind};
use crate::handle::{key_handle_syntax_ok, parse_key_handle};
use crate::results::SequoiaSignature;
use crate::select::{first_key, keys_view, signing_key_for};

verus! {

/// Where a signing operation stands: what it waits for next.
#[derive(PartialEq, Eq, Structural, Clone, Copy, Debug)]
pub enum SignPhase {
    /// Waiting for the candidate certificates of the key handle.
    Lookup,
    /// Waiting for the keystore's keys for the selected fingerprint.
    FindKey,
    /// Waiting for the outcome of unlocking the key.
    Unlock,
    /// Waiting for the signed message.
    Sign,
    Finished,
}

/// What the caller reports back after carrying out an action.
pub enum SignEvent {
    /// For each candidate certificate in store order, the fingerprints of
    /// its keys that the policy accepts for signing; or the lookup's error.
    CertsLoaded(Result<Vec<Vec<String>>, SequoiaError>),
    /// How many keys the keystore holds for the requested fingerprint.
    KeysFound(usize),
    Unlocked(Result<(), SequoiaError>),
    Signed(Result<Vec<u8>, SequoiaError>),
}

/// What the caller is to do next.
pub enum SignAction {
    /// Look up the keys with this fingerprint in the keystore.
    FindKey(String),
    /// Unlock the first key found with this password.
    Unlock(String),
    /// Sign the data with the first key found.
    SignData,
    /// The operation is over, with this outcome.
    Finish(Result<SequoiaSignature, SequoiaError>),
}

/// The event that `phase` waits for.
pub open spec fn expects(phase: SignPhase, event: SignEvent) -> bool {
    match phase {
        SignPhase::Lookup => event is CertsLoaded,
        SignPhase::FindKey => event is KeysFound,
        SignPhase::Unlock => event is Unlocked,
        SignPhase::Sign => event is Signed,
        SignPhase::Finished => false,
    }
}

/// One signing operation, from a parsed key handle to a signature. Every
/// failure ends it at once; nothing is retried.
pub struct SignSession {
    key_handle: String,
    password: Option<String>,
    phase: SignPhase,
}

impl SignSession {
    pub closed spec fn spec_phase(&self) -> SignPhase {
        self.phase
    }

    pub closed spec fn spec_key_handle(&self) -> Seq<char> {
        self.key_handle@
    }

    pub closed spec fn spec_password(&self) -> Option<Seq<char>> {
        match self.password {
            Some(p) => Some(p@),
            None => None,
        }
    }

    pub fn phase(&self) -> (r: SignPhase)
        ensures
            r == self.spec_phase(),
    {
        self.phase
    }

    /// Starts signing with the key named by `key_handle`: parses it and
    /// hands back the handle whose candidate certificates are to be looked
    /// up. A handle of bad syntax ends the operation before any lookup.
    pub fn start(key_handle: &str, password: Option<String>) -> (r: Result<(SignSession, KeyHandle), SequoiaError>)
        ensures
            r is Ok <==> key_handle_syntax_ok(key_handle@),
            r is Ok ==> {
                let s = r->Ok_0.0;
                &&& s.spec_phase() == SignPhase::Lookup
                &&& s.spec_key_handle() == key_handle@
                &&& s.spec_password() == (match password {
                    Some(p) => Some(p@),
                    None => None::<Seq<char>>,
                })
            },
            r is Err ==> r->Err_0.kind == SequoiaErrorKind::InvalidArgument
                && r->Err_0.message@ == "Invalid key handle: "@ + key_handle@,
    {
        match parse_key_handle(key_handle) {
            Ok(h) => Ok((SignSession { key_handle: String::from_str(key_handle), password, phase: SignPhase::Lookup }, h)),
            Err(e) => Err(e),
        }
    }

    /// Takes the outcome of the last action and decides the next one.
    pub fn step(&mut self, event: SignEvent) -> (r: SignAction)
        requires
            expects(old(self).spec_phase(), event),
        ensures
            final(self).spec_key_handle() == old(self).spec_key_handle(),
            final(self).spec_password() == old(self).spec_password(),
            r is Finish <==> final(self).spec_phase() == SignPhase::Finished,
            // the certificate lookup failed
            event matches SignEvent::CertsLoaded(Err(e)) ==> (r matches SignAction::Finish(Err(f))
                && f.kind == e.kind
                && f.message@ == "Failed to load "@ + old(self).spec_key_handle()
                    + " from certificate store: "@ + e.message@),
            // no candidate offers a key that may sign
            event matches SignEvent::CertsLoaded(Ok(c)) ==> (first_key(keys_view(c@)) is None
                ==> (r matches SignAction::Finish(Err(f)) && f.kind == SequoiaErrorKind::Unknown
                && f.message@ == "No matching signing key for "@ + old(self).spec_key_handle())),
            // the first key that may sign is looked up in the keystore
            event matches SignEvent::CertsLoaded(Ok(c)) ==> (first_key(keys_view(c@)) is Some
                ==> (r matches SignAction::FindKey(k) && Some(k@) == first_key(keys_view(c@))
                && final(self).spec_phase() == SignPhase::FindKey)),
            event matches SignEvent::KeysFound(n) ==> (n == 0
                ==> (r matches SignAction::Finish(Err(f)) && f.kind == SequoiaErrorKind::Unknown
                && f.message@ == "No matching key in keystore"@)),
            // a password unlocks the key before it signs
            event matches SignEvent::KeysFound(n) ==> (n > 0 && old(self).spec_password() is Some
                ==> (r matches SignAction::Unlock(p) && Some(p@) == old(self).spec_password()
                && final(self).spec_phase() == SignPhase::Unlock)),
            event matches SignEvent::KeysFound(n) ==> (n > 0 && old(self).spec_password() is None
                ==> (r is SignData && final(self).spec_phase() == SignPhase::Sign)),
            // a failed unlock ends the operation with its error and no signature
            event matches SignEvent::Unlocked(Err(e)) ==> r == SignAction::Finish(Err(e)),
            event is Unlocked && event->Unlocked_0 is Ok
                ==> (r is SignData && final(self).spec_phase() == SignPhase::Sign),
            event matches SignEvent::Signed(Err(e)) ==> r == SignAction::Finish(Err(e)),
            event matches SignEvent::Signed(Ok(bytes))
                ==> (r matches SignAction::Finish(Ok(sig)) && sig@ == bytes@),
    {
        match event {
            SignEvent::CertsLoaded(Err(e)) => {
                let mut message = String::from_str("Failed to load ");
                message.append(self.key_handle.as_str());
                message.append(" from certificate store: ");
                message.append(e.message.as_str());
                self.phase = SignPhase::Finished;
                SignAction::Finish(Err(SequoiaError { kind: e.kind, message }))
            },
            SignEvent::CertsLoaded(Ok(c)) => {
                match signing_key_for(self.key_handle.as_str(), &c) {
                    Ok(k) => {
                        self.phase = SignPhase::FindKey;
                        SignAction::FindKey(k)
                    },
                    Err(e) => {
                        self.phase = SignPhase::Finished;
                        SignAction::Finish(Err(e))
                    },
                }
            },
            SignEvent::KeysFound(n) => {
                if n == 0 {
                    self.phase = SignPhase::Finished;
                    SignAction::Finish(Err(SequoiaError::new(SequoiaErrorKind::Unknown, "No matching key in keystore")))
                } else {
                    match &self.password {
                        Some(p) => {
                            let p = p.clone();
                            self.phase = SignPhase::Unlock;
                            SignAction::Unlock(p)
                        },
                        None => {
                            self.phase = SignPhase::Sign;
                            SignAction::SignData
                        },
                    }
                }
            },
            SignEvent::Unlocked(Err(e)) => {
                self.phase = SignPhase::Finished;
                SignAction::Finish(Err(e))
            },
            SignEvent::Unlocked(Ok(())) => {
                self.phase = SignPhase::Sign;
                SignAction::SignData
            },
            SignEvent::Signed(Err(e)) => {
                self.phase = SignPhase::Finished;
                SignAction::Finish(Err(e))
            },
            SignEvent::Signed(Ok(bytes)) => {
                self.phase = SignPhase::Finished;
                SignAction::Finish(Ok(SequoiaSignature::new(bytes)))
            },
        }
    }
}

} // verus!
