//! Signing and verification mechanism over an OpenPGP certificate store and a
//! private-key custody backend: the decisions it makes, with their contracts.

mod error;
pub use crate::error::{deliver, set_error_from, SequoiaError, SequoiaErrorKind};

mod results;
pub use crate::results::{SequoiaImportResult, SequoiaSignature, SequoiaVerificationResult};

mod select;
pub use crate::select::{
    check_signature_input, find_softkeys_backend, first_keystore_key, import_shortcut,
    select_signing_key, signing_key_for, verification_outcome,
};

mod helper;
pub use crate::helper::{collect_certs, Helper, MessageLayer};

mod handle;
pub use crate::handle::{key_handle_from_parsed, parse_key_handle};

mod sign;
pub use crate::sign::{SignAction, SignEvent, SignPhase, SignSession};

mod laws;
pub use crate::laws::{lemma_malformed_tail_skipped, lemma_no_signature_group_no_signer};
