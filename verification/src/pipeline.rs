//! The submission pipeline's caller-facing stages: decoding the untrusted,
//! doubly-encoded input into a payload and signatures, assembling the signed
//! transaction, and fixing the request every submission makes. The backend
//! call itself is I/O; whoever runs it submits only what `prepare` returns,
//! so a malformed input fails here, before any backend call exists.

use vstd::prelude::*;
use vstd::string::StringExecFns;
use crate::adapter::{ResponseOptions, ExecuteTransactionRequestType, submission_request};
use crate::encoding::{b64_encode, is_b64, decode_base64};
use crate::errors::Error;
use crate::sig::{Signature, SignatureView, signature_encoding, parse_signature};
use crate::transaction::SignedTransaction;
use crate::tx::{TransactionData, TransactionDataView, tx_data_encoding, decode_transaction_data};

verus! {

/// True of transaction text that decodes all the way: canonical Base64 of
/// the canonical binary encoding of a well-formed payload.
pub open spec fn tx_bytes_decodes(s: Seq<char>) -> bool {
    exists|t: TransactionDataView| t.wf() && s == b64_encode(tx_data_encoding(t))
}

/// True of signature text that decodes all the way: canonical Base64 of the
/// wire form of a well-formed signature.
pub open spec fn sig_ok(s: Seq<char>) -> bool {
    exists|sv: SignatureView| sv.wf() && s == b64_encode(signature_encoding(sv))
}

/// The client-error message for the signature text that failed, naming it.
pub open spec fn sig_error_message(s: Seq<char>) -> Seq<char> {
    if !is_b64(s) {
        "bad base64 for signature "@ + s
    } else {
        "bad signature bytes for signature "@ + s
    }
}

/// The pipeline's entry point; it owns the caller-facing operations.
pub struct Mutation;

impl Mutation {
    /// Decodes the caller's input: the transaction text into a payload and
    /// each signature text into a signature, in order, stopping at the first
    /// failure with a client error that says what was malformed. Nothing is
    /// verified against the transaction here — that is the backend's job —
    /// and an empty signature list is accepted.
    pub fn decode_inputs(tx_bytes: &str, signatures: &Vec<String>) -> (r: Result<
        (TransactionData, Vec<Signature>),
        Error,
    >)
        ensures
            !is_b64(tx_bytes@) ==> (r matches Err(e) && e.is_client() && e.spec_message()
                == "bad base64 for transaction bytes"@),
            is_b64(tx_bytes@) && !tx_bytes_decodes(tx_bytes@) ==> (r matches Err(e)
                && e.is_client() && e.spec_message() == "bad binary encoding for transaction data"@),
            r matches Ok(v) ==> ({
                &&& tx_bytes_decodes(tx_bytes@)
                &&& v.0@.wf()
                &&& tx_bytes@ == b64_encode(tx_data_encoding(v.0@))
                &&& v.1@.len() == signatures@.len()
                &&& forall|i: int| 0 <= i < signatures@.len() ==> (#[trigger] v.1@[i])@.wf()
                    && signatures@[i]@ == b64_encode(signature_encoding(v.1@[i]@))
            }),
            tx_bytes_decodes(tx_bytes@) && (forall|i: int| 0 <= i < signatures@.len() ==> sig_ok(
                #[trigger] signatures@[i]@,
            )) ==> r is Ok,
            tx_bytes_decodes(tx_bytes@) && signatures@.len() == 0 ==> r is Ok,
            tx_bytes_decodes(tx_bytes@) && !(forall|i: int| 0 <= i < signatures@.len() ==> sig_ok(
                #[trigger] signatures@[i]@,
            )) ==> (r matches Err(e) && e.is_client() && exists|k: int|
                0 <= k < signatures@.len() && !sig_ok(#[trigger] signatures@[k]@) && (forall|j: int|
                    0 <= j < k ==> sig_ok(#[trigger] signatures@[j]@)) && e.spec_message()
                    == sig_error_message(signatures@[k]@)),
    {
        let tx_bin = match decode_base64(tx_bytes) {
            Some(b) => b,
            None => {
                return Err(Error::client("bad base64 for transaction bytes"));
            },
        };
        let tx_data = match decode_transaction_data(&tx_bin) {
            Some(t) => t,
            None => {
                proof {
                    assert forall|t: TransactionDataView|
                        !(t.wf() && tx_bytes@ == b64_encode(tx_data_encoding(t))) by {
                        if t.wf() && tx_bytes@ == b64_encode(tx_data_encoding(t)) {
                            assert(tx_bin@ == tx_data_encoding(t));
                            assert(crate::tx::is_tx_data_encoding(tx_bin@));
                        }
                    }
                }
                return Err(Error::client("bad binary encoding for transaction data"));
            },
        };
        proof {
            assert(tx_bytes_decodes(tx_bytes@));
        }
        let mut sigs: Vec<Signature> = Vec::new();
        let n: usize = signatures.len();
        let mut i: usize = 0;
        while i < n
            invariant
                i <= n,
                n == signatures@.len(),
                sigs@.len() == i,
                tx_data@.wf(),
                tx_bytes@ == b64_encode(tx_data_encoding(tx_data@)),
                tx_bytes_decodes(tx_bytes@),
                forall|j: int| 0 <= j < i ==> sig_ok(#[trigger] signatures@[j]@),
                forall|j: int| 0 <= j < i ==> (#[trigger] sigs@[j])@.wf() && signatures@[j]@
                    == b64_encode(signature_encoding(sigs@[j]@)),
            decreases n - i,
        {
            let s = &signatures[i];
            let bin = match decode_base64(s.as_str()) {
                Some(b) => b,
                None => {
                    proof {
                        assert(!sig_ok(signatures@[i as int]@)) by {
                            if sig_ok(signatures@[i as int]@) {
                                let sv = choose|sv: SignatureView|
                                    sv.wf() && signatures@[i as int]@ == b64_encode(
                                        signature_encoding(sv),
                                    );
                                assert(is_b64(signatures@[i as int]@));
                            }
                        }
                    }
                    let m = String::from_str("bad base64 for signature ").concat(s.as_str());
                    return Err(Error::Client(m));
                },
            };
            let sg = match parse_signature(&bin) {
                Some(sg) => sg,
                None => {
                    proof {
                        assert(!sig_ok(signatures@[i as int]@)) by {
                            if sig_ok(signatures@[i as int]@) {
                                let sv = choose|sv: SignatureView|
                                    sv.wf() && signatures@[i as int]@ == b64_encode(
                                        signature_encoding(sv),
                                    );
                                assert(bin@ == signature_encoding(sv));
                                assert(crate::sig::is_signature_encoding(bin@));
                            }
                        }
                    }
                    let m = String::from_str("bad signature bytes for signature ").concat(
                        s.as_str(),
                    );
                    return Err(Error::Client(m));
                },
            };
            sigs.push(sg);
            proof {
                assert(sig_ok(signatures@[i as int]@)) by {
                    assert(signatures@[i as int]@ == b64_encode(
                        signature_encoding(sigs@[i as int]@),
                    ));
                }
            }
            i = i + 1;
        }
        Ok((tx_data, sigs))
    }

    /// Runs the whole caller-facing half of one submission: decode the
    /// input, assemble the signed transaction, and fix the request — all
    /// four response facets and the wait-for-local-execution mode. A caller
    /// performs the backend call only with what this returns, so every
    /// malformed input fails here with a client error and no backend call is
    /// ever attempted for it.
    pub fn prepare(tx_bytes: &str, signatures: &Vec<String>) -> (r: Result<
        (SignedTransaction, ResponseOptions, ExecuteTransactionRequestType),
        Error,
    >)
        ensures
            !is_b64(tx_bytes@) ==> (r matches Err(e) && e.is_client() && e.spec_message()
                == "bad base64 for transaction bytes"@),
            is_b64(tx_bytes@) && !tx_bytes_decodes(tx_bytes@) ==> (r matches Err(e)
                && e.is_client() && e.spec_message() == "bad binary encoding for transaction data"@),
            r is Err ==> (r matches Err(e) && e.is_client()),
            r matches Ok(v) ==> ({
                &&& tx_bytes_decodes(tx_bytes@)
                &&& v.0@.data.wf()
                &&& tx_bytes@ == b64_encode(tx_data_encoding(v.0@.data))
                &&& v.0@.signatures.len() == signatures@.len()
                &&& forall|i: int| 0 <= i < signatures@.len() ==> (#[trigger] v.0@.signatures[i]).wf()
                    && signatures@[i]@ == b64_encode(signature_encoding(v.0@.signatures[i]))
                &&& v.1.show_events && v.1.show_balance_changes && v.1.show_raw_input
                    && v.1.show_raw_effects
                &&& v.2 == ExecuteTransactionRequestType::WaitForLocalExecution
            }),
            tx_bytes_decodes(tx_bytes@) && (forall|i: int| 0 <= i < signatures@.len() ==> sig_ok(
                #[trigger] signatures@[i]@,
            )) ==> r is Ok,
            tx_bytes_decodes(tx_bytes@) && !(forall|i: int| 0 <= i < signatures@.len() ==> sig_ok(
                #[trigger] signatures@[i]@,
            )) ==> (r matches Err(e) && e.is_client() && exists|k: int|
                0 <= k < signatures@.len() && !sig_ok(#[trigger] signatures@[k]@) && (forall|j: int|
                    0 <= j < k ==> sig_ok(#[trigger] signatures@[j]@)) && e.spec_message()
                    == sig_error_message(signatures@[k]@)),
    {
        let (data, sig_list) = match Mutation::decode_inputs(tx_bytes, signatures) {
            Ok(v) => v,
            Err(e) => {
                return Err(e);
            },
        };
        let transaction = SignedTransaction::assemble(data, sig_list);
        let (options, request_type) = submission_request();
        Ok((transaction, options, request_type))
    }
}

} // verus!
