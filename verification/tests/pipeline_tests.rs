use fastcrypto::encoding::Base64 as FcBase64;
use fastcrypto::encoding::Encoding as FcEncoding;

use tx_pipeline::adapter::{submission_request, ExecuteTransactionRequestType};
use tx_pipeline::encoding::{decode_base64, encode_base64};
use tx_pipeline::errors::Error;
use tx_pipeline::pipeline::Mutation;
use tx_pipeline::response::{
    normalize, BalanceChange, ExecutionResult, RawEvent, RawExecutionResponse,
};
use tx_pipeline::sig::{encode_signature, parse_signature};
use tx_pipeline::transaction::SignedTransaction;
use tx_pipeline::tx::{decode_transaction_data, encode_transaction_data};

fn tx_bin(sender: [u8; 32], gas_budget: u64, gas_price: u64, payload: &[u8]) -> Vec<u8> {
    bcs::to_bytes(&(sender, gas_budget, gas_price, payload.to_vec())).unwrap()
}

fn tx_b64(sender: [u8; 32], gas_budget: u64, gas_price: u64, payload: &[u8]) -> String {
    FcBase64::encode(tx_bin(sender, gas_budget, gas_price, payload))
}

fn ed25519_sig_bytes() -> Vec<u8> {
    let mut v = vec![0u8];
    v.extend(std::iter::repeat(7u8).take(64));
    v.extend(std::iter::repeat(9u8).take(32));
    v
}

fn effects_bin(epoch: u64, digest: [u8; 32]) -> Vec<u8> {
    bcs::to_bytes(&(epoch, digest)).unwrap()
}

fn signed_tx_bin(
    sender: [u8; 32],
    gas_budget: u64,
    gas_price: u64,
    payload: &[u8],
    sigs: Vec<Vec<u8>>,
) -> Vec<u8> {
    bcs::to_bytes(&(sender, gas_budget, gas_price, payload.to_vec(), sigs)).unwrap()
}

fn good_response(errors: Vec<String>) -> RawExecutionResponse {
    RawExecutionResponse {
        raw_effects: effects_bin(3, [5u8; 32]),
        raw_transaction: signed_tx_bin([1u8; 32], 100, 10, &[8, 8], vec![ed25519_sig_bytes()]),
        events: Some(vec![RawEvent {
            package_id: vec![2u8; 32],
            module_name: "coin".to_string(),
            sender_address: vec![1u8; 32],
            type_tag: "TransferEvent".to_string(),
            contents: vec![4, 5, 6],
        }]),
        balance_changes: Some(vec![BalanceChange {
            owner: vec![1u8; 32],
            coin_type: "gas".to_string(),
            amount: -42,
        }]),
        errors,
    }
}

#[test]
fn malformed_base64_is_a_client_error() {
    let r = Mutation::decode_inputs("!!!not-base64!!!", &vec![]);
    match r {
        Err(Error::Client(m)) => assert_eq!(m, "bad base64 for transaction bytes"),
        _ => panic!("expected a client error"),
    }
}

#[test]
fn malformed_base64_fails_before_any_submission_exists() {
    // `prepare` is the only way to obtain something submittable; on
    // malformed Base64 it yields no transaction at all.
    let r = Mutation::prepare("////----", &vec![]);
    assert!(matches!(r, Err(Error::Client(_))));
}

#[test]
fn bad_binary_encoding_is_a_client_error() {
    let text = FcBase64::encode([1u8, 2, 3]);
    let r = Mutation::decode_inputs(text.as_str(), &vec![]);
    match r {
        Err(Error::Client(m)) => assert_eq!(m, "bad binary encoding for transaction data"),
        _ => panic!("expected a client error"),
    }
}

#[test]
fn well_formed_bytes_with_zero_signatures_decode_and_assemble() {
    let text = tx_b64([1u8; 32], 1000, 1, &[1, 2, 3]);
    let (data, sigs) = Mutation::decode_inputs(text.as_str(), &vec![]).unwrap();
    assert_eq!(data.sender, vec![1u8; 32]);
    assert_eq!(data.gas_budget, 1000);
    assert_eq!(data.gas_price, 1);
    assert_eq!(data.payload, vec![1, 2, 3]);
    assert!(sigs.is_empty());
    let t = SignedTransaction::assemble(data, sigs);
    assert_eq!(t.signatures.len(), 0);
}

#[test]
fn decode_then_reencode_is_byte_identical() {
    let bin = tx_bin([9u8; 32], 77, 3, &[10, 20, 30, 40]);
    let text = FcBase64::encode(&bin);
    let decoded_bin = decode_base64(text.as_str()).unwrap();
    assert_eq!(decoded_bin, bin);
    let data = decode_transaction_data(&decoded_bin).unwrap();
    let reencoded_bin = encode_transaction_data(&data);
    assert_eq!(reencoded_bin, bin);
    let reencoded_text = encode_base64(&reencoded_bin);
    assert_eq!(reencoded_text, text);
}

#[test]
fn base64_helpers_match_the_standard_encoding() {
    assert_eq!(decode_base64("AQID").unwrap(), vec![1u8, 2, 3]);
    assert_eq!(encode_base64(&vec![1u8, 2, 3]), "AQID");
    assert_eq!(encode_base64(&vec![]), "");
    assert_eq!(decode_base64("AQ==").unwrap(), vec![1u8]);
    assert!(decode_base64("AQ").is_none());
    assert!(decode_base64("AR==").is_none());
}

#[test]
fn signature_parse_and_encode_round_trip() {
    let bytes = ed25519_sig_bytes();
    let s = parse_signature(&bytes).unwrap();
    assert_eq!(s.flag, 0);
    assert_eq!(s.signature, vec![7u8; 64]);
    assert_eq!(s.public_key, vec![9u8; 32]);
    assert_eq!(encode_signature(&s), bytes);
}

#[test]
fn signature_parse_rejects_bad_input() {
    assert!(parse_signature(&vec![]).is_none());
    // unrecognized flag
    let mut v = ed25519_sig_bytes();
    v[0] = 9;
    assert!(parse_signature(&v).is_none());
    // wrong length for the scheme
    let mut w = ed25519_sig_bytes();
    w.pop();
    assert!(parse_signature(&w).is_none());
    // secp256k1 takes a 33-byte public key
    let mut k = vec![1u8];
    k.extend(std::iter::repeat(3u8).take(64));
    k.extend(std::iter::repeat(4u8).take(33));
    let s = parse_signature(&k).unwrap();
    assert_eq!(s.flag, 1);
    assert_eq!(s.public_key.len(), 33);
}

#[test]
fn bad_signature_base64_names_the_signature() {
    let text = tx_b64([1u8; 32], 1000, 1, &[1]);
    let sigs = vec!["@@bad@@".to_string()];
    let r = Mutation::decode_inputs(text.as_str(), &sigs);
    match r {
        Err(Error::Client(m)) => assert_eq!(m, "bad base64 for signature @@bad@@"),
        _ => panic!("expected a client error"),
    }
}

#[test]
fn bad_signature_bytes_name_the_signature() {
    let text = tx_b64([1u8; 32], 1000, 1, &[1]);
    let sig_text = FcBase64::encode([9u8, 9, 9]);
    let sigs = vec![sig_text.clone()];
    let r = Mutation::decode_inputs(text.as_str(), &sigs);
    match r {
        Err(Error::Client(m)) => {
            assert_eq!(m, format!("bad signature bytes for signature {sig_text}"))
        }
        _ => panic!("expected a client error"),
    }
}

#[test]
fn first_failing_signature_aborts_the_decode() {
    let text = tx_b64([1u8; 32], 1000, 1, &[1]);
    let good = FcBase64::encode(ed25519_sig_bytes());
    let sigs = vec![good, "!?".to_string()];
    let r = Mutation::decode_inputs(text.as_str(), &sigs);
    match r {
        Err(Error::Client(m)) => assert_eq!(m, "bad base64 for signature !?"),
        _ => panic!("expected a client error"),
    }
}

#[test]
fn prepare_requests_all_facets_and_local_execution() {
    let text = tx_b64([1u8; 32], 1000, 1, &[1]);
    let good = FcBase64::encode(ed25519_sig_bytes());
    let (t, options, request_type) = Mutation::prepare(text.as_str(), &vec![good]).unwrap();
    assert_eq!(t.signatures.len(), 1);
    assert!(options.show_events);
    assert!(options.show_balance_changes);
    assert!(options.show_raw_input);
    assert!(options.show_raw_effects);
    assert!(matches!(
        request_type,
        ExecuteTransactionRequestType::WaitForLocalExecution
    ));
    let (options2, _) = submission_request();
    assert!(options2.show_events && options2.show_raw_effects);
}

#[test]
fn backend_errors_short_circuit_even_without_facets() {
    let resp = RawExecutionResponse {
        raw_effects: vec![],
        raw_transaction: vec![],
        events: None,
        balance_changes: None,
        errors: vec!["insufficient gas".to_string()],
    };
    match normalize(resp) {
        Ok(ExecutionResult::Failure { errors }) => {
            assert_eq!(errors, vec!["insufficient gas".to_string()])
        }
        _ => panic!("expected a clean error result"),
    }
}

#[test]
fn missing_events_facet_is_an_internal_error() {
    let mut resp = good_response(vec![]);
    resp.events = None;
    match normalize(resp) {
        Err(Error::Internal(m)) => assert_eq!(m, "missing events facet"),
        _ => panic!("expected an internal error"),
    }
}

#[test]
fn missing_balance_changes_facet_is_an_internal_error() {
    let mut resp = good_response(vec![]);
    resp.balance_changes = None;
    match normalize(resp) {
        Err(Error::Internal(m)) => assert_eq!(m, "missing balance-changes facet"),
        _ => panic!("expected an internal error"),
    }
}

#[test]
fn malformed_backend_effects_are_an_internal_error() {
    let mut resp = good_response(vec![]);
    resp.raw_effects = vec![1, 2];
    match normalize(resp) {
        Err(Error::Internal(m)) => assert_eq!(m, "malformed effects from backend"),
        _ => panic!("expected an internal error"),
    }
}

#[test]
fn malformed_backend_transaction_is_an_internal_error() {
    let mut resp = good_response(vec![]);
    resp.raw_transaction = vec![0; 3];
    match normalize(resp) {
        Err(Error::Internal(m)) => assert_eq!(m, "malformed transaction data from backend"),
        _ => panic!("expected an internal error"),
    }
}

#[test]
fn successful_execution_populates_effects() {
    let resp = good_response(vec![]);
    let raw_effects_in = resp.raw_effects.clone();
    match normalize(resp) {
        Ok(ExecutionResult::Success {
            effects,
            raw_effects,
        }) => {
            assert_eq!(raw_effects, raw_effects_in);
            assert_eq!(effects.effects.executed_epoch, 3);
            assert_eq!(effects.effects.digest, vec![5u8; 32]);
            assert_eq!(effects.sender_signed_data.data.gas_budget, 100);
            assert_eq!(effects.sender_signed_data.signatures.len(), 1);
            assert_eq!(effects.sender_signed_data.signatures[0].flag, 0);
            assert_eq!(effects.events.len(), 1);
            assert_eq!(effects.events[0].module_name, "coin");
            assert_eq!(effects.events[0].contents, vec![4, 5, 6]);
            assert_eq!(effects.balance_changes.len(), 1);
            assert_eq!(effects.balance_changes[0].amount, -42);
        }
        _ => panic!("expected a populated success result"),
    }
}

#[test]
fn end_to_end_success_scenario() {
    let text = tx_b64([1u8; 32], 100, 10, &[8, 8]);
    let sig = FcBase64::encode(ed25519_sig_bytes());
    let (transaction, options, _request_type) =
        Mutation::prepare(text.as_str(), &vec![sig]).unwrap();
    assert!(options.show_events && options.show_balance_changes);
    assert_eq!(transaction.data.sender, vec![1u8; 32]);
    // a backend double answers with the matching response
    let resp = good_response(vec![]);
    let out = normalize(resp).unwrap();
    match out {
        ExecutionResult::Success { effects, .. } => {
            assert_eq!(
                effects.sender_signed_data.data.sender,
                transaction.data.sender
            );
            assert_eq!(
                effects.sender_signed_data.signatures[0].signature,
                transaction.signatures[0].signature
            );
        }
        ExecutionResult::Failure { .. } => panic!("expected success"),
    }
}

#[test]
fn submission_failure_is_an_internal_error() {
    let e = tx_pipeline::adapter::submission_failure("connection reset");
    match e {
        Error::Internal(m) => assert_eq!(m, "submission failed: connection reset"),
        _ => panic!("expected an internal error"),
    }
}

#[test]
fn error_kind_accessors_tell_the_classes_apart() {
    let c = Error::client("x");
    let i = Error::internal("y");
    assert!(c.is_client_error());
    assert!(!i.is_client_error());
    assert_eq!(c.message(), "x");
    assert_eq!(i.message(), "y");
}

#[test]
fn empty_facets_are_not_absent_facets() {
    // absent means a backend contract violation; present-but-empty is a
    // perfectly fine execution that emitted nothing.
    let mut resp = good_response(vec![]);
    resp.events = Some(vec![]);
    resp.balance_changes = Some(vec![]);
    match normalize(resp) {
        Ok(ExecutionResult::Success { effects, .. }) => {
            assert!(effects.events.is_empty());
            assert!(effects.balance_changes.is_empty());
        }
        _ => panic!("expected success with empty facets"),
    }
}

#[test]
fn empty_payload_round_trips() {
    let text = tx_b64([0u8; 32], 0, 0, &[]);
    let (data, _) = Mutation::decode_inputs(text.as_str(), &vec![]).unwrap();
    assert_eq!(data.payload, Vec::<u8>::new());
    assert_eq!(encode_base64(&encode_transaction_data(&data)), text);
}

#[test]
fn secp256r1_signatures_decode() {
    let mut v = vec![2u8];
    v.extend(std::iter::repeat(1u8).take(64));
    v.extend(std::iter::repeat(2u8).take(33));
    let text = tx_b64([1u8; 32], 1, 1, &[1]);
    let sigs = vec![FcBase64::encode(&v)];
    let (_, decoded) = Mutation::decode_inputs(text.as_str(), &sigs).unwrap();
    assert_eq!(decoded.len(), 1);
    assert_eq!(decoded[0].flag, 2);
    assert_eq!(decoded[0].public_key, vec![2u8; 33]);
}

#[test]
fn trailing_bytes_are_a_bad_binary_encoding() {
    let mut bin = tx_bin([1u8; 32], 1, 1, &[1]);
    bin.push(0);
    let text = FcBase64::encode(&bin);
    let r = Mutation::decode_inputs(text.as_str(), &vec![]);
    match r {
        Err(Error::Client(m)) => assert_eq!(m, "bad binary encoding for transaction data"),
        _ => panic!("expected a client error"),
    }
}
