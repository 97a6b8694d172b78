use state_bridge::sequence::{collect, reversed, transpose};
use state_bridge::storage_proto::{
    GetAccountStateWithProofByVersionRequest, GetAccountStateWithProofByVersionResponse,
    GetLatestLedgerInfosPerEpochRequest, GetLatestLedgerInfosPerEpochRequestProto,
    GetLatestLedgerInfosPerEpochResponse, GetStartupInfoResponse, GetTransactionsRequest,
    GetTransactionsRequestProto, GetTransactionsResponse, SaveTransactionsRequest, StartupInfo,
};
use state_bridge::types::HashValue;

fn hash(low: u128) -> HashValue {
    HashValue { high: 7, low }
}

fn ok<T>(value: T) -> Result<T, String> {
    Ok(value)
}

fn bad<T>(reason: &str) -> Result<T, String> {
    Err(reason.to_string())
}

#[test]
fn reversed_turns_the_order() {
    assert_eq!(reversed(vec![1, 2, 3]), vec![3, 2, 1]);
    assert_eq!(reversed(Vec::<u8>::new()), Vec::<u8>::new());
}

#[test]
fn collect_keeps_order() {
    assert_eq!(collect(vec![ok(1), ok(2), ok(3)]), Ok(vec![1, 2, 3]));
    assert_eq!(collect(Vec::<Result<u8, String>>::new()), Ok(Vec::new()));
}

#[test]
fn collect_gives_the_first_failure() {
    assert_eq!(collect(vec![ok(1), bad("second"), ok(3), bad("fourth")]), Err("second".to_string()));
    assert_eq!(collect(vec![bad::<u8>("first")]), Err("first".to_string()));
    assert_eq!(collect(vec![ok(1), ok(2), bad("last")]), Err("last".to_string()));
}

#[test]
fn transpose_turns_inside_out() {
    assert_eq!(transpose(Some(ok(4))), Ok(Some(4)));
    assert_eq!(transpose(Some(bad::<u8>("no"))), Err("no".to_string()));
    assert_eq!(transpose(None::<Result<u8, String>>), Ok(None));
}

#[test]
fn account_state_request_round_trip() {
    let request = GetAccountStateWithProofByVersionRequest::new(vec![9u8; 32], 11);
    let (address, version) = request.clone().into_proto();
    assert_eq!(address, vec![9u8; 32]);
    assert_eq!(version, 11);
    assert_eq!(
        GetAccountStateWithProofByVersionRequest::try_from_proto(ok(address), version),
        Ok(request)
    );
}

#[test]
fn account_state_request_rejects_bad_address() {
    assert_eq!(
        GetAccountStateWithProofByVersionRequest::<Vec<u8>>::try_from_proto(bad("address of 3 bytes"), 11),
        Err("address of 3 bytes".to_string())
    );
}

#[test]
fn account_state_response_round_trip() {
    let with_blob = GetAccountStateWithProofByVersionResponse::new(Some(vec![1u8, 2]), "proof".to_string());
    let (blob, proof) = with_blob.clone().into_proto();
    assert_eq!(blob, Some(vec![1u8, 2]));
    assert_eq!(proof, Some("proof".to_string()));
    assert_eq!(
        GetAccountStateWithProofByVersionResponse::try_from_proto(blob.map(ok), ok("proof".to_string())),
        Ok(with_blob)
    );
    let without = GetAccountStateWithProofByVersionResponse::<Vec<u8>, String>::new(None, "absent".to_string());
    assert_eq!(
        GetAccountStateWithProofByVersionResponse::try_from_proto(None, ok("absent".to_string())),
        Ok(without.clone())
    );
    assert_eq!(without.into_parts(), (None, "absent".to_string()));
}

#[test]
fn account_state_response_fails_on_the_blob_first() {
    assert_eq!(
        GetAccountStateWithProofByVersionResponse::<Vec<u8>, String>::try_from_proto(
            Some(bad("blob")),
            bad("proof")
        ),
        Err("blob".to_string())
    );
    assert_eq!(
        GetAccountStateWithProofByVersionResponse::<Vec<u8>, String>::try_from_proto(
            Some(ok(vec![1])),
            bad("proof")
        ),
        Err("proof".to_string())
    );
}

#[test]
fn save_transactions_round_trip() {
    let request = SaveTransactionsRequest::new(vec![10u32, 20, 30], 5, Some("info".to_string()));
    let (txns, first_version, info) = request.clone().into_proto();
    assert_eq!(txns, vec![10, 20, 30]);
    assert_eq!(first_version, 5);
    assert_eq!(info, Some("info".to_string()));
    assert_eq!(
        SaveTransactionsRequest::try_from_proto(txns.into_iter().map(ok).collect(), first_version, info.map(ok)),
        Ok(request)
    );
    assert_eq!(
        SaveTransactionsRequest::<u32, String>::try_from_proto::<String>(Vec::new(), 0, None),
        Ok(SaveTransactionsRequest::new(Vec::new(), 0, None))
    );
}

#[test]
fn save_transactions_fails_on_the_first_bad_field() {
    assert_eq!(
        SaveTransactionsRequest::<u32, String>::try_from_proto(
            vec![ok(1), bad("txn 1"), bad("txn 2")],
            5,
            Some(bad("info"))
        ),
        Err("txn 1".to_string())
    );
    assert_eq!(
        SaveTransactionsRequest::<u32, String>::try_from_proto(vec![ok(1)], 5, Some(bad("info"))),
        Err("info".to_string())
    );
}

#[test]
fn get_transactions_request_round_trip() {
    let request = GetTransactionsRequest::new(3, 100, 250, true);
    let proto = request.into_proto();
    assert_eq!(
        proto,
        GetTransactionsRequestProto { start_version: 3, batch_size: 100, ledger_version: 250, fetch_events: true }
    );
    assert_eq!(GetTransactionsRequest::try_from_proto(proto), request);
}

#[test]
fn get_transactions_response_round_trip() {
    let response = GetTransactionsResponse::new(vec![1u8, 2, 3]);
    let field = response.clone().into_proto();
    assert_eq!(field, Some(vec![1u8, 2, 3]));
    assert_eq!(GetTransactionsResponse::try_from_proto(ok(vec![1u8, 2, 3])), Ok(response));
    assert_eq!(
        GetTransactionsResponse::<Vec<u8>>::try_from_proto(bad("list")),
        Err("list".to_string())
    );
}

#[test]
fn startup_info_round_trip() {
    let info = StartupInfo {
        ledger_info: "ledger".to_string(),
        latest_version: 77,
        account_state_root_hash: hash(1),
        ledger_frozen_subtree_hashes: vec![hash(2), hash(3)],
    };
    let (ledger_info, latest_version, root, frozen) = info.clone().into_proto();
    assert_eq!(ledger_info, Some("ledger".to_string()));
    assert_eq!(latest_version, 77);
    assert_eq!(root, hash(1));
    assert_eq!(frozen, vec![hash(2), hash(3)]);
    assert_eq!(
        StartupInfo::try_from_proto(
            ok("ledger".to_string()),
            latest_version,
            ok(root),
            frozen.into_iter().map(ok).collect()
        ),
        Ok(info)
    );
}

#[test]
fn startup_info_fails_on_the_first_bad_field() {
    assert_eq!(
        StartupInfo::<String>::try_from_proto(bad("ledger"), 1, bad("root"), vec![bad("frozen")]),
        Err("ledger".to_string())
    );
    assert_eq!(
        StartupInfo::<String>::try_from_proto(ok("l".to_string()), 1, bad("root"), vec![bad("frozen")]),
        Err("root".to_string())
    );
    assert_eq!(
        StartupInfo::<String>::try_from_proto(
            ok("l".to_string()),
            1,
            ok(hash(1)),
            vec![ok(hash(2)), bad("frozen 1"), bad("frozen 2")]
        ),
        Err("frozen 1".to_string())
    );
}

#[test]
fn startup_info_response_round_trip() {
    let info = StartupInfo {
        ledger_info: 4u8,
        latest_version: 1,
        account_state_root_hash: hash(1),
        ledger_frozen_subtree_hashes: Vec::new(),
    };
    let response = GetStartupInfoResponse { info: Some(info.clone()) };
    assert_eq!(response.clone().into_proto(), Some(info.clone()));
    assert_eq!(GetStartupInfoResponse::try_from_proto(Some(ok(info))), Ok(response));
    assert_eq!(
        GetStartupInfoResponse::<u8>::try_from_proto(None::<Result<StartupInfo<u8>, String>>),
        Ok(GetStartupInfoResponse { info: None })
    );
    assert_eq!(
        GetStartupInfoResponse::<u8>::try_from_proto(Some(bad("info"))),
        Err("info".to_string())
    );
}

#[test]
fn latest_ledger_infos_request_round_trip() {
    let request = GetLatestLedgerInfosPerEpochRequest::new(6);
    let proto = request.into_proto();
    assert_eq!(proto, GetLatestLedgerInfosPerEpochRequestProto { start_epoch: 6 });
    assert_eq!(GetLatestLedgerInfosPerEpochRequest::try_from_proto(proto), request);
}

#[test]
fn latest_ledger_infos_response_round_trip() {
    let response = GetLatestLedgerInfosPerEpochResponse::new(vec![1u64, 2, 3]);
    let list = response.clone().into_proto();
    assert_eq!(list, vec![1, 2, 3]);
    assert_eq!(
        GetLatestLedgerInfosPerEpochResponse::try_from_proto(list.into_iter().map(ok).collect()),
        Ok(response)
    );
    assert_eq!(
        GetLatestLedgerInfosPerEpochResponse::<u64>::try_from_proto(vec![ok(1), bad("second")]),
        Err("second".to_string())
    );
}
