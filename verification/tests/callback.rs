use cosmos_sdk_proto::Any;
use cosmos_sdk_proto::cosmos::bank::v1beta1::MsgSend;
use cosmos_sdk_proto::cosmos::base::v1beta1::Coin;
use cosmos_sdk_proto::cosmos::tx::v1beta1::{TxBody, TxRaw};
use cosmos_sdk_proto::prost::Message;

use transfer_ledger::contract::{ContractState, SudoMsg};
use transfer_ledger::errors::ContractError;
use transfer_ledger::filter::RegisteredFilter;
use transfer_ledger::messages::TransferRecord;

const SEND_URL: &str = "/cosmos.bank.v1beta1.MsgSend";

fn send_any(from: &str, to: &str, coins: &[(&str, &str)]) -> Any {
    let msg = MsgSend {
        from_address: from.to_string(),
        to_address: to.to_string(),
        amount: coins
            .iter()
            .map(|(amount, denom)| Coin {
                denom: denom.to_string(),
                amount: amount.to_string(),
            })
            .collect(),
    };
    Any {
        type_url: SEND_URL.to_string(),
        value: msg.encode_to_vec(),
    }
}

fn envelope(messages: Vec<Any>) -> Vec<u8> {
    let body = TxBody {
        messages,
        ..Default::default()
    };
    let raw = TxRaw {
        body_bytes: body.encode_to_vec(),
        ..Default::default()
    };
    raw.encode_to_vec()
}

fn state_with_filter(query_id: u64, payload: &str) -> ContractState {
    let mut state = ContractState::new();
    state.registry.register(
        query_id,
        RegisteredFilter {
            query_type: "tx".to_string(),
            transactions_filter: payload.to_string(),
        },
    );
    state
}

fn record_tuple(r: &TransferRecord) -> (String, String, String, String) {
    (
        r.sender.clone(),
        r.amount.clone(),
        r.denom.clone(),
        r.recipient.clone(),
    )
}

#[test]
fn matching_instruction_is_recorded() {
    let mut state = state_with_filter(7, "{\"transfer.recipient\": \"addr1\"}");
    let data = envelope(vec![
        send_any("addrX", "addr1", &[("100", "denomA"), ("50", "denomB")]),
        send_any("addrW", "addrY", &[("1", "denomA")]),
    ]);

    let r = state.sudo_tx_query_result(7, 1000, &data);
    assert_eq!(r, Ok(()));

    let resp = state.query_recipient_txs(&"addr1".to_string());
    let got: Vec<_> = resp.transfers.iter().map(record_tuple).collect();
    assert_eq!(
        got,
        vec![
            (
                "addrX".to_string(),
                "100".to_string(),
                "denomA".to_string(),
                "addr1".to_string()
            ),
            (
                "addrX".to_string(),
                "50".to_string(),
                "denomB".to_string(),
                "addr1".to_string()
            ),
        ]
    );

    let other = state.query_recipient_txs(&"addrY".to_string());
    assert!(other.transfers.is_empty());
}

#[test]
fn no_matching_instruction_is_rejected() {
    let mut state = state_with_filter(7, "{\"transfer.recipient\": \"addr1\"}");
    let data = envelope(vec![send_any("addrX", "addrZ", &[("100", "denomA")])]);

    let r = state.sudo_tx_query_result(7, 1000, &data);
    assert_eq!(r, Err(ContractError::NoMatch));

    let resp = state.query_recipient_txs(&"addr1".to_string());
    assert!(resp.transfers.is_empty());
}

#[test]
fn rejected_call_leaves_history_unchanged() {
    let mut state = state_with_filter(7, "{\"transfer.recipient\": \"addr1\"}");
    let accepted = envelope(vec![send_any("addrX", "addr1", &[("100", "denomA")])]);
    assert_eq!(state.sudo_tx_query_result(7, 1, &accepted), Ok(()));
    let before: Vec<_> = state
        .query_recipient_txs(&"addr1".to_string())
        .transfers
        .iter()
        .map(record_tuple)
        .collect();

    let rejected = envelope(vec![send_any("addrX", "addrZ", &[("5", "denomA")])]);
    assert_eq!(
        state.sudo_tx_query_result(7, 2, &rejected),
        Err(ContractError::NoMatch)
    );

    let after: Vec<_> = state
        .query_recipient_txs(&"addr1".to_string())
        .transfers
        .iter()
        .map(record_tuple)
        .collect();
    assert_eq!(before, after);
}

#[test]
fn resubmission_appends_records_again() {
    let mut state = state_with_filter(7, "{\"transfer.recipient\": \"addr1\"}");
    let data = envelope(vec![send_any(
        "addrX",
        "addr1",
        &[("100", "denomA"), ("50", "denomB")],
    )]);

    assert_eq!(state.sudo_tx_query_result(7, 1, &data), Ok(()));
    assert_eq!(
        state.query_recipient_txs(&"addr1".to_string()).transfers.len(),
        2
    );

    assert_eq!(state.sudo_tx_query_result(7, 2, &data), Ok(()));
    let resp = state.query_recipient_txs(&"addr1".to_string());
    assert_eq!(resp.transfers.len(), 4);
    let got: Vec<_> = resp.transfers.iter().map(|r| r.amount.clone()).collect();
    assert_eq!(got, vec!["100", "50", "100", "50"]);
}

#[test]
fn unregistered_query_is_not_found() {
    let mut state = state_with_filter(7, "{\"transfer.recipient\": \"addr1\"}");
    let data = envelope(vec![send_any("addrX", "addr1", &[("100", "denomA")])]);

    let r = state.sudo_tx_query_result(8, 1000, &data);
    assert_eq!(r, Err(ContractError::NotFound));
    assert!(state
        .query_recipient_txs(&"addr1".to_string())
        .transfers
        .is_empty());
}

#[test]
fn corrupted_outer_envelope_is_malformed() {
    let mut state = state_with_filter(7, "{\"transfer.recipient\": \"addr1\"}");
    // Field 1, length-delimited, announcing more bytes than are present.
    let data = vec![0x0a, 0xff];

    let r = state.sudo_tx_query_result(7, 1000, &data);
    assert_eq!(r, Err(ContractError::Malformed));
    assert!(state
        .query_recipient_txs(&"addr1".to_string())
        .transfers
        .is_empty());
}

#[test]
fn corrupted_inner_body_is_malformed() {
    let mut state = state_with_filter(7, "{\"transfer.recipient\": \"addr1\"}");
    let raw = TxRaw {
        body_bytes: vec![0x0a, 0xff],
        ..Default::default()
    };
    let data = raw.encode_to_vec();

    let r = state.sudo_tx_query_result(7, 1000, &data);
    assert_eq!(r, Err(ContractError::Malformed));
}

#[test]
fn truncated_envelope_is_malformed() {
    let mut state = state_with_filter(7, "{\"transfer.recipient\": \"addr1\"}");
    let mut data = envelope(vec![send_any("addrX", "addr1", &[("100", "denomA")])]);
    data.truncate(data.len() - 1);

    let r = state.sudo_tx_query_result(7, 1000, &data);
    assert_eq!(r, Err(ContractError::Malformed));
}

#[test]
fn corrupt_payment_instruction_is_malformed() {
    let mut state = state_with_filter(7, "{\"transfer.recipient\": \"addr1\"}");
    let data = envelope(vec![Any {
        type_url: SEND_URL.to_string(),
        value: vec![0x0a, 0xff],
    }]);

    let r = state.sudo_tx_query_result(7, 1000, &data);
    assert_eq!(r, Err(ContractError::Malformed));
}

#[test]
fn unrecognized_tags_are_skipped_not_errors() {
    let mut state = state_with_filter(7, "{\"transfer.recipient\": \"addr1\"}");
    let data = envelope(vec![
        Any {
            type_url: "/cosmos.staking.v1beta1.MsgDelegate".to_string(),
            value: vec![0x0a, 0xff],
        },
        send_any("addrX", "addr1", &[("100", "denomA")]),
    ]);

    let r = state.sudo_tx_query_result(7, 1000, &data);
    assert_eq!(r, Ok(()));
    assert_eq!(
        state.query_recipient_txs(&"addr1".to_string()).transfers.len(),
        1
    );
}

#[test]
fn filter_payload_that_is_not_json_is_malformed() {
    let mut state = state_with_filter(7, "not json at all");
    let data = envelope(vec![send_any("addrX", "addr1", &[("100", "denomA")])]);

    let r = state.sudo_tx_query_result(7, 1000, &data);
    assert_eq!(r, Err(ContractError::Malformed));
}

#[test]
fn filter_payload_without_recipient_field_is_malformed() {
    let mut state = state_with_filter(7, "{\"something.else\": \"addr1\"}");
    let data = envelope(vec![send_any("addrX", "addr1", &[("100", "denomA")])]);

    let r = state.sudo_tx_query_result(7, 1000, &data);
    assert_eq!(r, Err(ContractError::Malformed));
}

#[test]
fn filter_payload_with_extra_fields_still_matches() {
    let mut state =
        state_with_filter(7, "{\"other.key\": \"x\", \"transfer.recipient\": \"addr1\"}");
    let data = envelope(vec![send_any("addrX", "addr1", &[("100", "denomA")])]);

    let r = state.sudo_tx_query_result(7, 1000, &data);
    assert_eq!(r, Ok(()));
}

#[test]
fn empty_body_has_no_match() {
    let mut state = state_with_filter(7, "{\"transfer.recipient\": \"addr1\"}");
    let data = envelope(vec![]);

    let r = state.sudo_tx_query_result(7, 1000, &data);
    assert_eq!(r, Err(ContractError::NoMatch));
}

#[test]
fn reading_recipient_with_no_history_is_empty() {
    let state = ContractState::new();
    let resp = state.query_recipient_txs(&"addr1".to_string());
    assert!(resp.transfers.is_empty());
}

#[test]
fn get_registered_query_returns_the_filter() {
    let state = state_with_filter(7, "{\"transfer.recipient\": \"addr1\"}");
    let f = state.get_registered_query(7).unwrap();
    assert_eq!(f.query_type, "tx");
    assert_eq!(f.transactions_filter, "{\"transfer.recipient\": \"addr1\"}");
    match state.get_registered_query(8) {
        Err(e) => assert_eq!(e, ContractError::NotFound),
        Ok(_) => panic!("expected NotFound"),
    }
}

#[test]
fn reregistering_replaces_the_filter() {
    let mut state = state_with_filter(7, "{\"transfer.recipient\": \"addr1\"}");
    state.registry.register(
        7,
        RegisteredFilter {
            query_type: "tx".to_string(),
            transactions_filter: "{\"transfer.recipient\": \"addr2\"}".to_string(),
        },
    );
    let mut data = envelope(vec![send_any("addrX", "addr1", &[("100", "denomA")])]);
    assert_eq!(
        state.sudo_tx_query_result(7, 1, &data),
        Err(ContractError::NoMatch)
    );
    data = envelope(vec![send_any("addrX", "addr2", &[("100", "denomA")])]);
    assert_eq!(state.sudo_tx_query_result(7, 2, &data), Ok(()));
}

#[test]
fn sudo_routes_tx_and_kv_messages() {
    let mut state = state_with_filter(7, "{\"transfer.recipient\": \"addr1\"}");
    let data = envelope(vec![send_any("addrX", "addr1", &[("100", "denomA")])]);

    let tx = SudoMsg::TxQueryResult {
        query_id: 7,
        height: 1000,
        data,
    };
    assert_eq!(state.sudo(&tx), Ok(()));
    assert_eq!(
        state.query_recipient_txs(&"addr1".to_string()).transfers.len(),
        1
    );

    let kv = SudoMsg::KVQueryResult { query_id: 7 };
    assert_eq!(state.sudo(&kv), Ok(()));
    assert_eq!(
        state.query_recipient_txs(&"addr1".to_string()).transfers.len(),
        1
    );
}

#[test]
fn kv_query_result_is_a_no_op_success() {
    let mut state = ContractState::new();
    assert_eq!(state.sudo_kv_query_result(42), Ok(()));
    assert!(state
        .query_recipient_txs(&"anyone".to_string())
        .transfers
        .is_empty());
}

#[test]
fn error_variants_are_distinct_and_described() {
    let all = [
        ContractError::Malformed,
        ContractError::NotFound,
        ContractError::NoMatch,
        ContractError::Upstream,
    ];
    for (i, a) in all.iter().enumerate() {
        assert!(!a.describe().is_empty());
        for (j, b) in all.iter().enumerate() {
            assert_eq!(i == j, a == b);
        }
    }
    assert_eq!(
        ContractError::NoMatch.describe(),
        "failed to find a matching transaction message"
    );
}

#[test]
fn histories_of_two_recipients_are_independent() {
    let mut state = state_with_filter(7, "{\"transfer.recipient\": \"addr1\"}");
    state.registry.register(
        9,
        RegisteredFilter {
            query_type: "tx".to_string(),
            transactions_filter: "{\"transfer.recipient\": \"addr2\"}".to_string(),
        },
    );
    let one = envelope(vec![send_any("addrX", "addr1", &[("100", "denomA")])]);
    let two = envelope(vec![send_any("addrY", "addr2", &[("7", "denomB")])]);
    assert_eq!(state.sudo_tx_query_result(7, 1, &one), Ok(()));
    assert_eq!(state.sudo_tx_query_result(9, 2, &two), Ok(()));

    let a = state.query_recipient_txs(&"addr1".to_string());
    let b = state.query_recipient_txs(&"addr2".to_string());
    assert_eq!(a.transfers.len(), 1);
    assert_eq!(record_tuple(&a.transfers[0]).0, "addrX");
    assert_eq!(b.transfers.len(), 1);
    assert_eq!(record_tuple(&b.transfers[0]).3, "addr2");
}
