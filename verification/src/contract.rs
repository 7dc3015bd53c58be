use vstd::prelude::*;

use crate::codec::{body_sub_messages, decode_body, decode_envelope, envelope_body_bytes};
use crate::errors::ContractError;
use crate::filter::{RegisteredFilter, RegisteredFilterView, filter_target_recipient,
    parse_recipient_filter};
use crate::ledger::{RecipientLedger, history_of};
use crate::matcher::{match_transfers, matched_records};
use crate::messages::{SubMessageView, TransferRecord, TransferRecordView, transfer_records_view};
use crate::registry::QueryRegistry;

verus! {

/// The callback messages dispatched to this core, keyed by an opaque query
/// identifier.
pub enum SudoMsg {
    /// Transaction evidence for a registered query: a block height
    /// (currently unused by the matching logic) and the raw envelope bytes.
    TxQueryResult { query_id: u64, height: u64, data: Vec<u8> },
    /// A key-value query result; reserved, currently a no-op success.
    KVQueryResult { query_id: u64 },
}

/// The response of the recipient history read query.
pub struct GetRecipientTxsResponse {
    pub transfers: Vec<TransferRecord>,
}

/// The state a verification call reads and updates: the registered query
/// filters and the per-recipient ledger.
pub struct ContractState {
    pub registry: QueryRegistry,
    pub ledger: RecipientLedger,
}

/// The decoded typed sub-messages of a raw envelope: the two-stage decode,
/// outer envelope to inner body bytes to transaction body.
pub open spec fn decoded_sub_messages(data: Seq<u8>) -> Option<Seq<SubMessageView>> {
    match envelope_body_bytes(data) {
        None => None,
        Some(body) => body_sub_messages(body),
    }
}

/// The outcome a transaction-evidence call is obliged to reach. It is a
/// function of the registered filters and the raw bytes alone; in
/// particular it does not depend on the ledger.
pub ghost enum TxOutcome {
    /// The call fails with this error and the ledger is untouched.
    Rejected(ContractError),
    /// The call succeeds and appends these records to this recipient's
    /// history.
    Recorded(Seq<char>, Seq<TransferRecordView>),
}

pub open spec fn tx_query_outcome(
    reg: Map<u64, RegisteredFilterView>,
    query_id: u64,
    data: Seq<u8>,
) -> TxOutcome {
    match decoded_sub_messages(data) {
        None => TxOutcome::Rejected(ContractError::Malformed),
        Some(msgs) => if !reg.dom().contains(query_id) {
            TxOutcome::Rejected(ContractError::NotFound)
        } else {
            match filter_target_recipient(reg[query_id].transactions_filter) {
                None => TxOutcome::Rejected(ContractError::Malformed),
                Some(recipient) => match matched_records(msgs, recipient) {
                    None => TxOutcome::Rejected(ContractError::Malformed),
                    Some(records) => if records.len() == 0 {
                        TxOutcome::Rejected(ContractError::NoMatch)
                    } else {
                        TxOutcome::Recorded(recipient, records)
                    },
                },
            }
        },
    }
}

impl ContractState {
    pub open spec fn wf(&self) -> bool {
        self.registry.wf() && self.ledger.wf()
    }

    /// A fresh state: no registered filter, no history for any recipient.
    pub fn new() -> (s: ContractState)
        ensures
            s.wf(),
            s.registry@ == Map::<u64, RegisteredFilterView>::empty(),
            s.ledger@ == Map::<Seq<char>, Seq<TransferRecordView>>::empty(),
    {
        ContractState { registry: QueryRegistry::new(), ledger: RecipientLedger::new() }
    }

    /// Retrieves the registered query filter for an identifier.
    pub fn get_registered_query(&self, interchain_query_id: u64) -> (r: Result<
        RegisteredFilter,
        ContractError,
    >)
        requires
            self.wf(),
        ensures
            match r {
                Ok(f) => self.registry@.dom().contains(interchain_query_id) && f@
                    == self.registry@[interchain_query_id],
                Err(e) => e == ContractError::NotFound && !self.registry@.dom().contains(
                    interchain_query_id,
                ),
            },
    {
        self.registry.lookup(interchain_query_id)
    }

    /// The callback for transaction query results: decode the envelope,
    /// look up the filter, match the payment instructions, and either merge
    /// the matching records into the target recipient's history or reject
    /// the evidence with nothing written.
    pub fn sudo_tx_query_result(&mut self, query_id: u64, _height: u64, data: &Vec<u8>) -> (r:
        Result<(), ContractError>)
        requires
            old(self).wf(),
        ensures
            final(self).wf(),
            final(self).registry@ == old(self).registry@,
            (match tx_query_outcome(old(self).registry@, query_id, data@) {
                TxOutcome::Rejected(e) => r == Err::<(), ContractError>(e) && final(self).ledger@
                    == old(self).ledger@,
                TxOutcome::Recorded(recipient, records) => r == Ok::<(), ContractError>(())
                    && final(self).ledger@ == old(self).ledger@.insert(
                    recipient,
                    history_of(old(self).ledger@, recipient) + records,
                ),
            }),
    {
        let body = match decode_envelope(data.as_slice()) {
            Some(b) => b,
            None => {
                return Err(ContractError::Malformed);
            },
        };
        let msgs = match decode_body(body.as_slice()) {
            Some(m) => m,
            None => {
                return Err(ContractError::Malformed);
            },
        };
        let filter = match self.registry.lookup(query_id) {
            Ok(f) => f,
            Err(e) => {
                return Err(e);
            },
        };
        let recipient = match parse_recipient_filter(&filter.transactions_filter) {
            Ok(a) => a,
            Err(e) => {
                return Err(e);
            },
        };
        let records = match match_transfers(&msgs, &recipient) {
            Ok(rs) => rs,
            Err(e) => {
                return Err(e);
            },
        };
        if records.is_empty() {
            return Err(ContractError::NoMatch);
        }
        self.ledger.merge_and_save(&recipient, records);
        Ok(())
    }

    /// The callback for key-value query results: reserved, a no-op success
    /// that leaves the state untouched.
    pub fn sudo_kv_query_result(&mut self, _query_id: u64) -> (r: Result<(), ContractError>)
        ensures
            r == Ok::<(), ContractError>(()),
            *final(self) == *old(self),
    {
        Ok(())
    }

    /// Routes an incoming callback message to its handler.
    pub fn sudo(&mut self, msg: &SudoMsg) -> (r: Result<(), ContractError>)
        requires
            old(self).wf(),
        ensures
            final(self).wf(),
            final(self).registry@ == old(self).registry@,
            (match msg {
                SudoMsg::TxQueryResult { query_id, height, data } => match tx_query_outcome(
                    old(self).registry@,
                    *query_id,
                    data@,
                ) {
                    TxOutcome::Rejected(e) => r == Err::<(), ContractError>(e)
                        && final(self).ledger@ == old(self).ledger@,
                    TxOutcome::Recorded(recipient, records) => r == Ok::<(), ContractError>(())
                        && final(self).ledger@ == old(self).ledger@.insert(
                        recipient,
                        history_of(old(self).ledger@, recipient) + records,
                    ),
                },
                SudoMsg::KVQueryResult { query_id } => r == Ok::<(), ContractError>(())
                    && *final(self) == *old(self),
            }),
    {
        match msg {
            SudoMsg::TxQueryResult { query_id, height, data } => self.sudo_tx_query_result(
                *query_id,
                *height,
                data,
            ),
            SudoMsg::KVQueryResult { query_id } => self.sudo_kv_query_result(*query_id),
        }
    }

    /// Reads the ordered history of all transfer records ever persisted for
    /// a recipient; an unknown recipient yields an empty sequence, never an
    /// error.
    pub fn query_recipient_txs(&self, recipient: &String) -> (r: GetRecipientTxsResponse)
        requires
            self.wf(),
        ensures
            transfer_records_view(r.transfers@) == history_of(self.ledger@, recipient@),
    {
        GetRecipientTxsResponse { transfers: self.ledger.load(recipient) }
    }
}

/// Law: an accepted call grows the target recipient's history by exactly
/// its matched records, appended in order at the end; every other
/// recipient's history is untouched.
pub proof fn lemma_accepted_call_extends_history(
    reg: Map<u64, RegisteredFilterView>,
    led: Map<Seq<char>, Seq<TransferRecordView>>,
    query_id: u64,
    data: Seq<u8>,
)
    ensures
        match tx_query_outcome(reg, query_id, data) {
            TxOutcome::Recorded(recipient, records) => {
                let led1 = led.insert(recipient, history_of(led, recipient) + records);
                &&& history_of(led1, recipient) == history_of(led, recipient) + records
                &&& history_of(led1, recipient).len() == history_of(led, recipient).len()
                    + records.len()
                &&& forall|other: Seq<char>|
                    other != recipient ==> history_of(led1, other) == history_of(led, other)
            },
            TxOutcome::Rejected(_) => true,
        },
{
}

/// Law: submitting the same envelope twice appends the matching records
/// twice; the ledger is deliberately not deduplicated. The outcome of the
/// second call is the same as the first, since the outcome depends only on
/// the registered filters and the raw bytes, and a call leaves the
/// registered filters unchanged.
pub proof fn lemma_resubmission_appends_again(
    reg: Map<u64, RegisteredFilterView>,
    led: Map<Seq<char>, Seq<TransferRecordView>>,
    query_id: u64,
    data: Seq<u8>,
)
    ensures
        match tx_query_outcome(reg, query_id, data) {
            TxOutcome::Recorded(recipient, records) => {
                let led1 = led.insert(recipient, history_of(led, recipient) + records);
                let led2 = led1.insert(recipient, history_of(led1, recipient) + records);
                history_of(led2, recipient) == history_of(led, recipient) + records + records
            },
            TxOutcome::Rejected(_) => true,
        },
{
}

} // verus!
