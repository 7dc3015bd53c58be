use vstd::prelude::*;

verus! {

/// One typed sub-message of a decoded transaction body: a type tag plus
/// opaque payload bytes. Unrecognized tags are preserved as opaque entries,
/// never dropped; recognition happens later, in the matcher.
pub struct SubMessage {
    pub type_url: String,
    pub value: Vec<u8>,
}

/// Mathematical image of a [`SubMessage`].
pub ghost struct SubMessageView {
    pub type_url: Seq<char>,
    pub value: Seq<u8>,
}

impl View for SubMessage {
    type V = SubMessageView;

    open spec fn view(&self) -> SubMessageView {
        SubMessageView { type_url: self.type_url@, value: self.value@ }
    }
}

pub open spec fn sub_messages_view(s: Seq<SubMessage>) -> Seq<SubMessageView> {
    s.map_values(|m: SubMessage| m@)
}

/// An (amount, denomination) pair inside a payment instruction. Amounts are
/// kept as the decimal strings of the chain encoding.
pub struct CoinAmount {
    pub denom: String,
    pub amount: String,
}

/// Mathematical image of a [`CoinAmount`].
pub ghost struct CoinAmountView {
    pub denom: Seq<char>,
    pub amount: Seq<char>,
}

impl View for CoinAmount {
    type V = CoinAmountView;

    open spec fn view(&self) -> CoinAmountView {
        CoinAmountView { denom: self.denom@, amount: self.amount@ }
    }
}

pub open spec fn coin_amounts_view(s: Seq<CoinAmount>) -> Seq<CoinAmountView> {
    s.map_values(|c: CoinAmount| c@)
}

/// A decoded payment instruction: a transfer of one or more
/// (amount, denomination) pairs from a sender to a recipient.
pub struct PaymentInstruction {
    pub from_address: String,
    pub to_address: String,
    pub amounts: Vec<CoinAmount>,
}

/// Mathematical image of a [`PaymentInstruction`].
pub ghost struct PaymentInstructionView {
    pub from_address: Seq<char>,
    pub to_address: Seq<char>,
    pub amounts: Seq<CoinAmountView>,
}

impl View for PaymentInstruction {
    type V = PaymentInstructionView;

    open spec fn view(&self) -> PaymentInstructionView {
        PaymentInstructionView {
            from_address: self.from_address@,
            to_address: self.to_address@,
            amounts: coin_amounts_view(self.amounts@),
        }
    }
}

/// A single accepted transfer fact, the unit persisted into the ledger.
/// Immutable once created.
pub struct TransferRecord {
    pub sender: String,
    pub amount: String,
    pub denom: String,
    pub recipient: String,
}

/// Mathematical image of a [`TransferRecord`].
pub ghost struct TransferRecordView {
    pub sender: Seq<char>,
    pub amount: Seq<char>,
    pub denom: Seq<char>,
    pub recipient: Seq<char>,
}

impl View for TransferRecord {
    type V = TransferRecordView;

    open spec fn view(&self) -> TransferRecordView {
        TransferRecordView {
            sender: self.sender@,
            amount: self.amount@,
            denom: self.denom@,
            recipient: self.recipient@,
        }
    }
}

pub open spec fn transfer_records_view(s: Seq<TransferRecord>) -> Seq<TransferRecordView> {
    s.map_values(|t: TransferRecord| t@)
}

impl TransferRecord {
    /// A field-for-field copy of the record.
    pub fn duplicate(&self) -> (r: TransferRecord)
        ensures
            r@ == self@,
    {
        TransferRecord {
            sender: self.sender.clone(),
            amount: self.amount.clone(),
            denom: self.denom.clone(),
            recipient: self.recipient.clone(),
        }
    }
}

/// A copy of a record sequence, equal to its source record for record.
pub fn copy_transfer_records(v: &Vec<TransferRecord>) -> (r: Vec<TransferRecord>)
    ensures
        transfer_records_view(r@) == transfer_records_view(v@),
{
    let mut r: Vec<TransferRecord> = Vec::new();
    let mut i: usize = 0;
    while i < v.len()
        invariant
            i <= v.len(),
            r@.len() == i,
            forall|j: int| 0 <= j < i ==> r@[j]@ == v@[j]@,
        decreases v.len() - i,
    {
        r.push(v[i].duplicate());
        i = i + 1;
    }
    proof {
        assert forall|j: int| 0 <= j < v@.len() implies transfer_records_view(r@)[j]
            == transfer_records_view(v@)[j] by {
            assert(r@[j]@ == v@[j]@);
        }
        assert(transfer_records_view(r@) =~= transfer_records_view(v@));
    }
    r
}

} // verus!
