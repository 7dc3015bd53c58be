use vstd::prelude::*;

use crate::messages::{
    CoinAmount, PaymentInstruction, PaymentInstructionView, SubMessage, SubMessageView,
    sub_messages_view,
};
use cosmos_sdk_proto::cosmos::bank::v1beta1::MsgSend;
use cosmos_sdk_proto::cosmos::tx::v1beta1::{TxBody, TxRaw};
use cosmos_sdk_proto::prost::Message;

verus! {

/// The inner body bytes of the signed-transaction envelope encoded in `data`,
/// or nothing when `data` does not parse as an envelope.
pub uninterp spec fn envelope_body_bytes(data: Seq<u8>) -> Option<Seq<u8>>;

/// The ordered typed sub-messages of the transaction body encoded in `body`,
/// or nothing when `body` does not parse as a transaction body.
pub uninterp spec fn body_sub_messages(body: Seq<u8>) -> Option<Seq<SubMessageView>>;

/// The payment instruction encoded in `value`, or nothing when `value` does
/// not parse as one.
pub uninterp spec fn payment_instruction_of(value: Seq<u8>) -> Option<PaymentInstructionView>;

/// Relies on the prost-generated decoder of the Cosmos SDK `TxRaw` envelope:
/// the outcome is a function of the input bytes alone, and the decoded
/// envelope carries the inner body bytes in its `body_bytes` field.
#[verifier::external_body]
pub(crate) fn decode_envelope(data: &[u8]) -> (r: Option<Vec<u8>>)
    ensures
        match r {
            Some(body) => envelope_body_bytes(data@) == Some(body@),
            None => envelope_body_bytes(data@) is None,
        },
{
    match TxRaw::decode(data) {
        Ok(raw) => Some(raw.body_bytes),
        Err(_) => None,
    }
}

/// Relies on the prost-generated decoder of the Cosmos SDK `TxBody`: the
/// outcome is a function of the input bytes alone, and the decoded body
/// lists its sub-messages in order, each a (type tag, payload bytes) pair.
#[verifier::external_body]
pub(crate) fn decode_body(body: &[u8]) -> (r: Option<Vec<SubMessage>>)
    ensures
        match r {
            Some(msgs) => body_sub_messages(body@) == Some(sub_messages_view(msgs@)),
            None => body_sub_messages(body@) is None,
        },
{
    match TxBody::decode(body) {
        Ok(b) => Some(
            b.messages
                .into_iter()
                .map(|m| SubMessage { type_url: m.type_url, value: m.value })
                .collect(),
        ),
        Err(_) => None,
    }
}

/// Relies on the prost-generated decoder of the Cosmos SDK bank `MsgSend`:
/// the outcome is a function of the input bytes alone, and the decoded
/// message carries sender, recipient and the ordered coin amounts.
#[verifier::external_body]
pub(crate) fn decode_payment_instruction(value: &[u8]) -> (r: Option<PaymentInstruction>)
    ensures
        match r {
            Some(p) => payment_instruction_of(value@) == Some(p@),
            None => payment_instruction_of(value@) is None,
        },
{
    match MsgSend::decode(value) {
        Ok(m) => Some(PaymentInstruction {
            from_address: m.from_address,
            to_address: m.to_address,
            amounts: m
                .amount
                .into_iter()
                .map(|c| CoinAmount { denom: c.denom, amount: c.amount })
                .collect(),
        }),
        Err(_) => None,
    }
}

} // verus!
