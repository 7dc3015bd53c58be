use vstd::prelude::*;

use crate::codec::{decode_payment_instruction, payment_instruction_of};
use crate::errors::ContractError;
use crate::messages::{
    CoinAmountView, PaymentInstructionView, SubMessage, SubMessageView, TransferRecord,
    TransferRecordView, sub_messages_view, transfer_records_view,
};

verus! {

/// The canonical bank-module send type tag: the only sub-message tag
/// recognized as a payment instruction.
pub open spec fn transfer_message_url() -> Seq<char> {
    "/cosmos.bank.v1beta1.MsgSend"@
}

/// The executable counterpart of [`transfer_message_url`].
pub fn transfer_message_type_url() -> (r: String)
    ensures
        r@ == transfer_message_url(),
{
    "/cosmos.bank.v1beta1.MsgSend".to_owned()
}

/// The transfer records that one payment instruction emits when it matches
/// the target recipient: one per (amount, denomination) pair, each carrying
/// the instruction's sender and the target recipient.
pub open spec fn payment_records(p: PaymentInstructionView, recipient: Seq<char>) -> Seq<
    TransferRecordView,
> {
    p.amounts.map_values(
        |c: CoinAmountView|
            TransferRecordView {
                sender: p.from_address,
                amount: c.amount,
                denom: c.denom,
                recipient: recipient,
            },
    )
}

/// What one typed sub-message contributes to the match: nothing when its tag
/// is not the recognized payment-instruction tag, the instruction's records
/// when it matches the target recipient, and a decode failure (`None`) when
/// a recognized instruction is present but corrupt.
pub open spec fn instruction_records(m: SubMessageView, recipient: Seq<char>) -> Option<
    Seq<TransferRecordView>,
> {
    if m.type_url != transfer_message_url() {
        Some(Seq::<TransferRecordView>::empty())
    } else {
        match payment_instruction_of(m.value) {
            None => None,
            Some(p) => Some(
                if p.to_address == recipient {
                    payment_records(p, recipient)
                } else {
                    Seq::<TransferRecordView>::empty()
                },
            ),
        }
    }
}

/// The transfer records matched across a whole transaction body, in
/// traversal order, or `None` when some recognized payment instruction does
/// not decode.
pub open spec fn matched_records(msgs: Seq<SubMessageView>, recipient: Seq<char>) -> Option<
    Seq<TransferRecordView>,
>
    decreases msgs.len(),
{
    if msgs.len() == 0 {
        Some(Seq::<TransferRecordView>::empty())
    } else {
        match (matched_records(msgs.drop_last(), recipient), instruction_records(
            msgs.last(),
            recipient,
        )) {
            (Some(rs), Some(cur)) => Some(rs + cur),
            _ => None,
        }
    }
}

/// The number of (amount, denomination) pairs across the payment
/// instructions that match the target recipient.
pub open spec fn matched_pair_count(msgs: Seq<SubMessageView>, recipient: Seq<char>) -> nat
    decreases msgs.len(),
{
    if msgs.len() == 0 {
        0
    } else {
        matched_pair_count(msgs.drop_last(), recipient) + (match instruction_records(
            msgs.last(),
            recipient,
        ) {
            Some(rs) => rs.len(),
            None => 0,
        })
    }
}

/// Law: a successful match yields exactly one record per (amount,
/// denomination) pair across all matching payment instructions.
pub proof fn lemma_matched_records_count(msgs: Seq<SubMessageView>, recipient: Seq<char>)
    ensures
        match matched_records(msgs, recipient) {
            Some(rs) => rs.len() == matched_pair_count(msgs, recipient),
            None => true,
        },
    decreases msgs.len(),
{
    if msgs.len() > 0 {
        lemma_matched_records_count(msgs.drop_last(), recipient);
    }
}

/// Law: a transfer record is only ever created carrying the filter's
/// target recipient; a successful match emits no record for anyone else.
pub proof fn lemma_matched_records_target_recipient(msgs: Seq<SubMessageView>, recipient: Seq<char>)
    ensures
        match matched_records(msgs, recipient) {
            Some(rs) => forall|k: int| 0 <= k < rs.len() ==> rs[k].recipient == recipient,
            None => true,
        },
    decreases msgs.len(),
{
    if msgs.len() > 0 {
        lemma_matched_records_target_recipient(msgs.drop_last(), recipient);
    }
}

proof fn lemma_pair_count_lower_bound(msgs: Seq<SubMessageView>, recipient: Seq<char>, i: int)
    requires
        0 <= i < msgs.len(),
    ensures
        matched_pair_count(msgs, recipient) >= (match instruction_records(msgs[i], recipient) {
            Some(rs) => rs.len(),
            None => 0,
        }),
    decreases msgs.len(),
{
    if i < msgs.len() - 1 {
        assert(msgs.drop_last()[i] == msgs[i]);
        lemma_pair_count_lower_bound(msgs.drop_last(), recipient, i);
    }
}

/// Law: evidence whose body decodes throughout and holds at least one
/// payment instruction that matches the target recipient with at least one
/// (amount, denomination) pair is accepted: the matched record sequence is
/// non-empty.
pub proof fn lemma_matching_instruction_accepted(
    msgs: Seq<SubMessageView>,
    recipient: Seq<char>,
    i: int,
)
    requires
        0 <= i < msgs.len(),
        matched_records(msgs, recipient) is Some,
        (match instruction_records(msgs[i], recipient) {
            Some(rs) => rs.len() > 0,
            None => false,
        }),
    ensures
        (match matched_records(msgs, recipient) {
            Some(rs) => rs.len() > 0,
            None => false,
        }),
{
    lemma_matched_records_count(msgs, recipient);
    lemma_pair_count_lower_bound(msgs, recipient, i);
}

/// Once a prefix of the body fails to match (a corrupt recognized
/// instruction), the whole body fails to match.
proof fn lemma_matched_records_none_extends(
    msgs: Seq<SubMessageView>,
    recipient: Seq<char>,
    i: int,
)
    requires
        0 <= i <= msgs.len(),
        matched_records(msgs.subrange(0, i), recipient) is None,
    ensures
        matched_records(msgs, recipient) is None,
    decreases msgs.len() - i,
{
    if i == msgs.len() {
        assert(msgs.subrange(0, i) =~= msgs);
    } else {
        assert(msgs.subrange(0, i + 1).drop_last() =~= msgs.subrange(0, i));
        lemma_matched_records_none_extends(msgs, recipient, i + 1);
    }
}

/// Traverses the typed sub-messages in order and produces the matching
/// transfer records; a recognized payment instruction that does not decode
/// is a hard error, and unrecognized tags are skipped.
pub fn match_transfers(messages: &Vec<SubMessage>, recipient: &String) -> (r: Result<
    Vec<TransferRecord>,
    ContractError,
>)
    ensures
        match r {
            Ok(recs) => matched_records(sub_messages_view(messages@), recipient@) == Some(
                transfer_records_view(recs@),
            ),
            Err(e) => e == ContractError::Malformed && matched_records(
                sub_messages_view(messages@),
                recipient@,
            ) is None,
        },
{
    let ghost svm = sub_messages_view(messages@);
    let url: String = transfer_message_type_url();
    let mut recs: Vec<TransferRecord> = Vec::new();
    proof {
        assert(svm.subrange(0, 0) =~= Seq::<SubMessageView>::empty());
        assert(transfer_records_view(recs@) =~= Seq::<TransferRecordView>::empty());
    }
    let mut i: usize = 0;
    while i < messages.len()
        invariant
            i <= messages.len(),
            svm == sub_messages_view(messages@),
            svm.len() == messages@.len(),
            url@ == transfer_message_url(),
            matched_records(svm.subrange(0, i as int), recipient@) == Some(
                transfer_records_view(recs@),
            ),
        decreases messages.len() - i,
    {
        let ghost prefix = svm.subrange(0, i as int);
        proof {
            assert(svm.subrange(0, i as int + 1).drop_last() =~= prefix);
            assert(svm.subrange(0, i as int + 1).last() == svm[i as int]);
            assert(svm[i as int] == messages@[i as int]@);
        }
        let m = &messages[i];
        if m.type_url == url {
            let instruction = match decode_payment_instruction(m.value.as_slice()) {
                Some(p) => p,
                None => {
                    proof {
                        lemma_matched_records_none_extends(svm, recipient@, i as int + 1);
                    }
                    return Err(ContractError::Malformed);
                },
            };
            if instruction.to_address == *recipient {
                let ghost recs0 = transfer_records_view(recs@);
                let ghost emitted = payment_records(instruction@, recipient@);
                let mut j: usize = 0;
                while j < instruction.amounts.len()
                    invariant
                        j <= instruction.amounts.len(),
                        emitted == payment_records(instruction@, recipient@),
                        emitted.len() == instruction.amounts@.len(),
                        transfer_records_view(recs@) =~= recs0 + emitted.subrange(0, j as int),
                    decreases instruction.amounts.len() - j,
                {
                    let ghost recs_pre = recs@;
                    let c = &instruction.amounts[j];
                    recs.push(TransferRecord {
                        sender: instruction.from_address.clone(),
                        amount: c.amount.clone(),
                        denom: c.denom.clone(),
                        recipient: recipient.clone(),
                    });
                    proof {
                        assert(emitted[j as int] == TransferRecordView {
                            sender: instruction@.from_address,
                            amount: instruction.amounts@[j as int]@.amount,
                            denom: instruction.amounts@[j as int]@.denom,
                            recipient: recipient@,
                        });
                        assert(recs@.last()@ == emitted[j as int]);
                        let target = recs0 + emitted.subrange(0, j as int + 1);
                        assert(transfer_records_view(recs_pre).len() == recs_pre.len());
                        assert(recs_pre.len() == recs0.len() + j as int);
                        assert(target.len() == recs@.len());
                        assert forall|k: int| 0 <= k < recs@.len() implies transfer_records_view(
                            recs@,
                        )[k] == target[k] by {
                            if k < recs_pre.len() {
                                assert(recs@[k] == recs_pre[k]);
                                assert(transfer_records_view(recs_pre)[k] == recs_pre[k]@);
                                assert((recs0 + emitted.subrange(0, j as int))[k] == target[k]);
                            } else {
                                assert(recs@[k] == recs@.last());
                                assert(target[k] == emitted[j as int]);
                            }
                        }
                        assert(transfer_records_view(recs@) =~= target);
                    }
                    j = j + 1;
                }
                proof {
                    assert(emitted.subrange(0, emitted.len() as int) =~= emitted);
                    assert(transfer_records_view(recs@) =~= recs0 + emitted);
                }
            } else {
                proof {
                    assert(transfer_records_view(recs@) =~= transfer_records_view(recs@)
                        + Seq::<TransferRecordView>::empty());
                }
            }
        } else {
            proof {
                assert(m@.type_url != transfer_message_url());
                assert(transfer_records_view(recs@) =~= transfer_records_view(recs@)
                    + Seq::<TransferRecordView>::empty());
            }
        }
        i = i + 1;
    }
    proof {
        assert(svm.subrange(0, svm.len() as int) =~= svm);
    }
    Ok(recs)
}

} // verus!
