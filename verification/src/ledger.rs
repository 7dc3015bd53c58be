use vstd::prelude::*;

use crate::messages::{TransferRecord, TransferRecordView, copy_transfer_records,
    transfer_records_view};

verus! {

/// The persisted mapping from recipient address to the ordered sequence of
/// accepted transfer records. An entry is updated only as a whole: load the
/// full sequence, append, save the full sequence back.
pub struct RecipientLedger {
    entries: Vec<(String, Vec<TransferRecord>)>,
}

/// The map that an entry sequence denotes; later entries would win, though a
/// well-formed ledger never holds a recipient twice.
pub open spec fn ledger_map(s: Seq<(String, Vec<TransferRecord>)>) -> Map<
    Seq<char>,
    Seq<TransferRecordView>,
>
    decreases s.len(),
{
    if s.len() == 0 {
        Map::<Seq<char>, Seq<TransferRecordView>>::empty()
    } else {
        ledger_map(s.drop_last()).insert(s.last().0@, transfer_records_view(s.last().1@))
    }
}

/// The history of a recipient in a ledger map: its entry, or the empty
/// sequence when the recipient has none.
pub open spec fn history_of(
    m: Map<Seq<char>, Seq<TransferRecordView>>,
    recipient: Seq<char>,
) -> Seq<TransferRecordView> {
    if m.dom().contains(recipient) {
        m[recipient]
    } else {
        Seq::<TransferRecordView>::empty()
    }
}

pub open spec fn ledger_keys_unique(s: Seq<(String, Vec<TransferRecord>)>) -> bool {
    forall|i: int, j: int| 0 <= i < j < s.len() ==> s[i].0@ != s[j].0@
}

impl View for RecipientLedger {
    type V = Map<Seq<char>, Seq<TransferRecordView>>;

    closed spec fn view(&self) -> Map<Seq<char>, Seq<TransferRecordView>> {
        ledger_map(self.entries@)
    }
}

proof fn lemma_ledger_map_entry(s: Seq<(String, Vec<TransferRecord>)>, i: int)
    requires
        ledger_keys_unique(s),
        0 <= i < s.len(),
    ensures
        ledger_map(s).dom().contains(s[i].0@),
        ledger_map(s)[s[i].0@] == transfer_records_view(s[i].1@),
    decreases s.len(),
{
    if i < s.len() - 1 {
        assert(s.drop_last()[i] == s[i]);
        lemma_ledger_map_entry(s.drop_last(), i);
    }
}

proof fn lemma_ledger_map_no_key(s: Seq<(String, Vec<TransferRecord>)>, k: Seq<char>)
    requires
        forall|i: int| 0 <= i < s.len() ==> s[i].0@ != k,
    ensures
        !ledger_map(s).dom().contains(k),
    decreases s.len(),
{
    if s.len() > 0 {
        lemma_ledger_map_no_key(s.drop_last(), k);
    }
}

proof fn lemma_ledger_map_update(
    s: Seq<(String, Vec<TransferRecord>)>,
    i: int,
    e: (String, Vec<TransferRecord>),
)
    requires
        ledger_keys_unique(s),
        0 <= i < s.len(),
        e.0@ == s[i].0@,
    ensures
        ledger_map(s.update(i, e)) == ledger_map(s).insert(e.0@, transfer_records_view(e.1@)),
    decreases s.len(),
{
    let t = s.update(i, e);
    if i == s.len() - 1 {
        assert(t.drop_last() =~= s.drop_last());
        assert(t.last() == e);
        assert(ledger_map(s).insert(e.0@, transfer_records_view(e.1@)) =~= ledger_map(
            s.drop_last(),
        ).insert(e.0@, transfer_records_view(e.1@)));
    } else {
        assert(t.drop_last() =~= s.drop_last().update(i, e));
        assert(t.last() == s.last());
        assert(s.drop_last()[i] == s[i]);
        lemma_ledger_map_update(s.drop_last(), i, e);
        assert(s[i].0@ != s.last().0@);
        assert(ledger_map(s.drop_last()).insert(e.0@, transfer_records_view(e.1@)).insert(
            s.last().0@,
            transfer_records_view(s.last().1@),
        ) =~= ledger_map(s).insert(e.0@, transfer_records_view(e.1@)));
    }
}

impl RecipientLedger {
    /// Well-formedness: no recipient appears under two entries.
    pub closed spec fn wf(&self) -> bool {
        ledger_keys_unique(self.entries@)
    }

    /// An empty ledger, with no history for any recipient.
    pub fn new() -> (l: RecipientLedger)
        ensures
            l.wf(),
            l@ == Map::<Seq<char>, Seq<TransferRecordView>>::empty(),
    {
        RecipientLedger { entries: Vec::new() }
    }

    /// Loads the full record sequence of a recipient; a recipient with no
    /// history yields the empty sequence, never an error.
    pub fn load(&self, recipient: &String) -> (r: Vec<TransferRecord>)
        requires
            self.wf(),
        ensures
            transfer_records_view(r@) == history_of(self@, recipient@),
    {
        let n = self.entries.len();
        let mut i: usize = 0;
        while i < n
            invariant
                n == self.entries.len(),
                i <= n,
                self.wf(),
                forall|j: int| 0 <= j < i ==> self.entries@[j].0@ != recipient@,
            decreases n - i,
        {
            if self.entries[i].0 == *recipient {
                proof {
                    lemma_ledger_map_entry(self.entries@, i as int);
                }
                return copy_transfer_records(&self.entries[i].1);
            }
            i = i + 1;
        }
        proof {
            lemma_ledger_map_no_key(self.entries@, recipient@);
            assert(transfer_records_view(Seq::<TransferRecord>::empty()) =~= Seq::<
                TransferRecordView,
            >::empty());
        }
        Vec::new()
    }

    /// Loads the existing sequence of the recipient, appends `new_records`
    /// in order, and writes the full resulting sequence back. The entry is
    /// replaced as a whole; every other entry is untouched.
    pub fn merge_and_save(&mut self, recipient: &String, new_records: Vec<TransferRecord>)
        requires
            old(self).wf(),
        ensures
            final(self).wf(),
            final(self)@ == old(self)@.insert(
                recipient@,
                history_of(old(self)@, recipient@) + transfer_records_view(new_records@),
            ),
    {
        let mut pending = new_records;
        let ghost nr0 = pending@;
        let n = self.entries.len();
        let mut i: usize = 0;
        while i < n
            invariant
                *self == *old(self),
                self.wf(),
                n == self.entries.len(),
                i <= n,
                forall|j: int| 0 <= j < i ==> self.entries@[j].0@ != recipient@,
                pending@ == nr0,
                nr0 == new_records@,
            decreases n - i,
        {
            if self.entries[i].0 == *recipient {
                proof {
                    lemma_ledger_map_entry(self.entries@, i as int);
                }
                let ghost s0 = self.entries@;
                let mut e = self.entries.remove(i);
                e.1.append(&mut pending);
                self.entries.insert(i, e);
                proof {
                    assert(self.entries@ =~= s0.update(i as int, e));
                    lemma_ledger_map_update(s0, i as int, e);
                    assert(transfer_records_view(e.1@) =~= history_of(ledger_map(s0), recipient@)
                        + transfer_records_view(nr0));
                    assert(e.0@ == recipient@);
                    assert(ledger_map(self.entries@) =~= ledger_map(s0).insert(
                        recipient@,
                        history_of(ledger_map(s0), recipient@) + transfer_records_view(nr0),
                    ));
                    assert(self.wf()) by {
                        assert forall|p: int, q: int|
                            0 <= p < q < s0.update(i as int, e).len()
                                implies s0.update(i as int, e)[p].0@ != s0.update(
                                i as int,
                                e,
                            )[q].0@ by {
                            assert(s0[p].0@ != s0[q].0@);
                        }
                    }
                }
                return ;
            }
            i = i + 1;
        }
        proof {
            lemma_ledger_map_no_key(self.entries@, recipient@);
        }
        let ghost s0 = self.entries@;
        self.entries.push((recipient.clone(), pending));
        proof {
            assert(self.entries@.drop_last() =~= s0);
            assert(history_of(ledger_map(s0), recipient@) =~= Seq::<TransferRecordView>::empty());
            assert(history_of(ledger_map(s0), recipient@) + transfer_records_view(new_records@)
                =~= transfer_records_view(new_records@));
            assert(self.wf()) by {
                assert forall|p: int, q: int|
                    0 <= p < q < self.entries@.len() implies self.entries@[p].0@
                    != self.entries@[q].0@ by {
                    if q < self.entries@.len() - 1 {
                        assert(s0[p].0@ != s0[q].0@);
                    } else {
                        assert(s0[p].0@ != recipient@);
                    }
                }
            }
        }
    }
}

} // verus!
