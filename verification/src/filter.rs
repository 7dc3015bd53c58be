use vstd::prelude::*;

use crate::errors::ContractError;

verus! {

/// An immutable filter record registered under a query identifier: a
/// query-type discriminator and a JSON-encoded filter payload. Owned by the
/// registry; read-only to this library.
pub struct RegisteredFilter {
    pub query_type: String,
    pub transactions_filter: String,
}

/// Mathematical image of a [`RegisteredFilter`].
pub ghost struct RegisteredFilterView {
    pub query_type: Seq<char>,
    pub transactions_filter: Seq<char>,
}

impl View for RegisteredFilter {
    type V = RegisteredFilterView;

    open spec fn view(&self) -> RegisteredFilterView {
        RegisteredFilterView {
            query_type: self.query_type@,
            transactions_filter: self.transactions_filter@,
        }
    }
}

impl RegisteredFilter {
    /// A field-for-field copy of the filter record.
    pub fn duplicate(&self) -> (r: RegisteredFilter)
        ensures
            r@ == self@,
    {
        RegisteredFilter {
            query_type: self.query_type.clone(),
            transactions_filter: self.transactions_filter.clone(),
        }
    }
}

pub open spec fn string_pairs_view(s: Seq<(String, String)>) -> Seq<(Seq<char>, Seq<char>)> {
    s.map_values(|p: (String, String)| (p.0@, p.1@))
}

/// The key/value pairs of the JSON object of string values encoded in `s`,
/// in ascending key order, or nothing when `s` does not parse as such an
/// object.
pub uninterp spec fn json_string_pairs(s: Seq<char>) -> Option<Seq<(Seq<char>, Seq<char>)>>;

/// Relies on serde_json_wasm::from_str, deserializing into an ordered map
/// from string keys to string values: the outcome is a function of the input
/// characters alone.
#[verifier::external_body]
pub(crate) fn parse_json_string_map(s: &str) -> (r: Option<Vec<(String, String)>>)
    ensures
        match r {
            Some(ps) => json_string_pairs(s@) == Some(string_pairs_view(ps@)),
            None => json_string_pairs(s@) is None,
        },
{
    match serde_json_wasm::from_str::<std::collections::BTreeMap<String, String>>(s) {
        Ok(m) => Some(m.into_iter().collect()),
        Err(_) => None,
    }
}

/// The one field recognized in a transfer filter payload.
pub open spec fn recipient_key() -> Seq<char> {
    "transfer.recipient"@
}

/// The value under `key` in the pair sequence `ps`, first occurrence.
pub open spec fn first_value_for(ps: Seq<(Seq<char>, Seq<char>)>, key: Seq<char>) -> Option<
    Seq<char>,
>
    decreases ps.len(),
{
    if ps.len() == 0 {
        None
    } else if ps[0].0 == key {
        Some(ps[0].1)
    } else {
        first_value_for(ps.drop_first(), key)
    }
}

/// The target recipient of the filter payload `payload`: the value of its
/// `transfer.recipient` field, or nothing when the payload does not parse as
/// a JSON object of strings or has no such field.
pub open spec fn filter_target_recipient(payload: Seq<char>) -> Option<Seq<char>> {
    match json_string_pairs(payload) {
        None => None,
        Some(ps) => first_value_for(ps, recipient_key()),
    }
}

/// Parses a transfer filter payload and returns its target recipient;
/// a payload without one is malformed.
pub fn parse_recipient_filter(payload: &String) -> (r: Result<String, ContractError>)
    ensures
        match r {
            Ok(addr) => filter_target_recipient(payload@) == Some(addr@),
            Err(e) => e == ContractError::Malformed && filter_target_recipient(payload@) is None,
        },
{
    let pairs = match parse_json_string_map(payload.as_str()) {
        Some(ps) => ps,
        None => {
            return Err(ContractError::Malformed);
        },
    };
    let key: String = "transfer.recipient".to_owned();
    let ghost pv = string_pairs_view(pairs@);
    proof {
        assert(pv.subrange(0, pv.len() as int) =~= pv);
    }
    let mut i: usize = 0;
    while i < pairs.len()
        invariant
            i <= pairs.len(),
            pv == string_pairs_view(pairs@),
            json_string_pairs(payload@) == Some(pv),
            key@ == recipient_key(),
            first_value_for(pv, recipient_key()) == first_value_for(
                pv.subrange(i as int, pv.len() as int),
                recipient_key(),
            ),
        decreases pairs.len() - i,
    {
        let ghost rest = pv.subrange(i as int, pv.len() as int);
        if pairs[i].0 == key {
            proof {
                assert(rest[0] == pv[i as int]);
                assert(pv[i as int].1 == pairs@[i as int].1@);
            }
            return Ok(pairs[i].1.clone());
        }
        proof {
            assert(rest[0] == pv[i as int]);
            assert(rest.drop_first() =~= pv.subrange(i as int + 1, pv.len() as int));
        }
        i = i + 1;
    }
    proof {
        assert(pv.subrange(pv.len() as int, pv.len() as int).len() == 0);
    }
    Err(ContractError::Malformed)
}

} // verus!
