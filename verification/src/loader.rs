//! The vault loader's record stage: the decrypted vault text is a JSON array
//! of records with the legacy `Name` and `Password` string fields, and this
//! module turns it into credentials. The JSON grammar itself is a boundary:
//! the parse call is trusted, and its result is given a name that the
//! loader's contract is exact over.

use vstd::prelude::*;

use crate::account::{Account, AccountV, JsonAccount, lemma_from_json_account};
use crate::state::accounts_view;

verus! {

/// The records the vault text decodes to: the `Name` and `Password` field of
/// each element of the JSON array, in order, or nothing when the text is not
/// such an array. A function of the text alone.
pub uninterp spec fn records_of(text: Seq<char>) -> Option<Seq<(Seq<char>, Seq<char>)>>;

/// Relies on serde_json::from_str: parses the text as a JSON array of
/// objects with string values, deterministically; each record's legacy
/// `Name` and `Password` fields are then read out, so the result is a
/// function of the text alone.
#[verifier::external_body]
fn parse_records(text: &str) -> (r: Result<Vec<(String, String)>, String>)
    ensures
        match r {
            Ok(v) => records_of(text@) == Some(
                Seq::new(v@.len() as nat, |i: int| (v@[i].0@, v@[i].1@)),
            ),
            Err(_) => records_of(text@) is None,
        },
{
    match serde_json::from_str::<Vec<std::collections::HashMap<String, String>>>(text) {
        Err(e) => Err(e.to_string()),
        Ok(maps) => maps
            .iter()
            .map(|m| match (m.get("Name"), m.get("Password")) {
                (Some(n), Some(p)) => Ok((n.clone(), p.clone())),
                _ => Err("record is missing the Name or Password field".to_string()),
            })
            .collect(),
    }
}

/// The credentials mirror the records: same length, same names, same
/// secrets, in the same order.
pub open spec fn accounts_match_records(
    accs: Seq<AccountV>,
    recs: Seq<(Seq<char>, Seq<char>)>,
) -> bool {
    &&& accs.len() == recs.len()
    &&& forall|i: int|
        0 <= i < recs.len() ==> (#[trigger] accs[i]).name == recs[i].0 && accs[i].password
            == recs[i].1
}

/// Decodes the decrypted vault text into the ordered credential list, or
/// reports why it is not a well-formed record array. Succeeds exactly on the
/// texts that decode to records.
pub fn load_accounts(plaintext: &str) -> (r: Result<Vec<Account>, String>)
    ensures
        match r {
            Ok(accs) => records_of(plaintext@) is Some && accounts_match_records(
                accounts_view(accs@),
                records_of(plaintext@).unwrap(),
            ),
            Err(_) => records_of(plaintext@) is None,
        },
{
    let pairs = match parse_records(plaintext) {
        Ok(p) => p,
        Err(e) => {
            return Err(e);
        },
    };
    let mut accs: Vec<Account> = Vec::new();
    let n = pairs.len();
    for idx in 0..n
        invariant
            n == pairs@.len(),
            accs@.len() == idx,
            forall|i: int|
                0 <= i < idx ==> (#[trigger] accs@[i])@.name == pairs@[i].0@ && accs@[i]@.password
                    == pairs@[i].1@,
    {
        let name = pairs[idx].0.clone();
        let password = pairs[idx].1.clone();
        let record = JsonAccount { Name: name, Password: password };
        proof {
            lemma_from_json_account(record);
        }
        accs.push(Account::from(record));
    }
    proof {
        let recs = records_of(plaintext@).unwrap();
        assert forall|i: int| 0 <= i < recs.len() implies (#[trigger] accounts_view(accs@)[i]).name
            == recs[i].0 && accounts_view(accs@)[i].password == recs[i].1 by {
            assert(accounts_view(accs@)[i] == accs@[i]@);
        }
    }
    Ok(accs)
}

} // verus!
