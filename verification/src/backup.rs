//! Loading a whole backup: every line is decoded in order, and the first bad
//! line fails the whole load.

use vstd::prelude::*;
use vstd::utf8::encode_utf8;
use crate::accounts::Account;
use crate::uri::{spec_decode, DecodeError};

verus! {

/// Decodes every line of a backup into an account, in backup order.  As soon
/// as one line does not decode, the whole load fails with that line's error
/// and no account list comes back.
pub fn parse_backup(lines: &Vec<String>) -> (r: Result<Vec<Account>, DecodeError>)
    ensures
        r is Ok <==> (forall|i: int|
            0 <= i < lines@.len() ==> #[trigger] spec_decode(encode_utf8(lines@[i]@)) is Ok),
        r is Ok ==> r->Ok_0@.len() == lines@.len(),
        r is Ok ==> (forall|i: int|
            0 <= i < lines@.len() ==> r->Ok_0@[i]@ == #[trigger] spec_decode(
                encode_utf8(lines@[i]@),
            )->Ok_0),
        r is Err ==> (exists|i: int|
            0 <= i < lines@.len() && #[trigger] spec_decode(encode_utf8(lines@[i]@)) is Err
                && r->Err_0 == spec_decode(encode_utf8(lines@[i]@))->Err_0 && (forall|j: int|
                0 <= j < i ==> #[trigger] spec_decode(encode_utf8(lines@[j]@)) is Ok)),
{
    let mut accounts: Vec<Account> = Vec::new();
    let mut i: usize = 0;
    while i < lines.len()
        invariant
            0 <= i <= lines@.len(),
            accounts@.len() == i,
            forall|j: int| 0 <= j < i ==> #[trigger] spec_decode(encode_utf8(lines@[j]@)) is Ok,
            forall|j: int|
                0 <= j < i ==> accounts@[j]@ == #[trigger] spec_decode(
                    encode_utf8(lines@[j]@),
                )->Ok_0,
        decreases lines@.len() - i,
    {
        match Account::new(lines[i].as_str()) {
            Ok(a) => {
                accounts.push(a);
            },
            Err(e) => {
                return Err(e);
            },
        }
        i = i + 1;
    }
    Ok(accounts)
}

} // verus!
