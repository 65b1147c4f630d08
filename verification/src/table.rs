//! Table display of a list of accounts: index, issuer and username, with a
//! dash standing for an absent username.

use vstd::prelude::*;
use crate::accounts::Account;
use crate::uri::AccountView;
use crate::digits::{dec_chars, u64_to_string};

verus! {

/// Rendered text of a table, as a function of its rows' cell text.
pub uninterp spec fn table_text(rows: Seq<Seq<Seq<char>>>) -> Seq<char>;

/// Relies on `prettytable::Table`: built from rows of cells through its
/// `From` impl, its `Display` rendering depends on the cell text alone.
#[verifier::external_body]
fn render_table(rows: &Vec<Vec<String>>) -> (r: String)
    ensures
        r@ == table_text(rows.deep_view()),
{
    prettytable::Table::from(rows.clone()).to_string()
}

/// The placeholder cell shown for an absent username.
pub open spec fn dash() -> Seq<char> {
    seq!['-']
}

/// The header row: `#`, `Issuer`, `Username`.
pub open spec fn header_row() -> Seq<Seq<char>> {
    seq![
        seq!['#'],
        seq!['I', 's', 's', 'u', 'e', 'r'],
        seq!['U', 's', 'e', 'r', 'n', 'a', 'm', 'e'],
    ]
}

/// The table row of account `a` at position `i`: the index in decimal, the
/// issuer, and the username or a dash.
pub open spec fn account_row(a: AccountView, i: nat) -> Seq<Seq<char>> {
    seq![
        dec_chars(i),
        a.issuer,
        match a.username {
            Some(u) => u,
            None => dash(),
        },
    ]
}

/// All rows of the display table: the header, then one row per account.
pub open spec fn table_rows(accounts: Seq<AccountView>) -> Seq<Seq<Seq<char>>> {
    seq![header_row()] + Seq::new(accounts.len(), |i: int| account_row(accounts[i], i as nat))
}

/// Renders the accounts as a table of index, issuer and username, a dash
/// standing for an absent username.
pub fn pretty_display(accounts: &Vec<Account>) -> (r: String)
    ensures
        r@ == table_text(table_rows(accounts@.map_values(|a: Account| a@))),
{
    let ghost vs = accounts@.map_values(|a: Account| a@);
    let mut rows: Vec<Vec<String>> = Vec::new();
    let mut hdr: Vec<String> = Vec::new();
    hdr.push("#".to_owned());
    hdr.push("Issuer".to_owned());
    hdr.push("Username".to_owned());
    proof {
        reveal_strlit("#");
        reveal_strlit("Issuer");
        reveal_strlit("Username");
        assert(hdr.deep_view() =~~= header_row());
    }
    rows.push(hdr);
    let mut i: usize = 0;
    while i < accounts.len()
        invariant
            0 <= i <= accounts@.len(),
            vs == accounts@.map_values(|a: Account| a@),
            vs.len() == accounts@.len(),
            rows.deep_view().len() == i + 1,
            rows.deep_view()[0] == header_row(),
            forall|j: int|
                0 <= j < i ==> rows.deep_view()[j + 1] == account_row(vs[j], j as nat),
        decreases accounts@.len() - i,
    {
        let mut row: Vec<String> = Vec::new();
        row.push(u64_to_string(i as u64));
        row.push(accounts[i].issuer().clone());
        match accounts[i].username() {
            Some(u) => row.push(u.clone()),
            None => {
                let d = "-".to_owned();
                proof {
                    reveal_strlit("-");
                }
                row.push(d);
            },
        }
        proof {
            assert(row.deep_view() =~~= account_row(vs[i as int], i as nat));
        }
        rows.push(row);
        i = i + 1;
    }
    proof {
        assert(rows.deep_view() =~~= table_rows(vs));
    }
    render_table(&rows)
}

} // verus!
