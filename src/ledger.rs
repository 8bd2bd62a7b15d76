use vstd::prelude::*;

use crate::wallet::TransferModel;

verus! {

/// Token balances, keyed by token and holder; an absent key holds zero.
pub type Balances = Map<(Seq<u8>, Seq<u8>), int>;

/// What `holder` holds of `token` in `b`.
pub open spec fn balance(b: Balances, token: Seq<u8>, holder: Seq<u8>) -> int {
    if b.contains_key((token, holder)) {
        b[(token, holder)]
    } else {
        0
    }
}

/// The balances after the token service carries out `t`.
pub open spec fn apply_transfer(b: Balances, t: TransferModel) -> Balances {
    let debited = b.insert((t.token, t.from), balance(b, t.token, t.from) - t.amount);
    debited.insert((t.token, t.to), balance(debited, t.token, t.to) + t.amount)
}

/// The balances after the token service carries out `ts` in order.
pub open spec fn apply_all(b: Balances, ts: Seq<TransferModel>) -> Balances
    decreases ts.len(),
{
    if ts.len() == 0 {
        b
    } else {
        apply_all(apply_transfer(b, ts[0]), ts.drop_first())
    }
}

/// The sum of the amounts that `ts` moves.
pub open spec fn total_moved(ts: Seq<TransferModel>) -> int
    decreases ts.len(),
{
    if ts.len() == 0 {
        0
    } else {
        ts[0].amount + total_moved(ts.drop_first())
    }
}

} // verus!
