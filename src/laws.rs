use vstd::prelude::*;

use crate::fee::{fee_of, lemma_fee_bounded, product_fits};
use crate::ledger::{apply_all, apply_transfer, balance, total_moved, Balances};
use crate::wallet::{
    fund_spec, init_spec, setup_charity_spec, transfer_spec, withdraw_spec, TransferModel,
    WalletError, WalletModel,
};

verus! {

/// A second `init` is refused with `AlreadyInitialized`, and the owner stays
/// the one that the first call recorded.
pub proof fn law_init_once(m: WalletModel, first: Seq<u8>, second: Seq<u8>)
    requires
        m.owner is None,
    ensures
        init_spec(m, first).1 == Ok::<(), WalletError>(()),
        init_spec(init_spec(m, first).0, second).1 == Err::<(), WalletError>(
            WalletError::AlreadyInitialized,
        ),
        init_spec(init_spec(m, first).0, second).0.owner == Some(first),
{
}

/// Before `init`, every privileged operation is refused with
/// `NotInitialized`, whoever invokes it and whatever it is given.
pub proof fn law_uninitialized(
    m: WalletModel,
    invoker: Seq<u8>,
    token: Seq<u8>,
    to: Seq<u8>,
    amount: int,
)
    requires
        m.owner is None,
    ensures
        fund_spec(m, invoker, token, amount) == Err::<Seq<TransferModel>, WalletError>(
            WalletError::NotInitialized,
        ),
        withdraw_spec(m, invoker, token, amount) == Err::<Seq<TransferModel>, WalletError>(
            WalletError::NotInitialized,
        ),
        transfer_spec(m, invoker, token, to, amount) == Err::<Seq<TransferModel>, WalletError>(
            WalletError::NotInitialized,
        ),
        setup_charity_spec(m, invoker, to, amount) == (m, Err::<(), WalletError>(
            WalletError::NotInitialized,
        )),
{
}

/// Every privileged operation invoked by anyone but the owner is refused
/// with `Unauthorized` and changes nothing, whatever it is given.
pub proof fn law_owner_only(
    m: WalletModel,
    invoker: Seq<u8>,
    token: Seq<u8>,
    to: Seq<u8>,
    amount: int,
)
    requires
        m.owner is Some,
        m.owner != Some(invoker),
    ensures
        fund_spec(m, invoker, token, amount) == Err::<Seq<TransferModel>, WalletError>(
            WalletError::Unauthorized,
        ),
        withdraw_spec(m, invoker, token, amount) == Err::<Seq<TransferModel>, WalletError>(
            WalletError::Unauthorized,
        ),
        transfer_spec(m, invoker, token, to, amount) == Err::<Seq<TransferModel>, WalletError>(
            WalletError::Unauthorized,
        ),
        setup_charity_spec(m, invoker, to, amount) == (m, Err::<(), WalletError>(
            WalletError::Unauthorized,
        )),
{
}

/// Funding the wallet and then withdrawing the same amount of the same
/// token leaves every balance as it was before.
pub proof fn law_fund_withdraw_round_trip(
    m: WalletModel,
    invoker: Seq<u8>,
    token: Seq<u8>,
    amount: int,
    b: Balances,
)
    requires
        fund_spec(m, invoker, token, amount) is Ok,
    ensures
        withdraw_spec(m, invoker, token, amount) is Ok,
        forall|t: Seq<u8>, h: Seq<u8>|
            #![trigger balance(apply_all(b, fund_spec(m, invoker, token, amount)->Ok_0), t, h)]
            balance(
                apply_all(
                    apply_all(b, fund_spec(m, invoker, token, amount)->Ok_0),
                    withdraw_spec(m, invoker, token, amount)->Ok_0,
                ),
                t,
                h,
            ) == balance(b, t, h),
{
    let f = fund_spec(m, invoker, token, amount)->Ok_0;
    let w = withdraw_spec(m, invoker, token, amount)->Ok_0;
    let b1 = apply_all(b, f);
    assert(f.drop_first() =~= Seq::<TransferModel>::empty());
    assert(w.drop_first() =~= Seq::<TransferModel>::empty());
    assert(b1 == apply_transfer(b, f[0])) by {
        reveal_with_fuel(apply_all, 2);
    }
    assert(apply_all(b1, w) == apply_transfer(b1, w[0])) by {
        reveal_with_fuel(apply_all, 2);
    }
}

/// With no charity set, a transfer moves the whole amount from custody to
/// the recipient and nothing anywhere else.
pub proof fn law_transfer_without_charity(
    m: WalletModel,
    invoker: Seq<u8>,
    token: Seq<u8>,
    to: Seq<u8>,
    amount: int,
)
    requires
        m.charity is None,
        m.owner == Some(invoker),
    ensures
        transfer_spec(m, invoker, token, to, amount) == Ok::<Seq<TransferModel>, WalletError>(
            seq![TransferModel { token, from: m.custody, to, amount }],
        ),
{
}

/// At a rate of 10000 basis points the whole amount goes to the charity and
/// nothing to the recipient.
pub proof fn law_full_rate_goes_to_charity(
    m: WalletModel,
    invoker: Seq<u8>,
    token: Seq<u8>,
    to: Seq<u8>,
    amount: int,
)
    requires
        m.owner == Some(invoker),
        m.charity is Some,
        m.charity->Some_0.1 == 10000,
        product_fits(amount, 10000),
    ensures
        transfer_spec(m, invoker, token, to, amount) == Ok::<Seq<TransferModel>, WalletError>(
            seq![
                TransferModel { token, from: m.custody, to: m.charity->Some_0.0, amount },
                TransferModel { token, from: m.custody, to, amount: 0 },
            ],
        ),
{
    assert((amount * 10000) / 10000 == amount) by (nonlinear_arith);
    assert((-(amount * 10000)) / 10000 == -amount) by (nonlinear_arith);
}

/// At any rate from 0 to 10000 basis points, a transfer of a non-negative
/// amount succeeds, the fee lies between zero and the amount, and the fee
/// and the remainder together make up exactly the amount.
pub proof fn law_split_conserves_amount(
    m: WalletModel,
    invoker: Seq<u8>,
    token: Seq<u8>,
    to: Seq<u8>,
    amount: int,
)
    requires
        m.wf(),
        m.owner == Some(invoker),
        amount >= 0,
        m.charity is Some ==> product_fits(amount, m.charity->Some_0.1),
    ensures
        transfer_spec(m, invoker, token, to, amount) is Ok,
        total_moved(transfer_spec(m, invoker, token, to, amount)->Ok_0) == amount,
        m.charity is Some ==> 0 <= fee_of(amount, m.charity->Some_0.1) <= amount,
{
    let ts = transfer_spec(m, invoker, token, to, amount)->Ok_0;
    if let Some((_, bips)) = m.charity {
        lemma_fee_bounded(amount, bips);
    }
    if ts.len() == 2 {
        assert(ts.drop_first().drop_first() =~= Seq::<TransferModel>::empty());
    } else {
        assert(ts.drop_first() =~= Seq::<TransferModel>::empty());
    }
    assert(total_moved(ts) == amount) by {
        reveal_with_fuel(total_moved, 3);
    }
}

/// Once set, the owner is never reassigned, and every state that `init` and
/// `setup_charity` leave keeps the charity's rate between 0% and 100%.
pub proof fn law_state_invariants(m: WalletModel, invoker: Seq<u8>, who: Seq<u8>, bips: int)
    requires
        m.wf(),
    ensures
        init_spec(m, who).0.wf(),
        setup_charity_spec(m, invoker, who, bips).0.wf(),
        setup_charity_spec(m, invoker, who, bips).0.owner == m.owner,
        m.owner is Some ==> init_spec(m, who).0.owner == m.owner,
{
}

} // verus!
