use vstd::prelude::*;

use crate::address::Address;
use crate::fee::{
    compute_fee, fee_of, lemma_fee_bounded, lemma_fee_bounded_negative, product_fits,
    BASIS_POINTS_SCALE,
};

verus! {

/// Why an operation on the wallet was refused.
#[derive(Debug, Clone, Copy, PartialEq, Eq, Structural)]
pub enum WalletError {
    /// `init` was called on a wallet that already has an owner.
    AlreadyInitialized,
    /// A privileged operation was called before `init`.
    NotInitialized,
    /// The invoker of a privileged operation is not the owner.
    Unauthorized,
    /// A charity rate above 10000 basis points.
    FeeTooHigh,
    /// A charity rate below zero.
    FeeNegative,
    /// The fee computed for a transfer exceeds the amount, or the product of
    /// amount and rate does not fit in 128 bits.
    FeeExceedsAmount,
}

/// A movement of `amount` units of the token at `token` from `from` to `to`,
/// to be carried out by the token service.
#[derive(Debug)]
pub struct TokenTransfer {
    pub token: Address,
    pub from: Address,
    pub to: Address,
    pub amount: i128,
}

/// A token transfer as plain values.
pub struct TransferModel {
    pub token: Seq<u8>,
    pub from: Seq<u8>,
    pub to: Seq<u8>,
    pub amount: int,
}

impl View for TokenTransfer {
    type V = TransferModel;

    open spec fn view(&self) -> TransferModel {
        TransferModel { token: self.token@, from: self.from@, to: self.to@, amount: self.amount as int }
    }
}

/// The transfers held in a vector, as plain values.
pub open spec fn transfers_view(v: Seq<TokenTransfer>) -> Seq<TransferModel> {
    v.map_values(|t: TokenTransfer| t@)
}

/// The outcome of an operation that moves value, as plain values.
pub open spec fn outcome_view(r: Result<Vec<TokenTransfer>, WalletError>) -> Result<
    Seq<TransferModel>,
    WalletError,
> {
    match r {
        Ok(v) => Ok(transfers_view(v@)),
        Err(e) => Err(e),
    }
}

/// The charity that receives a share of each outbound transfer, and that
/// share in basis points.
#[derive(Debug)]
pub struct CharityConfig {
    pub address: Address,
    pub fee_bips: i128,
}

/// The wallet's persistent state as plain values.
pub struct WalletModel {
    /// The wallet's own custody account.
    pub custody: Seq<u8>,
    pub owner: Option<Seq<u8>>,
    /// The charity's address and its rate in basis points.
    pub charity: Option<(Seq<u8>, int)>,
}

impl WalletModel {
    /// A configured charity rate lies between 0% and 100%.
    pub open spec fn wf(self) -> bool {
        match self.charity {
            Some((_, bips)) => 0 <= bips <= 10000,
            None => true,
        }
    }
}

/// The owner, where `invoker` may act as the owner of `m`.
pub open spec fn auth_spec(m: WalletModel, invoker: Seq<u8>) -> Result<Seq<u8>, WalletError> {
    match m.owner {
        None => Err(WalletError::NotInitialized),
        Some(o) => if o == invoker {
            Ok(o)
        } else {
            Err(WalletError::Unauthorized)
        },
    }
}

/// The state after `init(owner)` on `m`, and its result.
pub open spec fn init_spec(m: WalletModel, owner: Seq<u8>) -> (WalletModel, Result<(), WalletError>) {
    match m.owner {
        Some(_) => (m, Err(WalletError::AlreadyInitialized)),
        None => (WalletModel { owner: Some(owner), ..m }, Ok(())),
    }
}

/// What `fund` on `m` returns: one transfer from the owner into custody.
pub open spec fn fund_spec(m: WalletModel, invoker: Seq<u8>, token: Seq<u8>, amount: int) -> Result<
    Seq<TransferModel>,
    WalletError,
> {
    match auth_spec(m, invoker) {
        Err(e) => Err(e),
        Ok(o) => Ok(seq![TransferModel { token, from: o, to: m.custody, amount }]),
    }
}

/// What `withdraw` on `m` returns: one transfer from custody to the owner.
pub open spec fn withdraw_spec(m: WalletModel, invoker: Seq<u8>, token: Seq<u8>, amount: int) -> Result<
    Seq<TransferModel>,
    WalletError,
> {
    match auth_spec(m, invoker) {
        Err(e) => Err(e),
        Ok(o) => Ok(seq![TransferModel { token, from: m.custody, to: o, amount }]),
    }
}

/// How `amount` leaves custody for `to`: whole where no charity with a
/// positive rate is set, else split between the charity and `to`.
pub open spec fn split_spec(m: WalletModel, token: Seq<u8>, to: Seq<u8>, amount: int) -> Result<
    Seq<TransferModel>,
    WalletError,
> {
    match m.charity {
        Some((charity, bips)) if bips > 0 => {
            let fee = fee_of(amount, bips);
            if !product_fits(amount, bips) || fee > amount {
                Err(WalletError::FeeExceedsAmount)
            } else {
                Ok(
                    seq![
                        TransferModel { token, from: m.custody, to: charity, amount: fee },
                        TransferModel { token, from: m.custody, to, amount: amount - fee },
                    ],
                )
            }
        },
        _ => Ok(seq![TransferModel { token, from: m.custody, to, amount }]),
    }
}

/// What `transfer` on `m` returns.
pub open spec fn transfer_spec(
    m: WalletModel,
    invoker: Seq<u8>,
    token: Seq<u8>,
    to: Seq<u8>,
    amount: int,
) -> Result<Seq<TransferModel>, WalletError> {
    match auth_spec(m, invoker) {
        Err(e) => Err(e),
        Ok(_) => split_spec(m, token, to, amount),
    }
}

/// The state after `setup_charity(charity, bips)` on `m`, and its result.
pub open spec fn setup_charity_spec(m: WalletModel, invoker: Seq<u8>, charity: Seq<u8>, bips: int) -> (
    WalletModel,
    Result<(), WalletError>,
) {
    match auth_spec(m, invoker) {
        Err(e) => (m, Err(e)),
        Ok(_) => if bips > 10000 {
            (m, Err(WalletError::FeeTooHigh))
        } else if bips < 0 {
            (m, Err(WalletError::FeeNegative))
        } else {
            (WalletModel { charity: Some((charity, bips)), ..m }, Ok(()))
        },
    }
}

/// A custodial wallet with a single owner.
///
/// It holds the owner, set once by `init`, and an optional charity setting.
/// Token balances are kept by the token service, never here.
#[derive(Debug)]
pub struct DropletWallet {
    custody: Address,
    owner: Option<Address>,
    charity: Option<CharityConfig>,
}

impl View for DropletWallet {
    type V = WalletModel;

    closed spec fn view(&self) -> WalletModel {
        WalletModel {
            custody: self.custody@,
            owner: match self.owner {
                Some(o) => Some(o@),
                None => None,
            },
            charity: match self.charity {
                Some(c) => Some((c.address@, c.fee_bips as int)),
                None => None,
            },
        }
    }
}

impl DropletWallet {
    /// A wallet whose custody account is `custody`, with no owner and no
    /// charity yet.
    pub fn new(custody: Address) -> (r: DropletWallet)
        ensures
            r@ == (WalletModel { custody: custody@, owner: None, charity: None }),
            r@.wf(),
    {
        DropletWallet { custody, owner: None, charity: None }
    }

    /// The wallet held in storage as `owner` and `charity`, or `None` where
    /// the charity's rate lies outside 0 to 10000 basis points.
    pub fn restore(custody: Address, owner: Option<Address>, charity: Option<CharityConfig>) -> (r:
        Option<DropletWallet>)
        ensures
            r is Some <==> (charity is None || (0 <= charity->Some_0.fee_bips <= 10000)),
            r is Some ==> r->Some_0@.wf(),
            r is Some ==> r->Some_0@.custody == custody@,
            r is Some ==> r->Some_0@.owner == (match owner {
                Some(o) => Some(o@),
                None => None::<Seq<u8>>,
            }),
            r is Some ==> r->Some_0@.charity == (match charity {
                Some(c) => Some((c.address@, c.fee_bips as int)),
                None => None::<(Seq<u8>, int)>,
            }),
    {
        let valid = match &charity {
            Some(c) => 0 <= c.fee_bips && c.fee_bips <= 10000,
            None => true,
        };
        if valid {
            Some(DropletWallet { custody, owner, charity })
        } else {
            None
        }
    }

    /// The wallet's own custody account.
    pub fn custody(&self) -> (r: &Address)
        ensures
            r@ == self@.custody,
    {
        &self.custody
    }

    /// The owner, once `init` has set one.
    pub fn owner(&self) -> (r: Option<&Address>)
        ensures
            r is Some <==> self@.owner is Some,
            r is Some ==> r->Some_0@ == self@.owner->Some_0,
    {
        match &self.owner {
            Some(o) => Some(o),
            None => None,
        }
    }

    /// The charity setting, once `setup_charity` has set one.
    pub fn charity(&self) -> (r: Option<&CharityConfig>)
        ensures
            r is Some <==> self@.charity is Some,
            r is Some ==> (r->Some_0.address@, r->Some_0.fee_bips as int) == self@.charity->Some_0,
    {
        match &self.charity {
            Some(c) => Some(c),
            None => None,
        }
    }

    /// Records `owner` as the wallet's owner; refused once an owner is set.
    pub fn init(&mut self, owner: Address) -> (r: Result<(), WalletError>)
        requires
            old(self)@.wf(),
        ensures
            (final(self)@, r) == init_spec(old(self)@, owner@),
            final(self)@.wf(),
    {
        if self.owner.is_some() {
            return Err(WalletError::AlreadyInitialized);
        }
        self.owner = Some(owner);
        Ok(())
    }

    /// The owner, where `invoker` has proved to be the owner.
    pub fn auth_owner(&self, invoker: &Address) -> (r: Result<&Address, WalletError>)
        ensures
            match r {
                Ok(o) => auth_spec(self@, invoker@) == Ok::<Seq<u8>, WalletError>(o@),
                Err(e) => auth_spec(self@, invoker@) == Err::<Seq<u8>, WalletError>(e),
            },
    {
        match &self.owner {
            None => Err(WalletError::NotInitialized),
            Some(o) => if o.same_as(invoker) {
                Ok(o)
            } else {
                Err(WalletError::Unauthorized)
            },
        }
    }

    /// The transfer that moves `amount` of `token_address` from the owner
    /// into custody.
    pub fn fund(&self, invoker: &Address, token_address: &Address, amount: i128) -> (r: Result<
        Vec<TokenTransfer>,
        WalletError,
    >)
        ensures
            outcome_view(r) == fund_spec(self@, invoker@, token_address@, amount as int),
    {
        let owner = match self.auth_owner(invoker) {
            Ok(o) => o,
            Err(e) => return Err(e),
        };
        let t = TokenTransfer {
            token: token_address.duplicate(),
            from: owner.duplicate(),
            to: self.custody.duplicate(),
            amount,
        };
        let v = vec![t];
        assert(transfers_view(v@) =~= fund_spec(self@, invoker@, token_address@, amount as int)->Ok_0);
        Ok(v)
    }

    /// The transfer that moves `amount` of `token_address` from custody back
    /// to the owner.
    pub fn withdraw(&self, invoker: &Address, token_address: &Address, amount: i128) -> (r: Result<
        Vec<TokenTransfer>,
        WalletError,
    >)
        ensures
            outcome_view(r) == withdraw_spec(self@, invoker@, token_address@, amount as int),
    {
        let owner = match self.auth_owner(invoker) {
            Ok(o) => o,
            Err(e) => return Err(e),
        };
        let t = TokenTransfer {
            token: token_address.duplicate(),
            from: self.custody.duplicate(),
            to: owner.duplicate(),
            amount,
        };
        let v = vec![t];
        assert(transfers_view(v@) =~= withdraw_spec(self@, invoker@, token_address@, amount as int)->Ok_0);
        Ok(v)
    }

    /// The transfers that send `amount` of `token_address` from custody to
    /// `to`. Where a charity with a positive rate is set, the fee
    /// `amount * rate / 10000`, truncated toward zero, goes to the charity
    /// and the rest to `to`; else all of it goes to `to`.
    pub fn transfer(&self, invoker: &Address, token_address: &Address, to: &Address, amount: i128) -> (r:
        Result<Vec<TokenTransfer>, WalletError>)
        requires
            self@.wf(),
        ensures
            outcome_view(r) == transfer_spec(self@, invoker@, token_address@, to@, amount as int),
    {
        match self.auth_owner(invoker) {
            Ok(_) => {},
            Err(e) => return Err(e),
        }
        if let Some(c) = &self.charity {
            if c.fee_bips > 0 {
                let fee = match compute_fee(amount, c.fee_bips) {
                    Some(f) => f,
                    None => return Err(WalletError::FeeExceedsAmount),
                };
                if fee > amount {
                    return Err(WalletError::FeeExceedsAmount);
                }
                proof {
                    if amount >= 0 {
                        lemma_fee_bounded(amount as int, c.fee_bips as int);
                    } else {
                        lemma_fee_bounded_negative(amount as int, c.fee_bips as int);
                    }
                }
                let to_charity = TokenTransfer {
                    token: token_address.duplicate(),
                    from: self.custody.duplicate(),
                    to: c.address.duplicate(),
                    amount: fee,
                };
                let to_recipient = TokenTransfer {
                    token: token_address.duplicate(),
                    from: self.custody.duplicate(),
                    to: to.duplicate(),
                    amount: amount - fee,
                };
                let v = vec![to_charity, to_recipient];
                assert(transfers_view(v@) =~= transfer_spec(
                    self@,
                    invoker@,
                    token_address@,
                    to@,
                    amount as int,
                )->Ok_0);
                return Ok(v);
            }
        }
        let t = TokenTransfer {
            token: token_address.duplicate(),
            from: self.custody.duplicate(),
            to: to.duplicate(),
            amount,
        };
        let v = vec![t];
        assert(transfers_view(v@) =~= transfer_spec(self@, invoker@, token_address@, to@, amount as int)->Ok_0);
        Ok(v)
    }

    /// Sets the charity and its rate in basis points, replacing any earlier
    /// setting. The rate must lie between 0 and 10000.
    pub fn setup_charity(&mut self, invoker: &Address, charity_address: Address, fee: i128) -> (r:
        Result<(), WalletError>)
        requires
            old(self)@.wf(),
        ensures
            (final(self)@, r) == setup_charity_spec(old(self)@, invoker@, charity_address@, fee as int),
            final(self)@.wf(),
    {
        match self.auth_owner(invoker) {
            Ok(_) => {},
            Err(e) => return Err(e),
        }
        if fee > BASIS_POINTS_SCALE {
            return Err(WalletError::FeeTooHigh);
        }
        if fee < 0 {
            return Err(WalletError::FeeNegative);
        }
        self.charity = Some(CharityConfig { address: charity_address, fee_bips: fee });
        Ok(())
    }
}

} // verus!
