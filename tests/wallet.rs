use std::collections::HashMap;

use droplet_wallet::fee::compute_fee;
use droplet_wallet::wallet::{DropletWallet, TokenTransfer, WalletError};
use droplet_wallet::Address;

fn addr(name: &str) -> Address {
    Address::from_bytes(name.as_bytes().to_vec())
}

/// Balances kept as the token service keeps them, by token and holder.
struct Bank {
    balances: HashMap<(Vec<u8>, Vec<u8>), i128>,
}

impl Bank {
    fn new() -> Bank {
        Bank { balances: HashMap::new() }
    }

    fn mint(&mut self, token: &Address, to: &Address, amount: i128) {
        *self.balances.entry((token.as_bytes().clone(), to.as_bytes().clone())).or_insert(0) += amount;
    }

    fn balance(&self, token: &Address, holder: &Address) -> i128 {
        *self.balances.get(&(token.as_bytes().clone(), holder.as_bytes().clone())).unwrap_or(&0)
    }

    fn apply(&mut self, transfers: &[TokenTransfer]) {
        for t in transfers {
            let from = self.balance(&t.token, &t.from);
            assert!(from >= t.amount, "insufficient balance");
            self.mint(&t.token, &t.from, -t.amount);
            self.mint(&t.token, &t.to, t.amount);
        }
    }
}

#[test]
fn test_fund_and_withdrawal() {
    let smart_wallet_id = addr("wallet");
    let mut wallet = DropletWallet::new(addr("wallet"));
    let mut bank = Bank::new();

    let alice = addr("alice");
    wallet.init(addr("alice")).unwrap();

    let token = addr("token");
    bank.mint(&token, &alice, 1000);

    bank.apply(&wallet.fund(&alice, &token, 1000).unwrap());
    assert_eq!(bank.balance(&token, &smart_wallet_id), 1000);
    assert_eq!(bank.balance(&token, &alice), 0);

    bank.apply(&wallet.withdraw(&alice, &token, 1000).unwrap());
    assert_eq!(bank.balance(&token, &smart_wallet_id), 0);
    assert_eq!(bank.balance(&token, &alice), 1000);
}

#[test]
fn test_transfer() {
    let smart_wallet_id = addr("wallet");
    let mut wallet = DropletWallet::new(addr("wallet"));
    let mut bank = Bank::new();

    let alice = addr("alice");
    let bob = addr("bob");

    let token = addr("token");
    bank.mint(&token, &alice, 1000);

    assert_eq!(bank.balance(&token, &alice), 1000);

    wallet.init(addr("alice")).unwrap();
    let initial_wallet_balance = 500;
    bank.apply(&wallet.fund(&alice, &token, initial_wallet_balance).unwrap());

    assert_eq!(bank.balance(&token, &smart_wallet_id), 500);
    assert_eq!(bank.balance(&token, &alice), 500);
    assert_eq!(bank.balance(&token, &bob), 0);

    let transfer_amount = 200;
    bank.apply(&wallet.transfer(&alice, &token, &bob, transfer_amount).unwrap());

    assert_eq!(bank.balance(&token, &bob), transfer_amount);

    assert_eq!(
        bank.balance(&token, wallet.custody()),
        initial_wallet_balance - transfer_amount
    );
}

#[test]
fn test_transfer_with_charity_donation() {
    let smart_wallet_id = addr("wallet");
    let mut wallet = DropletWallet::new(addr("wallet"));
    let mut bank = Bank::new();

    let alice = addr("alice");
    let bob = addr("bob");

    let token = addr("token");
    bank.mint(&token, &alice, 1000);

    assert_eq!(bank.balance(&token, &alice), 1000);

    wallet.init(addr("alice")).unwrap();
    let charity = addr("charity");
    let fee = 100; // 1%
    wallet.setup_charity(&alice, addr("charity"), fee).unwrap();

    let initial_wallet_balance = 1000;
    bank.apply(&wallet.fund(&alice, &token, initial_wallet_balance).unwrap());

    assert_eq!(bank.balance(&token, &smart_wallet_id), 1000);
    assert_eq!(bank.balance(&token, &alice), 0);
    assert_eq!(bank.balance(&token, &bob), 0);
    assert_eq!(bank.balance(&token, &charity), 0);

    let transfer_amount = 800;
    let expected_fee = 8;
    bank.apply(&wallet.transfer(&alice, &token, &bob, transfer_amount).unwrap());
    assert_eq!(
        bank.balance(&token, wallet.custody()),
        initial_wallet_balance - transfer_amount
    );

    assert_eq!(bank.balance(&token, &bob), transfer_amount - expected_fee);
    assert_eq!(bank.balance(&token, &charity), expected_fee);
}

fn owned_by_alice() -> DropletWallet {
    let mut wallet = DropletWallet::new(addr("wallet"));
    wallet.init(addr("alice")).unwrap();
    wallet
}

#[test]
fn init_twice_keeps_first_owner() {
    let mut wallet = DropletWallet::new(addr("wallet"));
    assert_eq!(wallet.init(addr("alice")), Ok(()));
    assert_eq!(wallet.init(addr("bob")), Err(WalletError::AlreadyInitialized));
    assert_eq!(wallet.owner(), Some(&addr("alice")));
}

#[test]
fn privileged_operations_before_init_fail() {
    let mut wallet = DropletWallet::new(addr("wallet"));
    let alice = addr("alice");
    let token = addr("token");
    assert_eq!(wallet.fund(&alice, &token, 10).unwrap_err(), WalletError::NotInitialized);
    assert_eq!(wallet.withdraw(&alice, &token, 10).unwrap_err(), WalletError::NotInitialized);
    assert_eq!(
        wallet.transfer(&alice, &token, &addr("bob"), 10).unwrap_err(),
        WalletError::NotInitialized
    );
    assert_eq!(
        wallet.setup_charity(&alice, addr("charity"), 100),
        Err(WalletError::NotInitialized)
    );
    assert!(wallet.charity().is_none());
}

#[test]
fn non_owner_is_unauthorized() {
    let mut wallet = owned_by_alice();
    let mallory = addr("mallory");
    let token = addr("token");
    assert_eq!(wallet.fund(&mallory, &token, 10).unwrap_err(), WalletError::Unauthorized);
    assert_eq!(wallet.withdraw(&mallory, &token, 10).unwrap_err(), WalletError::Unauthorized);
    assert_eq!(
        wallet.transfer(&mallory, &token, &mallory, 10).unwrap_err(),
        WalletError::Unauthorized
    );
    assert_eq!(
        wallet.setup_charity(&mallory, addr("charity"), 20000),
        Err(WalletError::Unauthorized)
    );
    assert!(wallet.charity().is_none());
    assert_eq!(wallet.auth_owner(&addr("alice")), Ok(&addr("alice")));
}

#[test]
fn fund_then_withdraw_restores_balances() {
    let wallet = owned_by_alice();
    let alice = addr("alice");
    let token = addr("token");
    let mut bank = Bank::new();
    bank.mint(&token, &alice, 750);
    bank.mint(&token, wallet.custody(), 40);
    bank.apply(&wallet.fund(&alice, &token, 300).unwrap());
    assert_eq!(bank.balance(&token, &alice), 450);
    assert_eq!(bank.balance(&token, wallet.custody()), 340);
    bank.apply(&wallet.withdraw(&alice, &token, 300).unwrap());
    assert_eq!(bank.balance(&token, &alice), 750);
    assert_eq!(bank.balance(&token, wallet.custody()), 40);
}

#[test]
fn setup_charity_rate_bounds() {
    let mut wallet = owned_by_alice();
    let alice = addr("alice");
    assert_eq!(wallet.setup_charity(&alice, addr("charity"), 10050), Err(WalletError::FeeTooHigh));
    assert_eq!(wallet.setup_charity(&alice, addr("charity"), -1), Err(WalletError::FeeNegative));
    assert!(wallet.charity().is_none());
    assert_eq!(wallet.setup_charity(&alice, addr("charity"), 0), Ok(()));
    assert_eq!(wallet.charity().unwrap().fee_bips, 0);
    assert_eq!(wallet.setup_charity(&alice, addr("other"), 10000), Ok(()));
    assert_eq!(wallet.charity().unwrap().fee_bips, 10000);
    assert_eq!(wallet.charity().unwrap().address, addr("other"));
}

#[test]
fn transfer_without_charity_moves_whole_amount() {
    let wallet = owned_by_alice();
    let ts = wallet.transfer(&addr("alice"), &addr("token"), &addr("bob"), 321).unwrap();
    assert_eq!(ts.len(), 1);
    assert_eq!(ts[0].from, addr("wallet"));
    assert_eq!(ts[0].to, addr("bob"));
    assert_eq!(ts[0].token, addr("token"));
    assert_eq!(ts[0].amount, 321);
}

#[test]
fn transfer_with_zero_rate_moves_whole_amount() {
    let mut wallet = owned_by_alice();
    wallet.setup_charity(&addr("alice"), addr("charity"), 0).unwrap();
    let ts = wallet.transfer(&addr("alice"), &addr("token"), &addr("bob"), 321).unwrap();
    assert_eq!(ts.len(), 1);
    assert_eq!(ts[0].to, addr("bob"));
    assert_eq!(ts[0].amount, 321);
}

#[test]
fn transfer_one_percent_of_eight_hundred() {
    let mut wallet = owned_by_alice();
    wallet.setup_charity(&addr("alice"), addr("charity"), 100).unwrap();
    let ts = wallet.transfer(&addr("alice"), &addr("token"), &addr("bob"), 800).unwrap();
    assert_eq!(ts.len(), 2);
    assert_eq!(ts[0].to, addr("charity"));
    assert_eq!(ts[0].amount, 8);
    assert_eq!(ts[1].to, addr("bob"));
    assert_eq!(ts[1].amount, 792);
}

#[test]
fn transfer_full_rate_goes_to_charity() {
    let mut wallet = owned_by_alice();
    wallet.setup_charity(&addr("alice"), addr("charity"), 10000).unwrap();
    let ts = wallet.transfer(&addr("alice"), &addr("token"), &addr("bob"), 777).unwrap();
    assert_eq!(ts.len(), 2);
    assert_eq!(ts[0].to, addr("charity"));
    assert_eq!(ts[0].amount, 777);
    assert_eq!(ts[1].to, addr("bob"));
    assert_eq!(ts[1].amount, 0);
}

#[test]
fn fee_and_remainder_make_up_amount() {
    let mut wallet = owned_by_alice();
    wallet.setup_charity(&addr("alice"), addr("charity"), 333).unwrap();
    let ts = wallet.transfer(&addr("alice"), &addr("token"), &addr("bob"), 999).unwrap();
    assert_eq!(ts[0].amount, 33);
    assert_eq!(ts[1].amount, 966);
    assert_eq!(ts[0].amount + ts[1].amount, 999);
}

#[test]
fn fee_truncates_toward_zero() {
    assert_eq!(compute_fee(800, 100), Some(8));
    assert_eq!(compute_fee(99, 100), Some(0));
    assert_eq!(compute_fee(19999, 1), Some(1));
    assert_eq!(compute_fee(-800, 100), Some(-8));
    assert_eq!(compute_fee(-99, 100), Some(0));
    assert_eq!(compute_fee(i128::MAX, 2), None);
    assert_eq!(compute_fee(i128::MIN, 1), Some(i128::MIN / 10000));
}

#[test]
fn negative_amount_with_fee_exceeds_amount() {
    let mut wallet = owned_by_alice();
    wallet.setup_charity(&addr("alice"), addr("charity"), 100).unwrap();
    assert_eq!(
        wallet.transfer(&addr("alice"), &addr("token"), &addr("bob"), -800).unwrap_err(),
        WalletError::FeeExceedsAmount
    );
}

#[test]
fn overflowing_fee_product_is_refused() {
    let mut wallet = owned_by_alice();
    wallet.setup_charity(&addr("alice"), addr("charity"), 100).unwrap();
    assert_eq!(
        wallet.transfer(&addr("alice"), &addr("token"), &addr("bob"), i128::MAX).unwrap_err(),
        WalletError::FeeExceedsAmount
    );
}

#[test]
fn restore_checks_the_rate() {
    let charity = droplet_wallet::wallet::CharityConfig { address: addr("charity"), fee_bips: 10001 };
    assert!(DropletWallet::restore(addr("wallet"), Some(addr("alice")), Some(charity)).is_none());
    let charity = droplet_wallet::wallet::CharityConfig { address: addr("charity"), fee_bips: 250 };
    let wallet = DropletWallet::restore(addr("wallet"), Some(addr("alice")), Some(charity)).unwrap();
    assert_eq!(wallet.owner(), Some(&addr("alice")));
    let ts = wallet.transfer(&addr("alice"), &addr("token"), &addr("bob"), 1000).unwrap();
    assert_eq!(ts[0].amount, 25);
    assert_eq!(ts[1].amount, 975);
}

#[test]
fn addresses_compare_by_bytes() {
    assert_eq!(addr("alice"), addr("alice"));
    assert_ne!(addr("alice"), addr("alicf"));
    assert_ne!(addr("alice"), addr("alic"));
    assert_eq!(addr("bob").duplicate(), addr("bob"));
    assert_eq!(addr("bob").as_bytes(), &b"bob".to_vec());
}
