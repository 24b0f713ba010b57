//! The engine run through full scenarios. The host's asset-transfer
//! collaborator is simulated with plain balance variables: each successful
//! trade moves the buy amount from the buyer through custody to the seller
//! and the returned sell amount out of custody to the buyer.

use single_offer::SingleOfferWork;

fn create_single_offer_work(
    seller: u64,
    sell_token: u64,
    buy_token: u64,
    sell_price: u32,
    buy_price: u32,
    min_buy_amount: i128,
) -> SingleOfferWork {
    let mut engine = SingleOfferWork::new();
    engine
        .create(seller, seller, sell_token, buy_token, sell_price, buy_price, min_buy_amount)
        .unwrap();
    engine
}

#[test]
fn test_happy_path() {
    let seller: u64 = 1;
    let buyer: u64 = 2;
    let sell_token: u64 = 10;
    let buy_token: u64 = 11;

    // Minted balances: 500 sell asset to the seller, 2000 buy asset to the buyer.
    let mut sell_seller: i128 = 500;
    let mut sell_buyer: i128 = 0;
    let mut sell_contract: i128 = 0;
    let mut buy_seller: i128 = 0;
    let mut buy_buyer: i128 = 2000;
    let mut buy_contract: i128 = 0;

    let mut offer = create_single_offer_work(
        seller, sell_token, buy_token, 1, // 1 sell_token
        2, // 2 buy_token
        10,
    );

    // The seller funds the contract's custody with 100 sell asset.
    sell_seller -= 100;
    sell_contract += 100;

    assert!(offer.trade(buyer, buyer, 5, 1, sell_contract, 0).is_err());
    let sold = offer.trade(buyer, buyer, 20, 10, sell_contract, 0).unwrap();
    buy_buyer -= 20;
    buy_contract += 20;
    sell_contract -= sold;
    sell_buyer += sold;
    buy_contract -= 20;
    buy_seller += 20;

    assert_eq!(sell_seller, 400);
    assert_eq!(sell_buyer, 10);
    assert_eq!(sell_contract, 90);
    assert_eq!(buy_seller, 20);
    assert_eq!(buy_buyer, 1980);
    assert_eq!(buy_contract, 0);

    let payment = offer.withdraw(seller, sell_token, 40).unwrap();
    assert_eq!(payment.token, sell_token);
    assert_eq!(payment.to, seller);
    assert_eq!(payment.amount, 40);
    sell_contract -= payment.amount;
    sell_seller += payment.amount;

    assert_eq!(sell_seller, 440);
    assert_eq!(sell_contract, 50);

    offer.update_price(seller, 2, 2).unwrap();
    let sold = offer.trade(buyer, buyer, 20, 9, sell_contract, 1).unwrap();
    sell_contract -= sold;
    sell_buyer += sold;

    let (last_buy, last_sell) = offer.get_last_price();
    assert_eq!(last_buy, 20);
    assert_eq!(last_sell, 20);

    let history = offer.get_trade_history();
    assert_eq!(history.len(), 2);
    assert_eq!(history[0].buy_amount, 20);
    assert_eq!(history[1].buy_amount, 20);
}

#[test]
fn test_offer_activation() {
    let seller: u64 = 1;
    let buyer: u64 = 2;
    let sell_token: u64 = 10;
    let buy_token: u64 = 11;

    let mut sell_seller: i128 = 100;
    let mut sell_contract: i128 = 0;

    let mut offer = create_single_offer_work(seller, sell_token, buy_token, 1, 1, 1);
    sell_seller -= 100;
    sell_contract += 100;
    assert_eq!(sell_seller, 0);

    offer.set_active(seller, false).unwrap();
    assert!(offer.trade(buyer, buyer, 2, 2, sell_contract, 0).is_err());
    offer.set_active(seller, true).unwrap();
    offer.trade(buyer, buyer, 10, 10, sell_contract, 1).unwrap();

    let fetched = offer.get_offer().unwrap();
    assert!(fetched.is_active);
    assert_eq!(fetched.total_bought, 10);
    assert_eq!(fetched.total_sold, 10);
}
