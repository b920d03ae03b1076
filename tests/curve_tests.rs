use meme_token::bucket::{AssetId, Bucket, Minted, ReceiptBucket};
use meme_token::curve_math::{
    calculate_buy_price, calculate_max_xrd, calculate_multiplier, calculate_price,
    calculate_sell_price, calculate_tokens_received, calculate_tokens_to_sell,
};
use meme_token::decimal::{Dec, Precise};
use meme_token::error::CurveError;
use meme_token::fair_launch::{claim_amount, FairLaunchReceipt};
use meme_token::fees::split;
use meme_token::launch_parameters::str_eq;
use meme_token::radix_meme_main::RadixMemeMain;
use meme_token::radix_meme_token_curve::RadixMemeTokenCurve;
use meme_token::token_curves::TokenCurves;

const PAY: AssetId = AssetId { id: 1 };
const TOKEN: AssetId = AssetId { id: 2 };
const RECEIPT: AssetId = AssetId { id: 3 };

fn dv(s: &str) -> Dec {
    let (whole, frac) = match s.split_once('.') {
        Some((w, f)) => (w, f),
        None => (s, ""),
    };
    let mut digits = String::from(frac);
    while digits.len() < 18 {
        digits.push('0');
    }
    Dec::from_attos(whole.parse::<i128>().unwrap() * 1_000_000_000_000_000_000 + digits.parse::<i128>().unwrap())
}

fn curve_with(fee: &str, fair_launch_mins: u32) -> RadixMemeTokenCurve {
    RadixMemeTokenCurve::new(
        dv("1000000"),
        dv("1000000"),
        dv("1000000"),
        dv(fee),
        dv("0"),
        dv("0"),
        fair_launch_mins,
        0,
        PAY,
        TOKEN,
        RECEIPT,
    )
    .unwrap()
}

fn slope() -> Precise {
    calculate_multiplier(dv("1000000"), dv("1000000")).unwrap()
}

fn tokens_of(m: Minted) -> Dec {
    match m {
        Minted::Tokens(b) => b.amount,
        Minted::Receipts(_) => panic!("tokens expected"),
    }
}

fn receipt_ids_of(m: Minted) -> Vec<u64> {
    match m {
        Minted::Receipts(b) => b.ids,
        Minted::Tokens(_) => panic!("receipts expected"),
    }
}

#[test]
fn slope_and_cap_of_the_default_curve() {
    let m = slope();
    // 10^-12 is 10^24 subunits of 10^-36.
    assert_eq!(m, Precise { l0: 2003764205206896640, l1: 54210, l2: 0, l3: 0 });
    assert_eq!(calculate_max_xrd(m, dv("1000000")), Some(dv("333333.333333333333333333")));
}

#[test]
fn price_at_known_supplies() {
    let m = slope();
    assert_eq!(calculate_price(dv("0"), m), Some(dv("0")));
    assert_eq!(calculate_price(dv("1000000"), m), Some(dv("1")));
    assert_eq!(calculate_price(dv("1000"), m), Some(dv("0.000001")));
    assert_eq!(calculate_price(dv("66943.295008216952188266"), m), Some(dv("0.004481404746557164")));
}

#[test]
fn price_never_falls_as_supply_grows() {
    let m = slope();
    let supplies = ["0", "0.000000000000000001", "1", "1000", "66943.29", "500000", "1000000"];
    let mut last = dv("0");
    for s in supplies.iter() {
        let p = calculate_price(dv(s), m).unwrap();
        assert!(p.attos >= last.attos);
        last = p;
    }
    // Truncation to 18 places can hide a tiny rise.
    assert_eq!(calculate_price(dv("0.000000000000000001"), m), Some(dv("0")));
}

#[test]
fn buy_price_uses_the_difference_of_cubes() {
    let m = slope();
    assert_eq!(calculate_buy_price(dv("66943.295008216952188266"), dv("0"), m), Some(dv("100")));
    // m/3 * (2000^3 - 1000^3) = 10^-12 / 3 * 7 * 10^9
    assert_eq!(calculate_buy_price(dv("1000"), dv("1000"), m), Some(dv("0.002333333333333333")));
    assert_eq!(calculate_buy_price(dv("0"), dv("1000"), m), Some(dv("0")));
}

#[test]
fn sell_price_mirrors_buy_price() {
    let m = slope();
    assert_eq!(calculate_sell_price(dv("1000"), dv("2000"), m), Some(dv("0.002333333333333333")));
    assert_eq!(calculate_sell_price(dv("53132.928459130553302387"), dv("53132.928459130553302387"), m), Some(dv("50")));
}

#[test]
fn a_mint_that_would_come_out_negative_is_refused() {
    // A slope of 2^192 precise subunits truncates the cube of one atto to zero.
    let steep = Precise { l0: 0, l1: 0, l2: 0, l3: 1 };
    let one_atto = Dec::from_attos(1);
    assert_eq!(calculate_tokens_received(one_atto, one_atto, steep), None);
}

#[test]
fn mint_and_payment_round_trip() {
    let m = slope();
    let minted = calculate_tokens_received(dv("100"), dv("0"), m).unwrap();
    assert_eq!(minted, dv("66943.295008216952188266"));
    assert_eq!(calculate_buy_price(minted, dv("0"), m), Some(dv("100")));
    let burnt = calculate_tokens_to_sell(dv("50"), minted, m).unwrap();
    assert_eq!(burnt, dv("13810.366549086398885879"));
    assert_eq!(calculate_tokens_received(dv("0"), dv("10"), m), Some(dv("0")));
    assert_eq!(calculate_tokens_to_sell(dv("0"), dv("10"), m), Ok(dv("0")));
}

#[test]
fn asking_more_than_the_supply_releases_is_refused() {
    let m = slope();
    // Burning all 1000 tokens releases far less than 1.
    assert_eq!(calculate_tokens_to_sell(dv("1"), dv("1000"), m), Err(CurveError::CapacityExceeded));
    assert_eq!(calculate_tokens_to_sell(dv("1"), dv("0"), m), Err(CurveError::CapacityExceeded));
    assert_eq!(calculate_sell_price(dv("1001"), dv("1000"), m), None);
    let mut c = curve_with("0", 0);
    c.buy_amount(dv("1000"), Bucket::new(PAY, dv("1")), 1).unwrap();
    c.xrd_vault = dv("10");
    let r = c.sell_for_xrd_amount(dv("1"), Bucket::new(TOKEN, dv("1000")), 1);
    assert_eq!(r.unwrap_err(), CurveError::CapacityExceeded);
    assert_eq!(c.current_supply, dv("1000"));
}

#[test]
fn fee_split_is_exact() {
    assert_eq!(split(dv("100"), dv("0.01")), Some((dv("99"), dv("1"))));
    assert_eq!(split(dv("0.000000000000000099"), dv("0.01")), Some((dv("0.000000000000000099"), dv("0"))));
    assert_eq!(split(dv("0"), dv("0.5")), Some((dv("0"), dv("0"))));
}

#[test]
fn pro_rata_claims_split_the_escrow() {
    assert_eq!(claim_amount(dv("1000"), dv("60"), dv("100")), Some(dv("600")));
    assert_eq!(claim_amount(dv("400"), dv("40"), dv("40")), Some(dv("400")));
    assert_eq!(claim_amount(dv("1000"), dv("40"), dv("100")), Some(dv("400")));
    assert_eq!(claim_amount(dv("600"), dv("60"), dv("60")), Some(dv("600")));
    assert_eq!(claim_amount(dv("1000"), dv("60"), dv("0")), None);
}

fn escrowed_curve() -> RadixMemeTokenCurve {
    let mut c = curve_with("0", 10);
    c.in_fair_launch_period = true;
    c.receipts = vec![
        FairLaunchReceipt { id: 0, xrd_amount: dv("60") },
        FairLaunchReceipt { id: 1, xrd_amount: dv("40") },
    ];
    c.next_receipt_id = 2;
    c.fair_launch_tokens = dv("1000");
    c.fair_launch_xrd = dv("100");
    c
}

#[test]
fn fair_launch_redemption_in_either_order() {
    let after = 601;
    let mut c = escrowed_curve();
    let a = c.claim_fair_launch_tokens(ReceiptBucket { resource: RECEIPT, ids: vec![0] }, after).unwrap();
    let b = c.claim_fair_launch_tokens(ReceiptBucket { resource: RECEIPT, ids: vec![1] }, after).unwrap();
    assert_eq!((a.amount, b.amount), (dv("600"), dv("400")));
    assert_eq!(c.fair_launch_tokens, dv("0"));
    assert_eq!(c.fair_launch_xrd, dv("0"));

    let mut c = escrowed_curve();
    let b = c.claim_fair_launch_tokens(ReceiptBucket { resource: RECEIPT, ids: vec![1] }, after).unwrap();
    let a = c.claim_fair_launch_tokens(ReceiptBucket { resource: RECEIPT, ids: vec![0] }, after).unwrap();
    assert_eq!((a.amount, b.amount), (dv("600"), dv("400")));
    assert_eq!(c.fair_launch_tokens, dv("0"));

    let mut c = escrowed_curve();
    let both = c.claim_fair_launch_tokens(ReceiptBucket { resource: RECEIPT, ids: vec![1, 0] }, after).unwrap();
    assert_eq!(both.amount, dv("1000"));
    assert_eq!(both.resource, TOKEN);
    assert!(c.receipts.is_empty());
}

#[test]
fn receipts_are_redeemed_once() {
    let mut c = escrowed_curve();
    let twice = c.claim_fair_launch_tokens(ReceiptBucket { resource: RECEIPT, ids: vec![0, 0] }, 601);
    assert_eq!(twice.unwrap_err(), CurveError::UnknownOrForeignReceipt);
    assert_eq!(c.fair_launch_tokens, dv("1000"));
    assert_eq!(c.receipts.len(), 2);
    assert!(c.in_fair_launch_period);
    c.claim_fair_launch_tokens(ReceiptBucket { resource: RECEIPT, ids: vec![0] }, 601).unwrap();
    let again = c.claim_fair_launch_tokens(ReceiptBucket { resource: RECEIPT, ids: vec![0] }, 601);
    assert_eq!(again.unwrap_err(), CurveError::UnknownOrForeignReceipt);
    let foreign = c.claim_fair_launch_tokens(ReceiptBucket { resource: TOKEN, ids: vec![1] }, 601);
    assert_eq!(foreign.unwrap_err(), CurveError::UnknownOrForeignReceipt);
    let unknown = c.claim_fair_launch_tokens(ReceiptBucket { resource: RECEIPT, ids: vec![7] }, 601);
    assert_eq!(unknown.unwrap_err(), CurveError::UnknownOrForeignReceipt);
}

#[test]
fn selling_waits_for_the_fair_launch_to_end() {
    let mut c = curve_with("0", 10);
    assert!(c.in_fair_launch_period);
    let (minted, change) = c.buy(Bucket::new(PAY, dv("100")), 60).unwrap();
    assert_eq!(receipt_ids_of(minted), vec![0]);
    assert_eq!(change.amount, dv("0"));
    assert_eq!(c.fair_launch_tokens, dv("66943.295008216952188266"));
    assert_eq!(c.fair_launch_xrd, dv("100"));
    let early = c.claim_fair_launch_tokens(ReceiptBucket { resource: RECEIPT, ids: vec![0] }, 600);
    assert_eq!(early.unwrap_err(), CurveError::PhaseNotEnded);
    let sell_early = c.sell(Bucket::new(TOKEN, dv("1")), 600);
    assert_eq!(sell_early.unwrap_err(), CurveError::InvalidPhase);
    assert!(c.in_fair_launch_period);

    let claimed = c.claim_fair_launch_tokens(ReceiptBucket { resource: RECEIPT, ids: vec![0] }, 601).unwrap();
    assert_eq!(claimed.amount, dv("66943.295008216952188266"));
    assert!(!c.in_fair_launch_period);
    let (out, _) = c.sell(Bucket::new(TOKEN, claimed.amount), 602).unwrap();
    assert_eq!(out.amount, dv("100"));
    assert_eq!(c.current_supply, dv("0"));
}

#[test]
fn end_to_end_with_no_fees() {
    let mut c = curve_with("0", 0);
    let (minted, _) = c.buy(Bucket::new(PAY, dv("100")), 1).unwrap();
    let tokens = tokens_of(minted);
    assert_eq!(c.current_supply, dv("66943.295008216952188266"));
    assert_eq!(c.last_price, dv("0.004481404746557164"));
    let (out, rest) = c.sell(Bucket::new(TOKEN, tokens), 2).unwrap();
    assert_eq!(out.amount, dv("100"));
    assert_eq!(rest.amount, dv("0"));
    assert_eq!(c.current_supply, dv("0"));
    assert_eq!(c.last_price, dv("0"));
    assert_eq!(c.xrd_vault, dv("0"));
}

#[test]
fn exact_trades_track_the_curve_value() {
    let mut c = curve_with("0", 0);
    let m = c.multiplier;
    let amounts = ["12345.678", "0.000000000000000001", "77777.7", "3", "250000"];
    let mut trades: i128 = 0;
    for a in amounts.iter() {
        c.buy_amount(dv(a), Bucket::new(PAY, dv("1000000")), 1).unwrap();
        trades += 1;
        let value = calculate_buy_price(c.current_supply, dv("0"), m).unwrap();
        assert!((c.xrd_vault.attos - value.attos).abs() <= trades);
    }
    for a in amounts.iter() {
        c.sell(Bucket::new(TOKEN, dv(a)), 1).unwrap();
        trades += 1;
        let value = calculate_buy_price(c.current_supply, dv("0"), m).unwrap();
        assert!((c.xrd_vault.attos - value.attos).abs() <= trades);
    }
    assert_eq!(c.current_supply, dv("0"));
}

#[test]
fn buying_past_the_tradable_supply_is_refused() {
    let mut c = curve_with("0", 0);
    let r = c.buy_amount(dv("1000000.000000000000000001"), Bucket::new(PAY, dv("400000")), 1);
    assert_eq!(r.unwrap_err(), CurveError::CapacityExceeded);
    assert_eq!(c.current_supply, dv("0"));
}

#[test]
fn buying_up_to_the_cap_lists_the_token() {
    let mut c = curve_with("0.01", 0);
    // The payment is cut to the headroom, 333333.333333333333333333, and the
    // 1% fee comes out of it.
    let (minted, change) = c.buy(Bucket::new(PAY, dv("400000")), 5).unwrap();
    assert_eq!(tokens_of(minted), dv("996655.493412596363794417"));
    assert_eq!(c.fee_vault, dv("3333.333333333333333333"));
    assert_eq!(c.xrd_vault, dv("330000"));
    assert_eq!(change.amount, dv("66666.666666666666666667"));
    assert_eq!(c.target_reached, Some(5));
    let closed = c.buy(Bucket::new(PAY, dv("1")), 6);
    assert_eq!(closed.unwrap_err(), CurveError::InvalidPhase);
    let closed = c.sell(Bucket::new(TOKEN, dv("1")), 6);
    assert_eq!(closed.unwrap_err(), CurveError::InvalidPhase);
}

#[test]
fn paying_exactly_the_headroom_lists_the_token() {
    let mut c = curve_with("0", 0);
    let (minted, change) = c.buy(Bucket::new(PAY, dv("333333.333333333333333333")), 7).unwrap();
    assert_eq!(tokens_of(minted), dv("1000000"));
    assert_eq!(change.amount, dv("0"));
    assert_eq!(c.target_reached, Some(7));
}

#[test]
fn the_last_tokens_can_be_bought_despite_rounding() {
    let mut c = RadixMemeTokenCurve::new(
        dv("3"), dv("3"), dv("2"), dv("0"), dv("0"), dv("0"), 0, 0, PAY, TOKEN, RECEIPT,
    )
    .unwrap();
    assert_eq!(c.max_xrd, dv("0.666666666666666666"));
    assert_eq!(calculate_buy_price(dv("3"), dv("0"), c.multiplier), Some(dv("0.666666666666666667")));
    let (minted, change) = c.buy_amount(dv("3"), Bucket::new(PAY, dv("1")), 4).unwrap();
    assert_eq!(tokens_of(minted), dv("3"));
    assert_eq!(change.amount, dv("0.333333333333333333"));
    assert_eq!(c.xrd_vault, dv("0.666666666666666667"));
    assert_eq!(c.target_reached, Some(4));
}

#[test]
fn the_last_redemption_empties_the_escrow() {
    let mut c = curve_with("0", 10);
    c.receipts = vec![FairLaunchReceipt { id: 0, xrd_amount: dv("0.5") }];
    c.next_receipt_id = 1;
    c.fair_launch_tokens = Dec::from_attos(1);
    c.fair_launch_xrd = dv("0.5");
    assert_eq!(claim_amount(Dec::from_attos(1), dv("0.5"), dv("0.5")), Some(Dec::from_attos(1)));
    let b = c.claim_fair_launch_tokens(ReceiptBucket { resource: RECEIPT, ids: vec![0] }, 601).unwrap();
    assert_eq!(b.amount, Dec::from_attos(1));
    assert_eq!(c.fair_launch_tokens, dv("0"));
    assert_eq!(c.fair_launch_xrd, dv("0"));
}

#[test]
fn buy_amount_at_the_cap_lists_the_token() {
    let mut c = curve_with("0", 0);
    c.buy_amount(dv("1000000"), Bucket::new(PAY, dv("333333.333333333333333333")), 9).unwrap();
    assert_eq!(c.target_reached, Some(9));
}

#[test]
fn fees_come_out_of_the_payment_leg() {
    let mut c = curve_with("0.01", 0);
    let (minted, change) = c.buy(Bucket::new(PAY, dv("100")), 1).unwrap();
    assert_eq!(change.amount, dv("0"));
    assert_eq!(c.fee_vault, dv("1"));
    assert_eq!(c.xrd_vault, dv("99"));
    let tokens = tokens_of(minted);
    assert_eq!(Some(tokens), calculate_tokens_received(dv("99"), dv("0"), c.multiplier));
    let (out, _) = c.sell(Bucket::new(TOKEN, tokens), 2).unwrap();
    assert_eq!(out.amount, dv("98.01"));
    assert_eq!(c.fee_vault, dv("1.99"));
    assert_eq!(c.claim_all_fees().amount, dv("1.99"));
    assert_eq!(c.fee_vault, dv("0"));
}

#[test]
fn refusals_name_their_reason() {
    let mut c = curve_with("0.01", 0);
    assert_eq!(c.buy(Bucket::new(TOKEN, dv("1")), 1).unwrap_err(), CurveError::InvalidAsset);
    assert_eq!(c.sell(Bucket::new(PAY, dv("1")), 1).unwrap_err(), CurveError::InvalidAsset);
    assert_eq!(c.buy(Bucket::new(PAY, dv("0")), 1).map(|(_, ch)| ch.amount), Ok(dv("0")));
    let short = c.buy_amount(dv("1000"), Bucket::new(PAY, dv("0.0003")), 1);
    assert_eq!(short.unwrap_err(), CurveError::InsufficientFunds);
    c.buy_amount(dv("1000"), Bucket::new(PAY, dv("1")), 1).unwrap();
    let too_many = c.sell(Bucket::new(TOKEN, dv("1001")), 1);
    assert_eq!(too_many.unwrap_err(), CurveError::CapacityExceeded);
    let few = c.sell_for_xrd_amount(dv("0.0003"), Bucket::new(TOKEN, dv("1")), 1);
    assert_eq!(few.unwrap_err(), CurveError::InsufficientTokens);
    let vault_short = c.sell_for_xrd_amount(dv("1"), Bucket::new(TOKEN, dv("1000")), 1);
    assert_eq!(vault_short.unwrap_err(), CurveError::CapacityExceeded);
    let negative = c.buy_amount(Dec::from_attos(-1), Bucket::new(PAY, dv("1")), 1);
    assert_eq!(negative.unwrap_err(), CurveError::InvalidParameter);
}

#[test]
fn a_desynchronised_vault_is_an_internal_fault() {
    let mut c = curve_with("0", 0);
    c.current_supply = dv("1000");
    c.last_price = calculate_price(dv("1000"), c.multiplier).unwrap();
    let r = c.sell(Bucket::new(TOKEN, dv("10")), 1);
    assert_eq!(r.unwrap_err(), CurveError::InternalInvariantViolation);
    assert_eq!(c.current_supply, dv("1000"));
}

#[test]
fn curve_creation_checks_its_parameters() {
    let bad_fee = RadixMemeTokenCurve::new(
        dv("1"), dv("1"), dv("1"), dv("1"), dv("0"), dv("0"), 0, 0, PAY, TOKEN, RECEIPT,
    );
    assert_eq!(bad_fee.err(), Some(CurveError::InvalidParameter));
    let huge = RadixMemeTokenCurve::new(
        dv("1"),
        dv("100000000000000000000"),
        dv("1"),
        dv("0"),
        dv("0"),
        dv("0"),
        0,
        0,
        PAY,
        TOKEN,
        RECEIPT,
    );
    assert_eq!(huge.err(), Some(CurveError::Overflow));
}

#[test]
fn launcher_parameters_change_by_name() {
    let mut main = RadixMemeMain::new(dv("1"), dv("1"), dv("1"), dv("0"), dv("0"), dv("0"), 0, PAY);
    let ok = main.change_default_parameters(vec![
        (String::from("tx_fee_perc"), String::from("0.01")),
        (String::from("max_xrd_market_cap"), String::from("2500.5")),
    ]);
    assert_eq!(ok, Ok(()));
    assert_eq!(main.params.tx_fee_perc, dv("0.01"));
    assert_eq!(main.params.max_xrd_market_cap, dv("2500.5"));
    let bad_name = main.change_default_parameters(vec![
        (String::from("max_token_supply"), String::from("5")),
        (String::from("colour"), String::from("1")),
    ]);
    assert_eq!(bad_name, Err(CurveError::InvalidParameter));
    assert_eq!(main.params.max_token_supply, dv("1"));
    let bad_value = main.change_default_parameters(vec![(String::from("max_token_supply"), String::from("abc"))]);
    assert_eq!(bad_value, Err(CurveError::InvalidParameter));
    let bad_fee = main.change_default_parameters(vec![(String::from("creator_fee_perc"), String::from("1.5"))]);
    assert_eq!(bad_fee, Err(CurveError::InvalidParameter));

    let mut plain = TokenCurves::new(dv("1"), dv("1"), dv("1"), dv("0"), dv("0"), PAY);
    let no_creator = plain.change_default_parameters(vec![(String::from("creator_fee_perc"), String::from("0.1"))]);
    assert_eq!(no_creator, Err(CurveError::InvalidParameter));
    assert!(str_eq("abc", "abc"));
    assert!(!str_eq("abc", "abd"));
}

#[test]
fn launcher_creates_curves_and_keeps_fees() {
    let mut main = RadixMemeMain::new(
        dv("1000000"), dv("1000000"), dv("1000000"), dv("0.01"), dv("0.05"), dv("0.05"), 5, PAY,
    );
    let c = main.new_token_curve_simple(100).unwrap();
    assert_eq!(c.token_resource, AssetId { id: 2 });
    assert_eq!(c.receipt_resource, AssetId { id: 3 });
    assert!(c.in_fair_launch_period);
    assert_eq!(c.time_created, 100);
    let d2 = main.new_token_curve_simple(101).unwrap();
    assert_eq!(d2.token_resource, AssetId { id: 4 });
    assert_eq!(main.tokens, vec![AssetId { id: 2 }, AssetId { id: 4 }]);

    assert_eq!(main.transfer_fees(Bucket::new(TOKEN, dv("1"))), Err(CurveError::InvalidAsset));
    main.transfer_fees(Bucket::new(PAY, dv("10"))).unwrap();
    assert_eq!(main.claim_fee_amount(dv("11")).unwrap_err(), CurveError::InsufficientFunds);
    assert_eq!(main.claim_fee_amount(dv("4")).unwrap().amount, dv("4"));
    assert_eq!(main.claim_all_fees().amount, dv("6"));
    assert_eq!(main.fees_vault, dv("0"));

    let mut plain = TokenCurves::new(dv("1000000"), dv("1000000"), dv("1000000"), dv("0"), dv("0"), PAY);
    let p = plain.new_token_curve_simple().unwrap();
    assert_eq!(p.max_xrd, dv("333333.333333333333333333"));
    assert_eq!(p.max_supply, dv("1000000"));
}
