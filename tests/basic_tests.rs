use meme_token::bucket::{AssetId, Bucket, Minted};
use meme_token::decimal::Dec;
use meme_token::error::CurveError;
use meme_token::radix_meme_main::RadixMemeMain;
use meme_token::radix_meme_token_curve::RadixMemeTokenCurve;
use meme_token::token_curve::TokenCurve;

const XRD: AssetId = AssetId { id: 1 };

/// Reads a decimal written with up to 18 fractional digits.
fn d(s: &str) -> Dec {
    let (neg, body) = match s.strip_prefix('-') {
        Some(rest) => (true, rest),
        None => (false, s),
    };
    let (whole, frac) = match body.split_once('.') {
        Some((w, f)) => (w, f),
        None => (body, ""),
    };
    let mut frac_digits = String::from(frac);
    while frac_digits.len() < 18 {
        frac_digits.push('0');
    }
    let attos = whole.parse::<i128>().unwrap() * 1_000_000_000_000_000_000
        + frac_digits.parse::<i128>().unwrap();
    Dec::from_attos(if neg { -attos } else { attos })
}

/// A wallet holding payment and tokens, as an account on the ledger would.
struct Wallet {
    xrd: Dec,
    tokens: Dec,
}

struct TestEnv {
    parent: RadixMemeMain,
    token1: RadixMemeTokenCurve,
    owner: Wallet,
}

fn setup_test_env(fair_launch_period: u32, with_fees: bool) -> TestEnv {
    let (tx_fee, listing_fee, creator_fee) = if with_fees {
        (d("0.01"), d("0.05"), d("0.05"))
    } else {
        (d("0"), d("0"), d("0"))
    };
    let mut parent = RadixMemeMain::new(
        d("1000000"),
        d("1000000"),
        d("1000000"),
        tx_fee,
        listing_fee,
        creator_fee,
        fair_launch_period,
        XRD,
    );
    let token1 = parent.new_token_curve_simple(0).unwrap();
    TestEnv { parent, token1, owner: Wallet { xrd: d("10000"), tokens: d("0") } }
}

fn add(a: Dec, b: Dec) -> Dec {
    Dec::from_attos(a.attos + b.attos)
}

fn sub(a: Dec, b: Dec) -> Dec {
    Dec::from_attos(a.attos - b.attos)
}

fn token_buy(xrd_to_send: Dec, wallet: &mut Wallet, curve: &mut RadixMemeTokenCurve) {
    wallet.xrd = sub(wallet.xrd, xrd_to_send);
    let (minted, change) = curve.buy(Bucket::new(XRD, xrd_to_send), 1).unwrap();
    match minted {
        Minted::Tokens(b) => wallet.tokens = add(wallet.tokens, b.amount),
        Minted::Receipts(_) => panic!("tokens expected outside the fair launch"),
    }
    wallet.xrd = add(wallet.xrd, change.amount);
}

fn token_buy_amount(amount: Dec, xrd_to_send: Dec, wallet: &mut Wallet, curve: &mut RadixMemeTokenCurve) {
    wallet.xrd = sub(wallet.xrd, xrd_to_send);
    let (minted, change) = curve.buy_amount(amount, Bucket::new(XRD, xrd_to_send), 1).unwrap();
    match minted {
        Minted::Tokens(b) => wallet.tokens = add(wallet.tokens, b.amount),
        Minted::Receipts(_) => panic!("tokens expected outside the fair launch"),
    }
    wallet.xrd = add(wallet.xrd, change.amount);
}

fn token_sell(amount: Dec, wallet: &mut Wallet, curve: &mut RadixMemeTokenCurve) {
    wallet.tokens = sub(wallet.tokens, amount);
    let (out, rest) = curve.sell(Bucket::new(curve.token_resource, amount), 1).unwrap();
    wallet.xrd = add(wallet.xrd, out.amount);
    wallet.tokens = add(wallet.tokens, rest.amount);
}

fn token_sell_for_xrd_amount(
    xrd_amount: Dec,
    tokens_to_send: Dec,
    wallet: &mut Wallet,
    curve: &mut RadixMemeTokenCurve,
) {
    wallet.tokens = sub(wallet.tokens, tokens_to_send);
    let (out, rest) = curve
        .sell_for_xrd_amount(xrd_amount, Bucket::new(curve.token_resource, tokens_to_send), 1)
        .unwrap();
    wallet.xrd = add(wallet.xrd, out.amount);
    wallet.tokens = add(wallet.tokens, rest.amount);
}

#[test]
fn setup_env_test() {
    let env = setup_test_env(0, false);
    println!("Test env owner wallet: {:?}", env.owner.xrd);
    assert_eq!(env.parent.tokens.len(), 1);
    assert_eq!(env.parent.tokens[0], env.token1.token_resource);
    assert_eq!(env.token1.current_supply, d("0"));
    assert_eq!(env.token1.max_xrd, d("333333.333333333333333333"));
}

#[test]
fn simple_buy_sell_tests() {
    let mut env = setup_test_env(0, false);
    let owner = &mut env.owner;
    let curve = &mut env.token1;

    token_buy(d("100"), owner, curve);
    assert!(curve.last_price == d("0.004481404746557164"), "Incorrect price after buy");
    assert!(
        curve.current_supply == d("66943.295008216952188266"),
        "Incorrect supply after buy. {:?}",
        curve.current_supply
    );
    assert!(curve.xrd_vault == d("100"), "Incorrect XRD in component after first buy. {:?}", curve.xrd_vault);
    assert!(
        owner.tokens == d("66943.295008216952188266"),
        "Incorrect token Balance in account after first buy. {:?}",
        owner.tokens
    );
    assert!(owner.xrd == d("9900"), "Incorrect XRD Balance in account after first buy. {:?}", owner.xrd);

    token_sell(d("66943.295008216952188266"), owner, curve);
    assert!(curve.last_price == d("0"), "Incorrect current price after sell. {:?}", curve.last_price);
    assert!(curve.current_supply == d("0"), "Incorrect supply after sell. {:?}", curve.current_supply);
    assert!(curve.xrd_vault == d("0"), "Incorrect XRD in component after first sell. {:?}", curve.xrd_vault);
    assert!(owner.tokens == d("0"), "Incorrect token Balance in account after first sell. {:?}", owner.tokens);
    assert!(owner.xrd == d("10000"), "Incorrect XRD Balance in account after first sell. {:?}", owner.xrd);

    token_buy_amount(d("66943.295008216952188266"), d("100"), owner, curve);
    assert!(
        curve.last_price == d("0.004481404746557164"),
        "Incorrect current price after 2nd buy. {:?}",
        curve.last_price
    );
    assert!(
        curve.current_supply == d("66943.295008216952188266"),
        "Incorrect supply after 2nd buy. {:?}",
        curve.current_supply
    );
    assert!(curve.xrd_vault == d("100"), "Incorrect XRD in component after 2nd buy. {:?}", curve.xrd_vault);
    assert!(
        owner.tokens == d("66943.295008216952188266"),
        "Incorrect token Balance in account after 2nd buy. {:?}",
        owner.tokens
    );
    assert!(owner.xrd == d("9900"), "Incorrect XRD Balance in account after 2nd buy. {:?}", owner.xrd);

    token_sell_for_xrd_amount(d("50"), d("66943.295008216952188265"), owner, curve);
    assert!(
        curve.last_price == d("0.002823108086643085"),
        "Incorrect current price after sell for xrd amount"
    );
    assert!(
        curve.current_supply == d("53132.928459130553302387"),
        "Incorrect supply after sell for xrd amount. {:?}",
        curve.current_supply
    );
    assert!(
        curve.xrd_vault == d("50"),
        "Incorrect XRD in component after sell for xrd amount. {:?}",
        curve.xrd_vault
    );
    assert!(
        owner.tokens == d("53132.928459130553302387"),
        "Incorrect TOken Balance in wallet after sell for XRD amount. {:?}",
        owner.tokens
    );
    assert!(
        owner.xrd == d("9950"),
        "Incorrect XRD Balance in account after sell for XRD amount. {:?}",
        owner.xrd
    );

    token_sell(d("53132.928459130553302387"), owner, curve);
    println!("After last sell: ");
    assert!(curve.last_price == d("0"), "Incorrect current price after last sell");
    assert!(curve.current_supply == d("0"), "Incorrect supply after last sell");
    assert!(curve.xrd_vault == d("0"), "Incorrect XRD in component after last sell. {:?}", curve.xrd_vault);
    assert!(owner.tokens == d("0"), "Incorrect Token Balance in wallet after last sell. {:?}", owner.tokens);
    assert!(owner.xrd == d("10000"), "Incorrect XRD Balance in account after last sell. {:?}", owner.xrd);
}

#[test]
fn buy_sell_all_tokens_tests() {
    let mut env = setup_test_env(0, false);
    env.owner.xrd = add(env.owner.xrd, d("500000"));
    println!("XRD Balance in account: {:?}", env.owner.xrd);
    let owner = &mut env.owner;
    let curve = &mut env.token1;

    token_buy(d("500000"), owner, curve);
    assert!(curve.last_price == d("1"), "Incorrect price after buy");
    assert!(curve.current_supply == d("1000000"), "Incorrect supply after buy. {:?}", curve.current_supply);
    assert!(
        curve.xrd_vault == d("333333.333333333333333333"),
        "Incorrect XRD in component after first buy. {:?}",
        curve.xrd_vault
    );
    assert!(owner.tokens == d("1000000"), "Incorrect token Balance in account after first buy. {:?}", owner.tokens);
    assert!(
        owner.xrd == d("176666.666666666666666667"),
        "Incorrect XRD Balance in account after first buy. {:?}",
        owner.xrd
    );

    // The cap is reached, so the token is listed and the curve closed to trading.
    assert_eq!(curve.target_reached, Some(1));
    let refused = curve.sell_for_xrd_amount(
        d("333333.333333333333333333"),
        Bucket::new(curve.token_resource, d("1000000")),
        2,
    );
    assert_eq!(refused.unwrap_err(), CurveError::InvalidPhase);
    assert!(curve.current_supply == d("1000000"));

    // A plain curve has no listing: the same trades go through on it.
    let multiplier = curve.multiplier;
    let token = AssetId { id: 99 };
    let mut plain = TokenCurve::new(d("1000000"), d("333333.333333333333333333"), multiplier, XRD, token).unwrap();
    let (out, change) = plain.buy(Bucket::new(XRD, d("500000"))).unwrap();
    assert!(plain.last_price == d("1"), "Incorrect price after buy");
    assert!(plain.current_supply == d("1000000"));
    assert!(out.amount == d("1000000"));
    assert!(change.amount == d("166666.666666666666666667"));
    let mut xrd = add(d("10000"), change.amount);
    let (paid, rest) = plain
        .sell_for_xrd_amount(d("333333.333333333333333333"), Bucket::new(token, d("1000000")))
        .unwrap();
    xrd = add(xrd, paid.amount);
    println!("Sell receipt: {:?}", paid);
    assert!(
        plain.last_price == d("0.0000000000000001"),
        "Incorrect price after sell. {:?}",
        plain.last_price
    );
    assert!(plain.current_supply == d("0.01"), "Incorrect supply after sell. {:?}", plain.current_supply);
    assert!(plain.xrd_vault == d("0"), "Incorrect XRD in component after first sell. {:?}", plain.xrd_vault);
    assert!(rest.amount == d("0.01"), "Incorrect token Balance in account after first sell. {:?}", rest.amount);
    assert!(xrd == d("510000"), "Incorrect XRD Balance in account after first buy. {:?}", xrd);
}
