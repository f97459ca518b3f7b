use bonding_curve::curve::SmoothBondingCurve;
use bonding_curve::errors::CustomError;
use bonding_curve::params::{
    deployed_curve, BONDING_SCALE_FACTOR, LAMPORTS_PER_SOL, TOTAL_TOKENS, VIRTUAL_POOL_OFFSET,
};

fn default_curve() -> SmoothBondingCurve {
    SmoothBondingCurve {
        a_total_tokens: TOTAL_TOKENS,
        k_virtual_pool_offset: BONDING_SCALE_FACTOR,
        c_bonding_scale_factor: VIRTUAL_POOL_OFFSET,
    }
}

/// Estimates the marginal price dX/dY = (C + x)^2 / K, for logging price growth.
fn approximate_price(curve: &SmoothBondingCurve, x: u64) -> f64 {
    let denom = (curve.c_bonding_scale_factor as f64) + (x as f64);
    let k = curve.k_virtual_pool_offset as f64;
    (denom * denom) / k
}

#[test]
fn test_buy_exact_input() {
    let curve = default_curve();
    let old_x = 0;
    let base_in = (10 * LAMPORTS_PER_SOL) as u64;

    let (minted, new_x) = curve.buy_exact_input(old_x, base_in).unwrap();
    println!("minted: {}", minted);
    println!("new_x (pool deposit) after buy: {}", new_x);

    assert!(
        (265_250_000..270_300_000).contains(&minted),
        "Minted tokens out of expected range: {}",
        minted
    );
}

#[test]
fn test_buy_exact_output() {
    let curve = default_curve();
    let old_x = 0;
    let tokens_out = 10_000;

    let (lamports_required, new_x) = curve.buy_exact_output(old_x, tokens_out).unwrap();
    println!("Tokens to buy: {}", tokens_out);
    println!("Lamports required: {}", lamports_required);
    println!("New x (pool deposit) after buy: {}", new_x);

    assert!(
        lamports_required > 0,
        "Lamports required should be greater than 0"
    );

    let real_new_y = curve.y_of_x(new_x).unwrap();
    assert_eq!(
        real_new_y, tokens_out,
        "The curve state should reflect the exact number of tokens bought"
    );
}

#[test]
fn test_buy_various_inputs() {
    let fractions = [10.0, 1.0, 0.1, 0.01, 0.001, 0.0001];
    let mut prev_minted = u128::MAX;
    let curve = default_curve();

    for fraction in fractions {
        let old_x_local = 0;

        let lamports_in = (LAMPORTS_PER_SOL as f64 * fraction) as u64;
        let (minted, new_x) = curve.buy_exact_input(old_x_local, lamports_in).unwrap();

        println!(
            "fraction = {:.4}, lamports_in = {}, minted = {}, new_x={}",
            fraction, lamports_in, minted, new_x
        );

        assert!(
            minted > 0,
            "Expected a positive number of tokens for fraction={}",
            fraction
        );
        assert!(
            (minted as u128) <= prev_minted,
            "Expected minted tokens to decrease as fraction decreases"
        );
        prev_minted = minted as u128;
    }
}

#[test]
fn test_sell_exact_input() {
    let curve = default_curve();
    let mut x = 0;

    let sol_in = (0.1 * LAMPORTS_PER_SOL as f64) as u64;
    let (minted_tokens, new_x) = curve.buy_exact_input(x, sol_in).unwrap();
    x = new_x;
    assert!(minted_tokens > 0);

    let tokens_to_sell = minted_tokens / 2;
    let (lamports_out, next_x) = curve.sell_exact_input(x, tokens_to_sell).unwrap();
    x = next_x;
    println!("lamports_out: {}", lamports_out);
    println!("new pool x after sell: {}", x);

    assert!(
        lamports_out > 0,
        "Should receive some base_tokens when selling tokens"
    );
}

#[test]
fn test_sell_exact_output() {
    let curve = default_curve();
    let mut x = 0;

    let base_in = (0.1 * LAMPORTS_PER_SOL as f64) as u64;
    let (minted_tokens, new_x) = curve.buy_exact_input(x, base_in).unwrap();
    x = new_x;
    assert!(minted_tokens > 0, "Initial token minting failed");

    let base_out = x / 2;

    let (tokens_burned, after_x) = curve.sell_exact_output(x, base_out).unwrap();
    println!("tokens_burned: {}", tokens_burned);
    println!("new pool x after sell: {}", after_x);

    let expected_after_withdraw = x.checked_sub(base_out).unwrap();
    assert_eq!(
        after_x, expected_after_withdraw,
        "Pool's base_tokens did not decrease correctly by base_out"
    );

    let old_y = curve.y_of_x(x).unwrap();
    let new_y = curve.y_of_x(after_x).unwrap();
    let real_burn = old_y.saturating_sub(new_y);
    assert_eq!(
        tokens_burned, real_burn,
        "Mismatch in token burn calculation"
    );
}

#[test]
fn test_buy_sell_symmetry() {
    let curve = default_curve();

    let mut x = 0;
    let lamports_in_a: u64 = 2 * LAMPORTS_PER_SOL;

    let (minted_a, x_after_buy) = curve.buy_exact_input(x, lamports_in_a).unwrap();
    x = x_after_buy;
    println!(
        "(A) Bought {} tokens for {} base_tokens, new x={}",
        minted_a, lamports_in_a, x
    );

    let (lamports_out_a, x_after_sell) = curve.sell_exact_input(x, minted_a).unwrap();
    x = x_after_sell;
    println!(
        "(A) Sold back {} tokens, got {} base_tokens, new x={}",
        minted_a, lamports_out_a, x
    );

    let tolerance_a = 0;
    let diff_a = lamports_out_a as i64 - lamports_in_a as i64;
    assert!(
        diff_a.abs() <= tolerance_a,
        "Unexpected slippage in (A): diff={} (got {}, expected {})",
        diff_a,
        lamports_out_a,
        lamports_in_a
    );

    let mut x2 = 0;
    let tokens_out_b = 50_000;
    let (lamports_in_b, x2_after_buy) = curve.buy_exact_output(x2, tokens_out_b).unwrap();
    x2 = x2_after_buy;
    println!(
        "(B) Bought {} tokens (exact output) for {} base_tokens, new x={}",
        tokens_out_b, lamports_in_b, x2
    );

    let (lamports_out_b, x2_after_sell) = curve.sell_exact_input(x2, tokens_out_b).unwrap();
    x2 = x2_after_sell;
    println!(
        "(B) Sold {} tokens, got back {} base_tokens, new x={}",
        tokens_out_b, lamports_out_b, x2
    );

    let tolerance_b = 0;
    let diff_b = lamports_out_b as i64 - lamports_in_b as i64;
    assert!(
        diff_b.abs() <= tolerance_b,
        "Unexpected slippage in (B): diff={} (got {}, expected {})",
        diff_b,
        lamports_out_b,
        lamports_in_b
    );
}

#[test]
fn test_buy_until_70k_liquidity() {
    let curve = default_curve();
    let target_liquidity_usd = 70_000.0;
    let sol_price_usd = 250.0;
    let target_sol_in_pool = target_liquidity_usd / sol_price_usd;

    let mut x: u64 = 0;

    let base_in_per_step: u64 = LAMPORTS_PER_SOL;
    let max_iterations: u16 = 1000;
    let mut iteration = 0;

    while (x as f64) / (LAMPORTS_PER_SOL as f64) < target_sol_in_pool {
        iteration += 1;
        if iteration > max_iterations {
            panic!("Exceeded max iterations; something might be off.");
        }

        let (minted, new_x) = curve.buy_exact_input(x, base_in_per_step).unwrap();
        x = new_x;

        let total_pool_sol = (x as f64) / (LAMPORTS_PER_SOL as f64);
        let new_price = approximate_price(&curve, x);

        println!(
            "Iteration {}: +1 SOL => minted {} tokens, approx price={:.2e}, total SOL={:.4}",
            iteration, minted, new_price, total_pool_sol
        );
    }

    let final_sol = (x as f64) / (LAMPORTS_PER_SOL as f64);
    let final_usd = final_sol * sol_price_usd;
    println!(
        "Reached target liquidity.\n  - Final SOL in pool: {:.2}\n  - Final USD value: ${:.2}\n",
        final_sol, final_usd
    );

    assert!(
        final_usd >= 70_000.0,
        "Expected at least $70k in the pool, but got ${:.2}",
        final_usd
    );
}

#[test]
fn deployed_curve_matches_parameters() {
    let curve = deployed_curve();
    assert_eq!(curve.a_total_tokens, 1_073_000_191);
    assert_eq!(curve.k_virtual_pool_offset, 32_190_005_730u128 * 1_000_000_000);
    assert_eq!(curve.c_bonding_scale_factor, 30_000_000_000);
    assert_eq!(curve.y_of_x(0), Ok(0));
}

#[test]
fn supply_formula_exact_values() {
    let curve = default_curve();
    // y(1) = A - floor(K / (C + 1)) = 1_073_000_191 - 1_073_000_190
    assert_eq!(curve.y_of_x(1), Ok(1));
    assert_eq!(curve.y_of_x(10 * LAMPORTS_PER_SOL), Ok(268_250_048));
    assert_eq!(curve.y_of_x(1_000_000), Ok(35_766));
}

#[test]
fn supply_undefined_is_math_overflow() {
    // C = 0 at zero deposit divides by zero.
    let zero_offset = SmoothBondingCurve {
        a_total_tokens: 10,
        k_virtual_pool_offset: 100,
        c_bonding_scale_factor: 0,
    };
    assert_eq!(zero_offset.y_of_x(0), Err(CustomError::MathOverflow));
    // K / (C + x) above A would make the supply negative.
    let steep = SmoothBondingCurve {
        a_total_tokens: 5,
        k_virtual_pool_offset: 100,
        c_bonding_scale_factor: 10,
    };
    assert_eq!(steep.y_of_x(0), Err(CustomError::MathOverflow));
    assert_eq!(steep.y_of_x(10), Ok(0));
}

#[test]
fn deposit_of_a_thousandth_mints_in_range() {
    let curve = default_curve();
    let (minted, new_x) = curve.buy_exact_input(0, 1_000_000).unwrap();
    assert!((34_600..=36_700).contains(&minted), "minted {}", minted);
    assert_eq!(minted, 35_766);
    assert_eq!(new_x, 1_000_000);
}

#[test]
fn unit_buys_reach_280_within_1000_steps() {
    let curve = default_curve();
    let mut x: u64 = 0;
    let mut steps = 0;
    let mut last_supply = curve.y_of_x(0).unwrap();
    while x < 280 * LAMPORTS_PER_SOL {
        steps += 1;
        assert!(steps <= 1000, "did not converge");
        let (minted, new_x) = curve.buy_exact_input(x, LAMPORTS_PER_SOL).unwrap();
        assert!(minted > 0);
        assert_eq!(new_x, x + LAMPORTS_PER_SOL);
        let supply = curve.y_of_x(new_x).unwrap();
        assert_eq!(supply, last_supply + minted);
        last_supply = supply;
        x = new_x;
    }
    assert_eq!(steps, 280);
}

#[test]
fn sell_then_buy_back_restores_exact_deposit() {
    let curve = default_curve();
    // C + x = K / 10^9 divides K, so the inverse recovers x exactly.
    let x: u64 = 2_190_005_730;
    let (burned, mid_x) = curve.sell_exact_output(x, LAMPORTS_PER_SOL).unwrap();
    assert_eq!(mid_x, x - LAMPORTS_PER_SOL);
    let (paid, back_x) = curve.buy_exact_output(mid_x, burned).unwrap();
    assert_eq!(back_x, x);
    assert_eq!(paid, LAMPORTS_PER_SOL);
}

#[test]
fn sell_then_buy_back_rounds_up_elsewhere() {
    let curve = default_curve();
    let (burned, mid_x) = curve.sell_exact_output(1, 1).unwrap();
    assert_eq!((burned, mid_x), (1, 0));
    let (paid, back_x) = curve.buy_exact_output(mid_x, burned).unwrap();
    assert_eq!((paid, back_x), (27, 27));
}

#[test]
fn buy_exact_output_at_asymptote_fails() {
    let curve = default_curve();
    assert_eq!(
        curve.buy_exact_output(0, TOTAL_TOKENS),
        Err(CustomError::InsufficientTokenSupply)
    );
    let x = 5 * LAMPORTS_PER_SOL;
    let y = curve.y_of_x(x).unwrap();
    assert_eq!(
        curve.buy_exact_output(x, TOTAL_TOKENS - y),
        Err(CustomError::InsufficientTokenSupply)
    );
    assert_eq!(
        curve.buy_exact_output(x, u64::MAX),
        Err(CustomError::InsufficientTokenSupply)
    );
    // One token below the asymptote needs a deposit of K - C, beyond u64.
    assert_eq!(
        curve.buy_exact_output(x, TOTAL_TOKENS - y - 1),
        Err(CustomError::MathOverflow)
    );
}

#[test]
fn supply_is_nondecreasing_and_price_rises() {
    let curve = default_curve();
    let xs = [0u64, 1, 2, 1_000, 1_000_000, LAMPORTS_PER_SOL, 100 * LAMPORTS_PER_SOL];
    for w in xs.windows(2) {
        let y0 = curve.y_of_x(w[0]).unwrap();
        let y1 = curve.y_of_x(w[1]).unwrap();
        assert!(y0 <= y1);
        assert!(approximate_price(&curve, w[0]) < approximate_price(&curve, w[1]));
    }
    // One base unit is below the curve's resolution here: the supply stays flat.
    assert_eq!(curve.y_of_x(1), curve.y_of_x(2));
}

#[test]
fn trades_keep_supply_below_asymptote() {
    let curve = default_curve();
    let mut x: u64 = 0;
    for step in 0..50u64 {
        let (_, nx) = curve.buy_exact_input(x, (step + 1) * 7 * LAMPORTS_PER_SOL).unwrap();
        x = nx;
        assert!(curve.y_of_x(x).unwrap() < TOTAL_TOKENS);
    }
    let (_, nx) = curve.buy_exact_input(x, u64::MAX - x).unwrap();
    assert!(curve.y_of_x(nx).unwrap() < TOTAL_TOKENS);
}

#[test]
fn buy_reaching_asymptote_is_refused() {
    let shallow = SmoothBondingCurve {
        a_total_tokens: 10,
        k_virtual_pool_offset: 100,
        c_bonding_scale_factor: 10,
    };
    assert_eq!(shallow.buy_exact_input(0, 90), Ok((9, 90)));
    assert_eq!(
        shallow.buy_exact_input(0, 91),
        Err(CustomError::InsufficientTokenSupply)
    );
}

#[test]
fn round_trip_never_pays_back_more() {
    let curve = default_curve();
    for (old_x, v) in [(0u64, 1_000u64), (1, 1_000_000), (12_345, LAMPORTS_PER_SOL), (7 * LAMPORTS_PER_SOL, 3 * LAMPORTS_PER_SOL)] {
        let (tokens, mid_x) = curve.buy_exact_input(old_x, v).unwrap();
        match curve.sell_exact_input(mid_x, tokens) {
            Ok((back, end_x)) => {
                assert!(back <= v);
                assert!(end_x >= old_x);
                assert_eq!(back + (end_x - old_x), v);
            }
            Err(e) => assert_eq!(e, CustomError::MathOverflow),
        }
    }
    // From x = 1 the inverse rounds the deposit up to 27: one unit in, nothing to sell back.
    let (tokens, mid_x) = curve.buy_exact_input(1, 1_000_000).unwrap();
    let (back, end_x) = curve.sell_exact_input(mid_x, tokens).unwrap();
    assert_eq!(end_x, 27);
    assert_eq!(back, 1_000_000 - 26);
}

#[test]
fn exact_output_of_minted_tokens_costs_at_least_input() {
    let curve = default_curve();
    for (old_x, v) in [(0u64, 1u64), (0, 1_000_000), (3, LAMPORTS_PER_SOL), (LAMPORTS_PER_SOL, 123_456_789)] {
        let (tokens, mid_x) = curve.buy_exact_input(old_x, v).unwrap();
        let (required, x) = curve.buy_exact_output(old_x, tokens).unwrap();
        assert!(required >= v);
        assert!(x >= mid_x);
    }
    let (tokens, _) = curve.buy_exact_input(0, 1).unwrap();
    assert_eq!(curve.buy_exact_output(0, tokens), Ok((27, 27)));
    // At a deposit that the inverse recovers exactly, the cost is exactly the input.
    let (tokens, mid_x) = curve.buy_exact_input(0, 2_190_005_730).unwrap();
    assert_eq!(curve.buy_exact_output(0, tokens), Ok((2_190_005_730, mid_x)));
}

#[test]
fn buy_exact_input_overflow_is_math_overflow() {
    let curve = default_curve();
    assert_eq!(
        curve.buy_exact_input(u64::MAX, 1),
        Err(CustomError::MathOverflow)
    );
}

#[test]
fn sell_more_than_supply_fails() {
    let curve = default_curve();
    let (tokens, x) = curve.buy_exact_input(0, LAMPORTS_PER_SOL).unwrap();
    assert_eq!(
        curve.sell_exact_input(x, tokens + 1),
        Err(CustomError::InsufficientTokenSupply)
    );
    assert_eq!(
        curve.sell_exact_output(x, x + 1),
        Err(CustomError::InsufficientTokenSupply)
    );
    assert_eq!(curve.sell_exact_output(x, x), Ok((tokens, 0)));
}

#[test]
fn solve_for_x_prime_cases() {
    let curve = default_curve();
    assert_eq!(curve.solve_for_x_prime(0), Ok(0));
    assert_eq!(
        curve.solve_for_x_prime(TOTAL_TOKENS as u128),
        Err(CustomError::InsufficientTokenSupply)
    );
    assert_eq!(curve.solve_for_x_prime(10_000), Ok(279_592));
    // K / A = 25 is below C = 30: the inverse would be negative.
    let steep = SmoothBondingCurve {
        a_total_tokens: 4,
        k_virtual_pool_offset: 100,
        c_bonding_scale_factor: 30,
    };
    assert_eq!(steep.solve_for_x_prime(0), Err(CustomError::MathOverflow));
    assert_eq!(steep.y_of_x(0), Ok(1));
    assert_eq!(steep.sell_exact_input(0, 1), Err(CustomError::MathOverflow));
}

#[test]
fn later_deposit_mints_no_more_up_to_rounding() {
    let curve = default_curve();
    let deposits = [0u64, 1, 1_000, LAMPORTS_PER_SOL, 50 * LAMPORTS_PER_SOL, 400 * LAMPORTS_PER_SOL];
    for v in [1u64, 1_000_000, LAMPORTS_PER_SOL, 10 * LAMPORTS_PER_SOL] {
        for w in deposits.windows(2) {
            let (m1, _) = curve.buy_exact_input(w[0], v).unwrap();
            let (m2, _) = curve.buy_exact_input(w[1], v).unwrap();
            assert!(m2 <= m1 + 1, "v={} x1={} x2={}", v, w[0], w[1]);
        }
    }
    // One base unit mints nothing at x = 1 but one token at x = 27: the floors add one.
    assert_eq!(curve.buy_exact_input(1, 1), Ok((0, 2)));
    assert_eq!(curve.buy_exact_input(27, 1), Ok((1, 28)));
}

#[test]
fn sell_exact_output_beyond_deposit_fails_before_pricing() {
    // The curve has no value at 0 here (K / C = 100 > A), yet asking for more than the
    // deposit is still a supply failure.
    let steep = SmoothBondingCurve {
        a_total_tokens: 1,
        k_virtual_pool_offset: 100,
        c_bonding_scale_factor: 1,
    };
    assert_eq!(
        steep.sell_exact_output(0, 1),
        Err(CustomError::InsufficientTokenSupply)
    );
    assert_eq!(steep.sell_exact_output(0, 0), Err(CustomError::MathOverflow));
}
