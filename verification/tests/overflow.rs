use ledger_arith::debit;
use ledger_arith::ArithmeticError;

const INITIAL_BALANCE: u64 = 100;
const WITHDRAW_AMOUNT_OVERSHOOT: u64 = 200;

#[test]
fn test_secure_overflow_rejection() {
    // Attack: Withdraw 200 from 100.
    // Expected: Error (InsufficientFunds).

    let result = debit(INITIAL_BALANCE, WITHDRAW_AMOUNT_OVERSHOOT);

    match result {
        Ok(val) => panic!("Secure implementation allowed underflow! Value: {}", val),
        Err(e) => {
            println!("Secure implementation correctly returned error: {:?}", e);
            assert_eq!(e, ArithmeticError::InsufficientFunds);
        }
    }
}

#[test]
fn test_debit_exact_difference() {
    assert_eq!(debit(500, 200), Ok(300));
}

#[test]
fn test_debit_result_bounded_by_balance() {
    let balance: u64 = 750;
    let amount: u64 = 749;
    let result: u64 = debit(balance, amount).unwrap();
    assert_eq!(result, 1);
    assert!(result <= balance);
}

#[test]
fn test_debit_full_balance() {
    assert_eq!(debit(100, 100), Ok(0));
}

#[test]
fn test_debit_from_empty_balance() {
    assert_eq!(debit(0, 1), Err(ArithmeticError::InsufficientFunds));
}

#[test]
fn test_debit_max_values() {
    assert_eq!(debit(u64::MAX, u64::MAX), Ok(0));
    assert_eq!(debit(u64::MAX, 0), Ok(u64::MAX));
}

#[test]
fn test_debit_never_fabricates_value() {
    // A wrapping subtraction of 200 from 100 would produce 2^64 - 100,
    // fabricating near-infinite funds. The debit must reject the request,
    // not produce that value.
    let wrapped: u64 = INITIAL_BALANCE.wrapping_sub(WITHDRAW_AMOUNT_OVERSHOOT);
    assert!(wrapped > INITIAL_BALANCE);

    let result = debit(INITIAL_BALANCE, WITHDRAW_AMOUNT_OVERSHOOT);
    assert_ne!(result, Ok(wrapped));
    assert_eq!(result, Err(ArithmeticError::InsufficientFunds));
}
