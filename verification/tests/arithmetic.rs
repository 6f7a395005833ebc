use scaled_token::Token;

#[test]
fn test_add_same_value_diff_decimals() {
    // 1 USD = 1_000_000 microUSD
    let token_1 = Token {
        value: 1_000_000,
        decimals: 6,
    };

    // 1 USD = 1_000 milliUSD
    let token_2 = Token {
        value: 1_000,
        decimals: 3,
    };

    let sum_of_value = token_1.add(token_2).unwrap();

    // Check that it is equal when Token uses same precision as result
    // i.e. 2_000_000 microUSD = 2USD
    assert_eq!(
        sum_of_value,
        Token {
            value: 2_000_000,
            decimals: 6
        }
    );

    // But also when the token represents the same underlying value
    // with a different precision.
    // i.e. 2_000_000 microUSD is still 2USD
    assert_eq!(
        sum_of_value,
        Token {
            value: 2,
            decimals: 0
        }
    )
}

#[test]
fn test_sub_diff_value_diff_decimals() {
    // 2 USD = 2_000_000 microUSD
    let token_1 = Token {
        value: 2_000_000,
        decimals: 6,
    };

    // 1 USD = 1_000 milliUSD
    let token_2 = Token {
        value: 1_000,
        decimals: 3,
    };

    let sub_value = token_1.sub(token_2).unwrap();

    // Check that it is equal when Token uses same precision as result
    // i.e. 1_000_000 microUSD = 1USD
    assert_eq!(
        sub_value,
        Token {
            value: 1_000_000,
            decimals: 6
        }
    );

    // But also when the token represents the same underlying value
    // with a different precision.
    // i.e. 1_000_000 microUSD is still 1USD
    assert_eq!(
        sub_value,
        Token {
            value: 1,
            decimals: 0
        }
    )
}

#[test]
fn test_add_exact_result_fields() {
    let sum = Token::new(1_000_000, 6).add(Token::new(1_000, 3)).unwrap();
    assert_eq!(sum.value, 2_000_000);
    assert_eq!(sum.decimals, 6);
}

#[test]
fn test_sub_exact_result_fields() {
    let diff = Token::new(2_000_000, 6).sub(Token::new(1_000, 3)).unwrap();
    assert_eq!(diff.value, 1_000_000);
    assert_eq!(diff.decimals, 6);
}

#[test]
fn test_add_commutative() {
    let a = Token::new(1_234, 4);
    let b = Token::new(56, 1);
    let ab = a.add(b).unwrap();
    let ba = b.add(a).unwrap();
    assert_eq!(ab.value, ba.value);
    assert_eq!(ab.decimals, ba.decimals);
    assert_eq!(ab.value, 57_234);
    assert_eq!(ab.decimals, 4);
}

#[test]
fn test_add_same_precision_is_plain_addition() {
    let sum = Token::new(3, 2).add(Token::new(4, 2)).unwrap();
    assert_eq!(sum.value, 7);
    assert_eq!(sum.decimals, 2);
}

#[test]
fn test_sub_same_precision_is_plain_subtraction() {
    let diff = Token::new(9, 4).sub(Token::new(5, 4)).unwrap();
    assert_eq!(diff.value, 4);
    assert_eq!(diff.decimals, 4);
}

#[test]
fn test_sub_underflow_fails() {
    // 1 - 2 would be negative, which no token can represent.
    assert!(Token::new(1, 0).sub(Token::new(2, 0)).is_err());
}

#[test]
fn test_sub_is_order_sensitive() {
    let larger = Token::new(2, 0);
    let smaller = Token::new(1, 0);
    let forward = larger.sub(smaller).unwrap();
    assert_eq!(forward.value, 1);
    assert_eq!(forward.decimals, 0);
    // The reversed order would need -1 and must fail instead.
    assert!(smaller.sub(larger).is_err());
}

#[test]
fn test_add_scale_overflow_fails() {
    // 10^250 fits in no u64, so the operands cannot be aligned.
    assert!(Token::new(1, 0).add(Token::new(1, 250)).is_err());
}

#[test]
fn test_sub_scale_overflow_fails() {
    assert!(Token::new(1, 0).sub(Token::new(1, 250)).is_err());
}

#[test]
fn test_add_magnitude_overflow_fails() {
    assert!(Token::new(u64::MAX, 0).add(Token::new(1, 0)).is_err());
}

#[test]
fn test_sub_scaled_magnitude_overflow_fails() {
    // Aligning rhs to one decimal place asks for u64::MAX * 10.
    assert!(Token::new(1, 1).sub(Token::new(u64::MAX, 0)).is_err());
}

#[test]
fn test_equals_same_quantity_across_precisions() {
    assert!(Token::new(5, 0).equals(&Token::new(500, 2)));
}

#[test]
fn test_equals_different_quantity() {
    assert!(!Token::new(5, 0).equals(&Token::new(501, 2)));
}

#[test]
fn test_equals_reflexive_symmetric_transitive() {
    let a = Token::new(5, 0);
    let b = Token::new(500, 2);
    let c = Token::new(5_000_000, 6);
    assert!(a.equals(&a));
    assert!(b.equals(&b));
    assert!(c.equals(&c));
    assert!(a.equals(&b) && b.equals(&a));
    assert!(b.equals(&c) && c.equals(&b));
    assert!(a.equals(&c) && c.equals(&a));
}

#[test]
fn test_equals_is_total_on_large_precision_gaps() {
    // 1/10^30 is not 1, and the comparison must say so rather than fail.
    assert!(!Token::new(1, 0).equals(&Token::new(1, 30)));
    assert!(!Token::new(1, 0).equals(&Token::new(0, 255)));
    assert!(!Token::new(0, 0).equals(&Token::new(1, 255)));
    // Zero denotes zero at every precision.
    assert!(Token::new(0, 0).equals(&Token::new(0, 255)));
}

#[test]
fn test_equals_scaled_magnitude_beyond_u64() {
    // 2 * 10^19 exceeds u64::MAX, so it can equal no stored magnitude.
    assert!(!Token::new(2, 0).equals(&Token::new(u64::MAX, 19)));
}

#[test]
fn test_new_keeps_fields() {
    let t = Token::new(7, 2);
    assert_eq!(t.value, 7);
    assert_eq!(t.decimals, 2);
}

#[test]
fn test_eq_operator_is_quantity_equality() {
    assert!(Token::new(1, 0) == Token::new(1_000, 3));
    assert!(Token::new(1, 0) != Token::new(1_001, 3));
}
