use butler::text::{channels_to_string, push_decimal, push_signed, roles_to_string};

#[test]
fn channels_are_mentioned_and_spaced() {
    assert_eq!(channels_to_string(&vec![1, 22, 333]), "<#1> <#22> <#333>");
}

#[test]
fn no_channels_give_empty_text() {
    assert_eq!(channels_to_string(&vec![]), "");
}

#[test]
fn one_channel_has_no_separator() {
    assert_eq!(channels_to_string(&vec![1234567890123456789]), "<#1234567890123456789>");
}

#[test]
fn negative_ids_keep_their_sign() {
    assert_eq!(channels_to_string(&vec![-5, 0]), "<#-5> <#0>");
    assert_eq!(roles_to_string(&vec![i64::MIN]), "<@&-9223372036854775808>");
}

#[test]
fn roles_are_mentioned_and_spaced() {
    assert_eq!(roles_to_string(&vec![10, 20]), "<@&10> <@&20>");
    assert_eq!(roles_to_string(&vec![]), "");
}

#[test]
fn decimal_matches_display() {
    for n in [0u128, 7, 10, 99, 100, 12345, u64::MAX as u128, u128::MAX] {
        let mut s = String::from("x");
        push_decimal(&mut s, n);
        assert_eq!(s, format!("x{}", n));
    }
    for n in [0i128, -1, 42, -12345, i128::MIN, i128::MAX] {
        let mut s = String::new();
        push_signed(&mut s, n);
        assert_eq!(s, n.to_string());
    }
}
