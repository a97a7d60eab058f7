use tip_settlement::account::{is_valid_account_name, MAX_ACCOUNT_ID_LEN, MIN_ACCOUNT_ID_LEN};

#[test]
fn well_formed_names_are_valid() {
    for name in ["aa", "a-a", "100", "near", "b-o_w_e-n", "b.owen", "owner.testnet", "10-4.8-2"] {
        assert!(is_valid_account_name(name), "{}", name);
    }
}

#[test]
fn malformed_names_are_invalid() {
    for name in [
        "", "a", "A", "Abc", "-near", "near-", "near.", ".near", "near@", "0__0", "a..near",
        "hello world", "nEar",
    ] {
        assert!(!is_valid_account_name(name), "{}", name);
    }
}

#[test]
fn length_limits_are_two_and_sixty_four_bytes() {
    assert_eq!(MIN_ACCOUNT_ID_LEN, 2);
    assert_eq!(MAX_ACCOUNT_ID_LEN, 64);
    assert!(is_valid_account_name(&"a".repeat(64)));
    assert!(!is_valid_account_name(&"a".repeat(65)));
}

#[test]
fn names_outside_ascii_are_invalid() {
    assert!(!is_valid_account_name("\u{43d}\u{435}\u{430}\u{440}"));
}
