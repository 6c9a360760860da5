use tonlib_core::TonAddress;
use ton_mixer::requests::{
    check_collect_fields, collect_data_from, collect_message_data, spread_wallets,
    validate_collect, CollectPayload, SpreadWalletPayload, ValidationError,
};

const ADDRESS: &str = "EQCDM_QGggZ3qMa_f3lRPk4_qLDnLTqdi6OkMAV2NB9r5TG3";

fn request(mode: u8, wallet: Option<&str>, amount: Option<u64>) -> CollectPayload {
    CollectPayload { mode, jetton_wallet: wallet.map(String::from), amount }
}

fn parsed(text: &str) -> TonAddress {
    text.parse::<TonAddress>().unwrap()
}

#[test]
fn mode_three_needs_a_jetton_wallet() {
    let error = validate_collect(&request(3, None, Some(1))).unwrap_err();
    assert!(matches!(error, ValidationError::MissingJettonWallet));
    assert_eq!(error.message(), "in collection mode 3 field `jetton_wallet` is required");
    let error = validate_collect(&request(3, None, None)).unwrap_err();
    assert!(matches!(error, ValidationError::MissingJettonWallet));
}

#[test]
fn mode_three_needs_a_valid_jetton_wallet() {
    let error = validate_collect(&request(3, Some("nonsense"), Some(1))).unwrap_err();
    let expected = "nonsense".parse::<TonAddress>().unwrap_err().to_string();
    match &error {
        ValidationError::InvalidAddress(reason) => assert_eq!(*reason, expected),
        _ => panic!("expected an invalid address"),
    }
    assert_eq!(error.message(), expected);
    assert!(expected.contains("nonsense"));
    let error = validate_collect(&request(3, Some("nonsense"), None)).unwrap_err();
    assert!(matches!(error, ValidationError::InvalidAddress(_)));
    let error = validate_collect(&request(3, Some(""), Some(1))).unwrap_err();
    assert!(matches!(error, ValidationError::InvalidAddress(_)));
}

#[test]
fn mode_three_needs_an_amount() {
    let error = validate_collect(&request(3, Some(ADDRESS), None)).unwrap_err();
    assert!(matches!(error, ValidationError::MissingAmount));
    assert_eq!(error.message(), "in collection mode 3 field `amount` is required");
}

#[test]
fn complete_mode_three_passes() {
    assert!(validate_collect(&request(3, Some(ADDRESS), Some(0))).is_ok());
    assert!(validate_collect(&request(3, Some(ADDRESS), Some(u64::MAX))).is_ok());
}

#[test]
fn modes_without_jetton_are_let_through() {
    for mode in [0u8, 1, 2] {
        assert!(validate_collect(&request(mode, None, None)).is_ok());
        assert!(validate_collect(&request(mode, Some("nonsense"), None)).is_ok());
        assert!(validate_collect(&request(mode, Some(ADDRESS), Some(3))).is_ok());
    }
}

#[test]
fn unsupported_modes_are_refused_on_arrival() {
    for mode in [4u8, 5, 100, 255] {
        for wallet in [None, Some("nonsense"), Some(ADDRESS)] {
            for amount in [None, Some(3u64)] {
                let error = validate_collect(&request(mode, wallet, amount)).unwrap_err();
                assert!(matches!(error, ValidationError::UnsupportedMode));
                assert_eq!(error.message(), "collection mode must be 0, 1, 2 or 3");
                let error = collect_message_data(&request(mode, wallet, amount));
                assert!(matches!(error, Err(ValidationError::UnsupportedMode)));
            }
        }
    }
}

#[test]
fn message_data_is_refused_like_the_request() {
    let error = collect_message_data(&request(3, None, Some(1)));
    assert!(matches!(error, Err(ValidationError::MissingJettonWallet)));
    let error = collect_message_data(&request(3, Some(ADDRESS), None));
    assert!(matches!(error, Err(ValidationError::MissingAmount)));
    let error = collect_message_data(&request(3, Some("nonsense"), None));
    assert!(matches!(error, Err(ValidationError::InvalidAddress(_))));
}

#[test]
fn message_data_parses_the_wallet() {
    let data = collect_message_data(&request(3, Some(ADDRESS), Some(12))).unwrap();
    assert_eq!(data.mode, 3);
    assert_eq!(data.amount, Some(12));
    assert_eq!(data.jetton_wallet, Some(parsed(ADDRESS)));
    let data = collect_message_data(&request(1, None, None)).unwrap();
    assert_eq!(data.mode, 1);
    assert_eq!(data.amount, None);
    assert_eq!(data.jetton_wallet, None);
    let data = collect_message_data(&request(0, Some(ADDRESS), None)).unwrap();
    assert_eq!(data.jetton_wallet, Some(parsed(ADDRESS)));
}

#[test]
fn message_data_refuses_a_bad_wallet_in_any_mode() {
    for mode in [0u8, 1, 2, 3] {
        match collect_message_data(&request(mode, Some("0:zz"), Some(1))) {
            Err(ValidationError::InvalidAddress(reason)) => {
                assert_eq!(reason, "0:zz".parse::<TonAddress>().unwrap_err().to_string());
            }
            _ => panic!("expected an invalid address"),
        }
    }
}

#[test]
fn spread_entries_become_wallets_in_order() {
    let hex_form = parsed(ADDRESS).to_hex();
    let hex = hex_form.as_str();
    assert!(hex.starts_with("0:8333f4068206"));
    let entries = vec![
        SpreadWalletPayload { account: String::from(ADDRESS), amount: 1_500_000_000 },
        SpreadWalletPayload { account: String::from(hex), amount: 2_500_000_000 },
        SpreadWalletPayload { account: String::from("-1:".to_owned() + &"ab".repeat(32)), amount: 0 },
    ];
    let wallets = spread_wallets(&entries).unwrap();
    assert_eq!(wallets.len(), 3);
    assert_eq!(wallets[0].account, parsed(ADDRESS));
    assert_eq!(wallets[0].amount, 1_500_000_000);
    assert_eq!(wallets[1].account, parsed(hex));
    assert_eq!(wallets[1].account, wallets[0].account);
    assert_eq!(wallets[1].amount, 2_500_000_000);
    assert_eq!(wallets[2].account.workchain, -1);
    assert_eq!(wallets[2].account.hash_part.as_slice(), &[0xab; 32]);
    assert_eq!(wallets[2].amount, 0);
    assert_eq!(spread_wallets(&Vec::new()).unwrap().len(), 0);
}

#[test]
fn first_bad_account_is_reported() {
    let entries = vec![
        SpreadWalletPayload { account: String::from(ADDRESS), amount: 1 },
        SpreadWalletPayload { account: String::from("first bad"), amount: 2 },
        SpreadWalletPayload { account: String::from("second bad"), amount: 3 },
    ];
    match spread_wallets(&entries) {
        Err(ValidationError::InvalidAddress(reason)) => {
            assert_eq!(reason, "first bad".parse::<TonAddress>().unwrap_err().to_string());
        }
        _ => panic!("expected an invalid address"),
    }
}

#[test]
fn fields_are_checked_in_their_order() {
    let address = || Some(Ok(parsed(ADDRESS)));
    let failed = || Some(Err(String::from("no address")));
    for amount in [false, true] {
        for mode in [4u8, 200] {
            for wallet in [None, address(), failed()] {
                let error = check_collect_fields(mode, &wallet, amount).unwrap_err();
                assert!(matches!(error, ValidationError::UnsupportedMode));
            }
        }
        for mode in [0u8, 1, 2] {
            for wallet in [None, address(), failed()] {
                assert!(check_collect_fields(mode, &wallet, amount).is_ok());
            }
        }
        let error = check_collect_fields(3, &None, amount).unwrap_err();
        assert!(matches!(error, ValidationError::MissingJettonWallet));
        match check_collect_fields(3, &failed(), amount) {
            Err(ValidationError::InvalidAddress(reason)) => assert_eq!(reason, "no address"),
            _ => panic!("expected an invalid address"),
        }
    }
    let error = check_collect_fields(3, &address(), false).unwrap_err();
    assert!(matches!(error, ValidationError::MissingAmount));
    assert!(check_collect_fields(3, &address(), true).is_ok());
}

#[test]
fn data_is_made_from_what_was_read() {
    let data = collect_data_from(3, Some(Ok(parsed(ADDRESS))), Some(9)).unwrap();
    assert_eq!(data.mode, 3);
    assert_eq!(data.jetton_wallet, Some(parsed(ADDRESS)));
    assert_eq!(data.amount, Some(9));
    let data = collect_data_from(1, None, None).unwrap();
    assert_eq!((data.mode, data.jetton_wallet, data.amount), (1, None, None));
    let data = collect_data_from(0, Some(Ok(parsed(ADDRESS))), None).unwrap();
    assert_eq!(data.jetton_wallet, Some(parsed(ADDRESS)));
    for mode in [0u8, 1, 2, 3] {
        match collect_data_from(mode, Some(Err(String::from("bad"))), Some(1)) {
            Err(ValidationError::InvalidAddress(reason)) => assert_eq!(reason, "bad"),
            _ => panic!("expected an invalid address"),
        }
    }
    let refused = collect_data_from(7, Some(Err(String::from("bad"))), Some(1));
    assert!(matches!(refused, Err(ValidationError::UnsupportedMode)));
    let refused = collect_data_from(3, None, Some(1));
    assert!(matches!(refused, Err(ValidationError::MissingJettonWallet)));
    let refused = collect_data_from(3, Some(Ok(parsed(ADDRESS))), None);
    assert!(matches!(refused, Err(ValidationError::MissingAmount)));
}
