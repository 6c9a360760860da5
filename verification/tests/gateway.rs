use tonlib_core::cell::{BagOfCells, Cell, CellBuilder};
use tonlib_core::tlb_types::block::message::Message;
use tonlib_core::tlb_types::tlb::TLB;
use tonlib_core::wallet::mnemonic::KeyPair;
use tonlib_core::wallet::ton_wallet::TonWallet;
use tonlib_core::wallet::wallet_version::WalletVersion;
use tonlib_core::TonAddress;
use ton_mixer::envelope::EnvelopeError;
use ton_mixer::gateway::{
    check_spread, collect_transaction, first_sequence_collision, follows_in_sequence,
    fork_transaction, prepare_collect, prepare_fork, prepare_spread, spread_transaction,
    submission_of, time_now, wallet_from_mnemonic, GatewayError, WalletError, COLLECT_VALUE,
    FORK_VALUE, SPREAD_FEE,
};
use ton_mixer::messages::{CollectMessage, EncodingError, ForkMessage, SpreadMessage};
use ton_mixer::requests::CollectMessageData;
use ton_mixer::spread::{build_spread_payload, SpreadWallet};

const PHRASE: &str = "fancy carpet hello mandate penalty trial consider property top vicious exit rebuild tragic profit urban major total month holiday sudden rib gather media vicious";

fn wallet() -> TonWallet {
    let keys = KeyPair { public_key: (100..132u8).collect(), secret_key: (1..65u8).collect() };
    TonWallet::new(WalletVersion::V4R2, keys).unwrap()
}

fn contract() -> TonAddress {
    TonAddress::new(0, [0x33; 32].into())
}

fn entries() -> Vec<SpreadWallet> {
    vec![
        SpreadWallet { account: TonAddress::new(0, [1; 32].into()), amount: 1_500_000_000 },
        SpreadWallet { account: TonAddress::new(0, [2; 32].into()), amount: 2_500_000_000 },
    ]
}

/// The transfer inside submitted bytes: its value and its body.
fn transfer_of(bytes: &[u8]) -> (u64, u32, u32, Cell) {
    let root = BagOfCells::parse(bytes).unwrap().single_root().unwrap();
    let signed = Message::from_cell(&root).unwrap().body.value;
    let all: Vec<bool> =
        (0..signed.bit_len()).map(|i| signed.data()[i / 8] & (0x80 >> (i % 8)) != 0).collect();
    let body_bits = all[512..].to_vec();
    let transfer = signed.references()[0].clone();
    let number = |from: usize| body_bits[from..from + 32].iter().fold(0u32, |n, b| n * 2 + *b as u32);
    let mut parser = transfer.parser();
    parser.load_bits(4).unwrap();
    parser.load_address().unwrap();
    assert_eq!(parser.load_address().unwrap(), contract());
    let value = u64::try_from(parser.load_coins().unwrap()).unwrap();
    (value, number(32), number(64), (*transfer.references()[0]).clone())
}

#[test]
fn values_attached_to_the_operations() {
    assert_eq!(FORK_VALUE, 5_000_000);
    assert_eq!(SPREAD_FEE, 5_000_000);
    assert_eq!(COLLECT_VALUE, 50_000_000);
}

#[test]
fn fork_is_submitted_with_its_fee() {
    let bytes = fork_transaction(wallet(), 11, contract(), 1_700_000_000, 1_700_000_005).unwrap();
    let (value, expiry, seqno, body) = transfer_of(&bytes);
    assert_eq!(value, 5_000_000);
    assert_eq!(expiry, 1_700_000_065);
    assert_eq!(seqno, 11);
    assert_eq!(body, ForkMessage::new(1_700_000_000).build());
}

#[test]
fn spread_is_submitted_with_total_and_fee() {
    let bytes = spread_transaction(wallet(), 12, contract(), &entries(), 77, 88).unwrap();
    let (value, expiry, seqno, body) = transfer_of(&bytes);
    assert_eq!(value, 4_005_000_000);
    assert_eq!(expiry, 148);
    assert_eq!(seqno, 12);
    let payload = build_spread_payload(&entries()).unwrap();
    assert_eq!(body, SpreadMessage::new(0, 77, 4_000_000_000, payload).build());
    let mut parser = body.parser();
    parser.load_u32(32).unwrap();
    assert_eq!(parser.load_u64(64).unwrap(), 77);
    assert_eq!(parser.load_u64(64).unwrap(), 4_000_000_000);
    assert_eq!(parser.load_u8(8).unwrap(), 0);
}

#[test]
fn spread_of_nothing_attaches_the_fee_alone() {
    let bytes = spread_transaction(wallet(), 1, contract(), &Vec::new(), 1, 1).unwrap();
    let (value, _, _, body) = transfer_of(&bytes);
    assert_eq!(value, 5_000_000);
    assert_eq!(*body.references()[0], CellBuilder::new().build().unwrap());
}

#[test]
fn spread_that_overflows_is_refused() {
    let one = vec![SpreadWallet { account: contract(), amount: u64::MAX - 4_999_999 }];
    let error = spread_transaction(wallet(), 1, contract(), &one, 1, 1).unwrap_err();
    assert_eq!(error, GatewayError::AmountOverflow);
    let two = vec![
        SpreadWallet { account: contract(), amount: u64::MAX },
        SpreadWallet { account: contract(), amount: 1 },
    ];
    let error = spread_transaction(wallet(), 1, contract(), &two, 1, 1).unwrap_err();
    assert_eq!(error, GatewayError::AmountOverflow);
    let fits = vec![SpreadWallet { account: contract(), amount: u64::MAX - 5_000_000 }];
    let bytes = spread_transaction(wallet(), 1, contract(), &fits, 1, 1).unwrap();
    assert_eq!(transfer_of(&bytes).0, u64::MAX);
}

#[test]
fn spread_of_too_many_entries_is_refused() {
    let many = |count: u32| -> Vec<SpreadWallet> {
        (0..count).map(|_| SpreadWallet { account: contract(), amount: 1 }).collect()
    };
    let error = spread_transaction(wallet(), 1, contract(), &many(65536), 1, 1).unwrap_err();
    assert_eq!(error, GatewayError::Encoding(EncodingError::CapacityExceeded));
    let error = spread_transaction(wallet(), 1, contract(), &many(1025), 1, 1).unwrap_err();
    assert_eq!(error, GatewayError::Encoding(EncodingError::CapacityExceeded));
    let error = spread_transaction(wallet(), 1, contract(), &many(1024), 1, 1).unwrap_err();
    assert_eq!(error, GatewayError::Encoding(EncodingError::CapacityExceeded));
}

#[test]
fn spread_that_leaves_no_room_for_the_envelope_is_refused() {
    let many = |count: u32| -> Vec<SpreadWallet> {
        (0..count).map(|_| SpreadWallet { account: contract(), amount: 1 }).collect()
    };
    for count in [1021u32, 1022, 1023] {
        let error = spread_transaction(wallet(), 1, contract(), &many(count), 1, 1).unwrap_err();
        assert_eq!(error, GatewayError::Envelope(EnvelopeError::CapacityExceeded));
    }
    let bytes = spread_transaction(wallet(), 1, contract(), &many(1020), 1, 1).unwrap();
    let (value, _, _, body) = transfer_of(&bytes);
    assert_eq!(value, 1020 + 5_000_000);
    assert_eq!(body.cell_depth(), 1021);
}

#[test]
fn collect_is_submitted_with_its_fee() {
    let jetton = TonAddress::new(0, [9; 32].into());
    let data = CollectMessageData { mode: 3, jetton_wallet: Some(jetton.clone()), amount: Some(5) };
    let bytes = collect_transaction(wallet(), 4, contract(), data, 10, 20).unwrap();
    let (value, expiry, seqno, body) = transfer_of(&bytes);
    assert_eq!(value, 50_000_000);
    assert_eq!(expiry, 80);
    assert_eq!(seqno, 4);
    assert_eq!(body, CollectMessage::new(3, 10, Some(jetton), Some(5)).build().unwrap());
    let data = CollectMessageData { mode: 1, jetton_wallet: None, amount: None };
    let bytes = collect_transaction(wallet(), 4, contract(), data, 10, 20).unwrap();
    assert_eq!(transfer_of(&bytes).3, CollectMessage::new(1, 10, None, None).build().unwrap());
}

#[test]
fn collect_that_cannot_be_encoded_is_refused() {
    let data = CollectMessageData { mode: 3, jetton_wallet: None, amount: Some(5) };
    let error = collect_transaction(wallet(), 4, contract(), data, 10, 20).unwrap_err();
    assert_eq!(error, GatewayError::Encoding(EncodingError::MissingJettonFields));
    let data = CollectMessageData { mode: 4, jetton_wallet: None, amount: None };
    let error = collect_transaction(wallet(), 4, contract(), data, 10, 20).unwrap_err();
    assert_eq!(error, GatewayError::Encoding(EncodingError::InvalidMode));
    let data = CollectMessageData { mode: 9, jetton_wallet: None, amount: None };
    assert!(prepare_collect(wallet(), 4, contract(), data).is_err());
}

#[test]
fn envelope_failures_are_reported() {
    let late = u32::MAX as u64;
    let error = fork_transaction(wallet(), 1, contract(), 5, late).unwrap_err();
    assert_eq!(error, GatewayError::Envelope(EnvelopeError::ExpiryOutOfRange));
    let error = spread_transaction(wallet(), 1, contract(), &entries(), 5, late).unwrap_err();
    assert_eq!(error, GatewayError::Envelope(EnvelopeError::ExpiryOutOfRange));
    assert_eq!(submission_of(Ok(vec![1, 2])), Ok(vec![1, 2]));
    assert_eq!(
        submission_of(Err(EnvelopeError::Signing)),
        Err(GatewayError::Envelope(EnvelopeError::Signing))
    );
}

#[test]
fn prepared_operations_are_stamped_with_the_clock() {
    let before = time_now().unwrap();
    let bytes = prepare_fork(wallet(), 5, contract()).unwrap();
    let after = time_now().unwrap();
    let (value, expiry, seqno, body) = transfer_of(&bytes);
    assert_eq!(value, 5_000_000);
    assert_eq!(seqno, 5);
    assert!(before + 60 <= expiry as u64 && expiry as u64 <= after + 60);
    let stamp = body.parser().load_bits(96).map(|b| u64::from_be_bytes(b[4..12].try_into().unwrap()));
    let stamp = stamp.unwrap();
    assert!(before <= stamp && stamp <= after);
    let bytes = prepare_spread(wallet(), 6, contract(), &entries()).unwrap();
    assert_eq!(transfer_of(&bytes).0, 4_005_000_000);
    let data = CollectMessageData { mode: 0, jetton_wallet: None, amount: None };
    let bytes = prepare_collect(wallet(), 7, contract(), data).unwrap();
    assert_eq!(transfer_of(&bytes).0, 50_000_000);
}

#[test]
fn clock_is_past_the_year_2020() {
    let now = time_now().unwrap();
    assert!(now > 1_577_836_800);
    assert!(now < u32::MAX as u64);
}

#[test]
fn wallet_from_a_mnemonic_is_version_four() {
    let wallet = wallet_from_mnemonic(PHRASE).unwrap();
    assert_eq!(wallet.version, WalletVersion::V4R2);
    assert_eq!(wallet.wallet_id, 0x29a9a317);
    assert_eq!(wallet.key_pair.public_key.len(), 32);
    assert_eq!(wallet.key_pair.secret_key.len(), 64);
    let expected: TonAddress = "EQCDM_QGggZ3qMa_f3lRPk4_qLDnLTqdi6OkMAV2NB9r5TG3".parse().unwrap();
    assert_eq!(wallet.address, expected);
}

#[test]
fn phrase_that_is_no_mnemonic_is_refused() {
    assert_eq!(wallet_from_mnemonic("").unwrap_err(), WalletError::InvalidMnemonic);
    assert_eq!(wallet_from_mnemonic("fancy carpet").unwrap_err(), WalletError::InvalidMnemonic);
    let unknown = PHRASE.replace("fancy", "qqqqq");
    assert_eq!(wallet_from_mnemonic(&unknown).unwrap_err(), WalletError::InvalidMnemonic);
}

#[test]
fn increasing_sequence_numbers_do_not_collide() {
    assert_eq!(first_sequence_collision(&Vec::new()), None);
    assert_eq!(first_sequence_collision(&vec![7]), None);
    assert_eq!(first_sequence_collision(&vec![1, 2, 3, 10, u32::MAX]), None);
}

#[test]
fn reused_sequence_number_is_detected() {
    assert_eq!(first_sequence_collision(&vec![5, 5]), Some(1));
    assert_eq!(first_sequence_collision(&vec![1, 2, 2, 3]), Some(2));
    assert_eq!(first_sequence_collision(&vec![1, 2, 3, 1, 1]), Some(3));
    assert_eq!(first_sequence_collision(&vec![0, 1, 0]), Some(2));
}

#[test]
fn concurrent_submissions_against_a_stubbed_source_collide() {
    let mut ledger_seqno = 40u32;
    let mut used = Vec::new();
    for round in 0..3 {
        let first_reads = ledger_seqno;
        let second_reads = if round == 1 { ledger_seqno } else { ledger_seqno + 1 };
        used.push(first_reads);
        ledger_seqno += 1;
        used.push(second_reads);
        if second_reads == ledger_seqno {
            ledger_seqno += 1;
        }
    }
    assert_eq!(used, vec![40, 41, 42, 42, 43, 44]);
    assert_eq!(first_sequence_collision(&used), Some(3));
    let first = fork_transaction(wallet(), used[2], contract(), 1, 1).unwrap();
    let second = fork_transaction(wallet(), used[3], contract(), 1, 1).unwrap();
    assert_eq!(transfer_of(&first).2, transfer_of(&second).2);
}

#[test]
fn clock_counts_whole_seconds_since_1970() {
    let before = std::time::SystemTime::now()
        .duration_since(std::time::SystemTime::UNIX_EPOCH)
        .unwrap()
        .as_secs();
    let first = time_now().unwrap();
    let second = time_now().unwrap();
    let after = std::time::SystemTime::now()
        .duration_since(std::time::SystemTime::UNIX_EPOCH)
        .unwrap()
        .as_secs();
    assert!(before <= first && first <= second && second <= after);
}

#[test]
fn spread_is_checked_before_it_is_sent() {
    let many = |count: u32| -> Vec<SpreadWallet> {
        (0..count).map(|_| SpreadWallet { account: contract(), amount: 1 }).collect()
    };
    assert_eq!(check_spread(&Vec::new()), Ok(()));
    assert_eq!(check_spread(&entries()), Ok(()));
    assert_eq!(check_spread(&many(1020)), Ok(()));
    let too_many = Err(GatewayError::Encoding(EncodingError::CapacityExceeded));
    assert_eq!(check_spread(&many(1021)), too_many);
    assert_eq!(check_spread(&many(70000)), too_many);
    let large = vec![SpreadWallet { account: contract(), amount: u64::MAX - 4_999_999 }];
    assert_eq!(check_spread(&large), Err(GatewayError::AmountOverflow));
    let fits = vec![SpreadWallet { account: contract(), amount: u64::MAX - 5_000_000 }];
    assert_eq!(check_spread(&fits), Ok(()));
    let two = vec![
        SpreadWallet { account: contract(), amount: u64::MAX },
        SpreadWallet { account: contract(), amount: 1 },
    ];
    assert_eq!(check_spread(&two), Err(GatewayError::AmountOverflow));
}

#[test]
fn checked_spread_is_sent() {
    let many: Vec<SpreadWallet> =
        (0..1020u32).map(|_| SpreadWallet { account: contract(), amount: 7 }).collect();
    for sent in [Vec::new(), entries(), many] {
        assert_eq!(check_spread(&sent), Ok(()));
        let bytes = spread_transaction(wallet(), 1, contract(), &sent, 1, 1).unwrap();
        assert_eq!(bytes[0..4], [0xb5, 0xee, 0x9c, 0x72]);
    }
}

#[test]
fn wallet_from_a_mnemonic_signs_every_operation() {
    let wallet = wallet_from_mnemonic(PHRASE).unwrap();
    let bytes = fork_transaction(wallet.clone(), 1, contract(), 5, 6).unwrap();
    assert_eq!(bytes[0..4], [0xb5, 0xee, 0x9c, 0x72]);
    assert!(spread_transaction(wallet.clone(), 2, contract(), &entries(), 5, 6).is_ok());
    let data = CollectMessageData { mode: 2, jetton_wallet: None, amount: None };
    assert!(collect_transaction(wallet, 3, contract(), data, 5, 6).is_ok());
}

#[test]
fn sequence_number_must_follow_the_last() {
    assert!(follows_in_sequence(None, 0));
    assert!(follows_in_sequence(None, u32::MAX));
    assert!(follows_in_sequence(Some(4), 5));
    assert!(follows_in_sequence(Some(0), u32::MAX));
    assert!(!follows_in_sequence(Some(5), 5));
    assert!(!follows_in_sequence(Some(6), 5));
    assert!(!follows_in_sequence(Some(u32::MAX), 0));
}

#[test]
fn failed_submission_does_not_use_up_its_sequence_number() {
    let mut last = None;
    for (seqno, accepted) in [(7u32, false), (7, true), (7, false), (8, true)] {
        let follows = follows_in_sequence(last, seqno);
        if accepted {
            assert!(follows);
            last = Some(seqno);
        } else {
            assert_eq!(follows, last != Some(7));
        }
    }
    assert_eq!(last, Some(8));
}
