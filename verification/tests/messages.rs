use tonlib_core::cell::{BagOfCells, Cell, CellBuilder};
use tonlib_core::TonAddress;
use ton_mixer::messages::{CollectMessage, EncodingError, ForkMessage, SpreadMessage};
use ton_mixer::opcode::generate_opcode;

fn bits_of(cell: &Cell) -> Vec<bool> {
    (0..cell.bit_len()).map(|i| cell.data()[i / 8] & (0x80 >> (i % 8)) != 0).collect()
}

fn be(value: u64, width: usize) -> Vec<bool> {
    (0..width).map(|i| (value >> (width - 1 - i)) & 1 == 1).collect()
}

fn coins(amount: u64) -> Vec<bool> {
    let bytes = (64 - amount.leading_zeros() as usize + 7) / 8;
    let mut bits = be(bytes as u64, 4);
    bits.extend(be(amount, 8 * bytes));
    bits
}

fn address_bits(workchain: i32, hash: [u8; 32]) -> Vec<bool> {
    if workchain == 0 && hash == [0u8; 32] {
        return vec![false, false];
    }
    let mut bits = vec![true, false, false];
    bits.extend(be((workchain as u32 & 0xFF) as u64, 8));
    for byte in hash {
        bits.extend(be(byte as u64, 8));
    }
    bits
}

fn sample_hash() -> [u8; 32] {
    let mut hash = [0u8; 32];
    for (i, byte) in hash.iter_mut().enumerate() {
        *byte = (i as u8).wrapping_mul(37).wrapping_add(5);
    }
    hash
}

fn sample_address() -> TonAddress {
    TonAddress::new(-1, sample_hash().into())
}

#[test]
fn fork_layout_is_opcode_then_timestamp() {
    let cell = ForkMessage::new(0x0102_0304_0506_0708).build();
    let mut expected = be(generate_opcode("op::fork") as u64, 32);
    expected.extend(be(0x0102_0304_0506_0708, 64));
    assert_eq!(cell.bit_len(), 96);
    assert_eq!(bits_of(&cell), expected);
    assert_eq!(cell.references().len(), 0);
    assert_eq!(cell.cell_depth(), 0);
}

#[test]
fn fork_new_keeps_the_timestamp() {
    assert_eq!(ForkMessage::new(0).timestamp, 0);
    assert_eq!(ForkMessage::new(u64::MAX).timestamp, u64::MAX);
    assert_eq!(ForkMessage::new(17).clone().timestamp, 17);
}

#[test]
fn fork_round_trip_through_bag_of_cells() {
    for timestamp in [0u64, 1, 1_700_000_000, u32::MAX as u64 + 1, u64::MAX] {
        let cell = ForkMessage::new(timestamp).build();
        let bytes = BagOfCells::from_root(cell).serialize(true).unwrap();
        let bag = BagOfCells::parse(&bytes).unwrap();
        let root = bag.single_root().unwrap();
        let mut parser = root.parser();
        assert_eq!(parser.load_u32(32).unwrap(), generate_opcode("op::fork"));
        assert_eq!(parser.load_u64(64).unwrap(), timestamp);
        assert_eq!(parser.remaining_bits(), 0);
        assert_eq!(root.references().len(), 0);
    }
}

#[test]
fn spread_layout_and_reference() {
    let mut builder = CellBuilder::new();
    builder.store_u8(8, 0xAB).unwrap();
    let data = builder.build().unwrap();
    let message = SpreadMessage::new(7, 99, 4_000_000_000, data.clone());
    assert_eq!(message.mode, 7);
    assert_eq!(message.timestamp, 99);
    assert_eq!(message.amount, 4_000_000_000);
    assert_eq!(message.data, data);
    let cell = message.build();
    let mut expected = be(generate_opcode("op::spread") as u64, 32);
    expected.extend(be(99, 64));
    expected.extend(be(4_000_000_000, 64));
    expected.extend(be(7, 8));
    expected.push(true);
    assert_eq!(cell.bit_len(), 169);
    assert_eq!(bits_of(&cell), expected);
    assert_eq!(cell.references().len(), 1);
    assert_eq!(*cell.references()[0], data);
    assert_eq!(cell.cell_depth(), 1);
    let tried = message.try_build().unwrap();
    assert_eq!(tried, cell);
}

#[test]
fn spread_fields_are_read_back_by_a_parser() {
    let data = CellBuilder::new().build().unwrap();
    let cell = SpreadMessage::new(0, u64::MAX, u64::MAX, data).build();
    let mut parser = cell.parser();
    assert_eq!(parser.load_u32(32).unwrap(), generate_opcode("op::spread"));
    assert_eq!(parser.load_u64(64).unwrap(), u64::MAX);
    assert_eq!(parser.load_u64(64).unwrap(), u64::MAX);
    assert_eq!(parser.load_u8(8).unwrap(), 0);
    assert!(parser.load_bit().unwrap());
    assert_eq!(parser.remaining_bits(), 0);
}

#[test]
fn collect_modes_without_jetton_omit_both_fields() {
    for mode in [0u8, 1, 2] {
        let mut expected = be(generate_opcode("op::collect") as u64, 32);
        expected.extend(be(123_456, 64));
        expected.extend(be(mode as u64, 8));
        let bare = CollectMessage::new(mode, 123_456, None, None).build().unwrap();
        assert_eq!(bare.bit_len(), 104);
        assert_eq!(bits_of(&bare), expected);
        assert_eq!(bare.references().len(), 0);
        let full = CollectMessage::new(mode, 123_456, Some(sample_address()), Some(5)).build();
        assert_eq!(full.unwrap(), bare);
        let wallet_only = CollectMessage::new(mode, 123_456, Some(sample_address()), None).build();
        assert_eq!(wallet_only.unwrap(), bare);
        let amount_only = CollectMessage::new(mode, 123_456, None, Some(u64::MAX)).build();
        assert_eq!(amount_only.unwrap(), bare);
    }
}

#[test]
fn collect_mode_three_stores_wallet_then_amount() {
    let amount = 1_500_000_000u64;
    let cell = CollectMessage::new(3, 42, Some(sample_address()), Some(amount)).build().unwrap();
    let mut expected = be(generate_opcode("op::collect") as u64, 32);
    expected.extend(be(42, 64));
    expected.extend(be(3, 8));
    expected.extend(address_bits(-1, sample_hash()));
    expected.extend(coins(amount));
    assert_eq!(bits_of(&cell), expected);
    assert_eq!(cell.bit_len(), 104 + 267 + 4 + 32);
    assert_eq!(cell.references().len(), 0);
    let mut parser = cell.parser();
    assert_eq!(parser.load_u32(32).unwrap(), generate_opcode("op::collect"));
    assert_eq!(parser.load_u64(64).unwrap(), 42);
    assert_eq!(parser.load_u8(8).unwrap(), 3);
    assert_eq!(parser.load_address().unwrap(), sample_address());
    assert_eq!(parser.load_coins().unwrap(), num_bigint::BigUint::from(amount));
    assert_eq!(parser.remaining_bits(), 0);
}

#[test]
fn collect_mode_three_edge_amounts_and_null_wallet() {
    for amount in [0u64, 1, 255, 256, u64::MAX] {
        let message = CollectMessage::new(3, 1, Some(TonAddress::NULL), Some(amount));
        let cell = message.build().unwrap();
        let mut expected = be(generate_opcode("op::collect") as u64, 32);
        expected.extend(be(1, 64));
        expected.extend(be(3, 8));
        expected.extend(vec![false, false]);
        expected.extend(coins(amount));
        assert_eq!(bits_of(&cell), expected);
    }
    assert_eq!(coins(0), vec![false; 4]);
    assert_eq!(coins(u64::MAX).len(), 68);
    let zero_chain = TonAddress::new(0, sample_hash().into());
    let cell = CollectMessage::new(3, 1, Some(zero_chain), Some(9)).build().unwrap();
    assert_eq!(bits_of(&cell)[104..104 + 267], address_bits(0, sample_hash())[..]);
}

#[test]
fn collect_mode_three_without_a_field_fails() {
    let no_amount = CollectMessage::new(3, 42, Some(sample_address()), None).build();
    assert_eq!(no_amount.unwrap_err(), EncodingError::MissingJettonFields);
    let no_wallet = CollectMessage::new(3, 42, None, Some(1)).build();
    assert_eq!(no_wallet.unwrap_err(), EncodingError::MissingJettonFields);
    let neither = CollectMessage::new(3, 42, None, None).build();
    assert_eq!(neither.unwrap_err(), EncodingError::MissingJettonFields);
}

#[test]
fn collect_unknown_modes_fail() {
    for mode in [4u8, 5, 100, 255] {
        let bare = CollectMessage::new(mode, 42, None, None).build();
        assert_eq!(bare.unwrap_err(), EncodingError::InvalidMode);
        let full = CollectMessage::new(mode, 42, Some(sample_address()), Some(1)).build();
        assert_eq!(full.unwrap_err(), EncodingError::InvalidMode);
    }
}

#[test]
fn collect_new_keeps_its_fields() {
    let message = CollectMessage::new(3, 8, Some(sample_address()), Some(77));
    assert_eq!(message.mode, 3);
    assert_eq!(message.timestamp, 8);
    assert_eq!(message.jetton_wallet, Some(sample_address()));
    assert_eq!(message.amount, Some(77));
    let copy = message.clone();
    assert_eq!(copy.build().unwrap(), message.build().unwrap());
}

#[test]
fn encoding_error_messages() {
    assert_eq!(EncodingError::InvalidMode.message(), "Invalid collect mode");
    assert_eq!(
        EncodingError::MissingJettonFields.message(),
        "Jetton wallet and amount are required for mode 3"
    );
    assert_eq!(
        EncodingError::CapacityExceeded.message(),
        "Payload exceeds the capacity of a cell"
    );
}
