use pooltogether_koinly_accounting::bot::{
    decode_swap_event, derive_record, swap_event_topic, total_fee, BlockContext, Bot,
    DecodedSwapEvent, LogInContext, RawLogEvent, ReceiptContext, RecordError, FEE_DECIMALS,
    FOUR_DIGIT_YEARS_END, SWAP_EVENT_SIGNATURE,
};
use pooltogether_koinly_accounting::constants::{
    pdai_liquidation_pair_address, pusdc_liquidation_pair_address, pweth_liquidation_pair_address,
    LookupError, MAINNET_CHAIN_ID, OPTIMISM_CHAIN_ID,
};
use pooltogether_koinly_accounting::primitives::{Address, Word};
use pooltogether_koinly_accounting::sink::{
    begin_emit, month_of, OutputError, SinkAction, SinkKind, SinkPhase,
};

const TOPIC: [u8; 32] = [
    0xc3, 0xe7, 0x64, 0x29, 0x8a, 0x9f, 0xad, 0x13, 0x82, 0x3b, 0x73, 0xa0, 0xd0, 0x8d, 0xf8, 0x36,
    0x6d, 0x14, 0xe2, 0xb6, 0x29, 0x20, 0xb9, 0x4b, 0x42, 0xc6, 0x35, 0xf0, 0xdd, 0xd0, 0xd7, 0xb4,
];

fn operator() -> Address {
    Address { bytes: [0xaa; 20] }
}

fn topic_of(address: &Address) -> Word {
    let mut bytes = [0u8; 32];
    bytes[12..].copy_from_slice(&address.bytes);
    Word { bytes }
}

fn swap_log(
    block_number: u64,
    tx: u8,
    pair: &Address,
    sender: &Address,
    amount_out: u128,
    amount_in: u128,
) -> RawLogEvent {
    let receiver = Address { bytes: [0xbb; 20] };
    let mut data = Vec::new();
    data.extend_from_slice(&Word::from_u128(amount_out).bytes);
    data.extend_from_slice(&Word::from_u128(amount_in + 7).bytes);
    data.extend_from_slice(&Word::from_u128(amount_in).bytes);
    data.extend_from_slice(&Word::from_u128(1_700_000_000).bytes);
    RawLogEvent {
        block_number,
        transaction_hash: Word { bytes: [tx; 32] },
        topics: vec![Word { bytes: TOPIC }, topic_of(pair), topic_of(sender), topic_of(&receiver)],
        data,
    }
}

fn block() -> BlockContext {
    BlockContext { timestamp: 1_431_648_000 }
}

fn rollup_receipt() -> ReceiptContext {
    ReceiptContext {
        gas_used: 100_000,
        effective_gas_price: 1_000_000_000,
        l1_fee: Some(50_000_000_000_000),
    }
}

#[test]
fn topic_is_the_digest_of_the_signature() {
    assert_eq!(
        SWAP_EVENT_SIGNATURE,
        "SwappedExactAmountOut(address,address,address,uint256,uint256,uint256,uint256)"
    );
    assert_eq!(swap_event_topic().bytes, TOPIC);
    assert_eq!(
        swap_event_topic().to_hex(),
        "0xc3e764298a9fad13823b73a0d08df8366d14e2b62920b94b42c635f0ddd0d7b4"
    );
}

#[test]
fn decodes_the_fields_of_a_swap() {
    let pair = pusdc_liquidation_pair_address();
    let log = swap_log(120, 0x01, &pair, &operator(), 2_500_000, 1_500_000_000_000_000_000);
    let event: DecodedSwapEvent = decode_swap_event(&Word { bytes: TOPIC }, &log).unwrap();
    assert_eq!(event.liquidation_pair.bytes, pair.bytes);
    assert_eq!(event.sender.bytes, [0xaa; 20]);
    assert_eq!(event.receiver.bytes, [0xbb; 20]);
    assert_eq!(event.amount_out.bytes, Word::from_u128(2_500_000).bytes);
    assert_eq!(event.amount_in_max.bytes, Word::from_u128(1_500_000_000_000_000_007).bytes);
    assert_eq!(event.amount_in.bytes, Word::from_u128(1_500_000_000_000_000_000).bytes);
    assert_eq!(event.deadline.bytes, Word::from_u128(1_700_000_000).bytes);
}

#[test]
fn address_topics_ignore_their_padding() {
    let pair = pusdc_liquidation_pair_address();
    let mut log = swap_log(120, 0x01, &pair, &operator(), 1, 1);
    log.topics[2].bytes[0] = 0xff;
    let event = decode_swap_event(&Word { bytes: TOPIC }, &log).unwrap();
    assert_eq!(event.sender.bytes, [0xaa; 20]);
}

#[test]
fn logs_of_another_shape_are_not_decoded() {
    let pair = pusdc_liquidation_pair_address();
    let good = swap_log(120, 0x01, &pair, &operator(), 1, 1);
    let topic = Word { bytes: TOPIC };
    assert!(decode_swap_event(&topic, &good).is_some());

    let mut other_event = good.clone();
    other_event.topics[0].bytes[31] ^= 1;
    assert!(decode_swap_event(&topic, &other_event).is_none());

    let mut three_topics = good.clone();
    three_topics.topics.pop();
    assert!(decode_swap_event(&topic, &three_topics).is_none());

    let mut five_topics = good.clone();
    five_topics.topics.push(Word { bytes: [0; 32] });
    assert!(decode_swap_event(&topic, &five_topics).is_none());

    let mut no_topics = good.clone();
    no_topics.topics.clear();
    assert!(decode_swap_event(&topic, &no_topics).is_none());

    let mut short_data = good.clone();
    short_data.data.truncate(127);
    assert!(decode_swap_event(&topic, &short_data).is_none());

    let mut long_data = good.clone();
    long_data.data.push(0);
    assert!(decode_swap_event(&topic, &long_data).is_some());
}

#[test]
fn record_of_a_swap_on_a_rollup() {
    let bot = Bot { chain_id: OPTIMISM_CHAIN_ID, sender: operator() };
    let pair = pusdc_liquidation_pair_address();
    let log = swap_log(120, 0x1f, &pair, &operator(), 2_500_000, 1_500_000_000_000_000_000);
    let record = bot
        .decode_liquidation_router_event(&log, &block(), &rollup_receipt())
        .unwrap()
        .unwrap();
    assert_eq!(record.date, "2015-05-15 00:00:00 UTC");
    assert_eq!(record.amount_in, "1.5");
    assert_eq!(record.amount_in_symbol, "POOL");
    assert_eq!(record.amount_out, "2.5");
    assert_eq!(record.amount_out_symbol, "USDC");
    assert_eq!(record.fee, "0.00015");
    assert_eq!(record.fee_symbol, "ETH");
    assert_eq!(
        record.tx_hash,
        "0x1f1f1f1f1f1f1f1f1f1f1f1f1f1f1f1f1f1f1f1f1f1f1f1f1f1f1f1f1f1f1f1f"
    );
}

#[test]
fn record_of_a_swap_without_rollup_fee() {
    let bot = Bot { chain_id: OPTIMISM_CHAIN_ID, sender: operator() };
    let pair = pweth_liquidation_pair_address();
    let log = swap_log(120, 0x02, &pair, &operator(), 1_000_000_000_000_000, 42);
    let receipt = ReceiptContext { gas_used: 21_000, effective_gas_price: 2_000_000_000, l1_fee: None };
    let record = bot
        .decode_liquidation_router_event(&log, &BlockContext { timestamp: 0 }, &receipt)
        .unwrap()
        .unwrap();
    assert_eq!(record.date, "1970-01-01 00:00:00 UTC");
    assert_eq!(record.amount_in, "0.000000000000000042");
    assert_eq!(record.amount_out, "0.001");
    assert_eq!(record.amount_out_symbol, "WETH");
    assert_eq!(record.fee, "0.000042");
}

#[test]
fn fee_is_gas_times_price_plus_rollup_fee() {
    assert_eq!(FEE_DECIMALS, 18);
    assert_eq!(
        total_fee(&ReceiptContext { gas_used: 21_000, effective_gas_price: 3, l1_fee: None }),
        Some(63_000)
    );
    assert_eq!(
        total_fee(&ReceiptContext { gas_used: 21_000, effective_gas_price: 3, l1_fee: Some(11) }),
        Some(63_011)
    );
    assert_eq!(
        total_fee(&ReceiptContext { gas_used: 0, effective_gas_price: u128::MAX, l1_fee: Some(0) }),
        Some(0)
    );
    assert_eq!(total_fee(&rollup_receipt()), Some(150_000_000_000_000));
}

#[test]
fn fee_beyond_128_bits() {
    let product = ReceiptContext { gas_used: 2, effective_gas_price: u128::MAX, l1_fee: None };
    assert_eq!(total_fee(&product), None);
    let sum = ReceiptContext { gas_used: 1, effective_gas_price: u128::MAX, l1_fee: Some(1) };
    assert_eq!(total_fee(&sum), None);
    let fits = ReceiptContext { gas_used: 1, effective_gas_price: u128::MAX - 1, l1_fee: Some(1) };
    assert_eq!(total_fee(&fits), Some(u128::MAX));

    let bot = Bot { chain_id: OPTIMISM_CHAIN_ID, sender: operator() };
    let log = swap_log(1, 1, &pdai_liquidation_pair_address(), &operator(), 1, 1);
    let outcome = bot.decode_liquidation_router_event(&log, &block(), &product);
    assert_eq!(outcome.err(), Some(RecordError::FeeOverflow));
}

#[test]
fn swaps_of_another_sender_give_no_record() {
    let bot = Bot { chain_id: OPTIMISM_CHAIN_ID, sender: operator() };
    let stranger = Address { bytes: [0xab; 20] };
    let pair = pusdc_liquidation_pair_address();
    let log = swap_log(120, 0x01, &pair, &stranger, 2_500_000, 1_500_000_000_000_000_000);
    let outcome = bot.decode_liquidation_router_event(&log, &block(), &rollup_receipt());
    assert!(matches!(outcome, Ok(None)));
    // Not even where the rest of the log would be a fault.
    let unknown_pair = swap_log(120, 0x01, &stranger, &stranger, 1, 1);
    let bad_block = BlockContext { timestamp: u64::MAX };
    let outcome = bot.decode_liquidation_router_event(&unknown_pair, &bad_block, &rollup_receipt());
    assert!(matches!(outcome, Ok(None)));
}

#[test]
fn logs_of_another_event_give_no_record() {
    let bot = Bot { chain_id: OPTIMISM_CHAIN_ID, sender: operator() };
    let pair = pusdc_liquidation_pair_address();
    let mut log = swap_log(120, 0x01, &pair, &operator(), 1, 1);
    log.topics[0] = Word { bytes: [0x33; 32] };
    let outcome = bot.decode_liquidation_router_event(&log, &block(), &rollup_receipt());
    assert!(matches!(outcome, Ok(None)));
    // The same log is a swap for one who takes that topic for the swap event.
    let outcome = bot.record_of_log(&Word { bytes: [0x33; 32] }, &log, &block(), &rollup_receipt());
    assert!(matches!(outcome, Ok(Some(_))));
}

#[test]
fn unknown_pair_is_a_fault() {
    let bot = Bot { chain_id: OPTIMISM_CHAIN_ID, sender: operator() };
    let log = swap_log(120, 0x01, &Address { bytes: [0x77; 20] }, &operator(), 1, 1);
    let outcome = bot.decode_liquidation_router_event(&log, &block(), &rollup_receipt());
    assert_eq!(outcome.err(), Some(RecordError::Lookup(LookupError::UnknownPair)));
}

#[test]
fn unknown_chain_is_a_fault() {
    let bot = Bot { chain_id: MAINNET_CHAIN_ID, sender: operator() };
    let log = swap_log(120, 0x01, &pusdc_liquidation_pair_address(), &operator(), 1, 1);
    let outcome = bot.decode_liquidation_router_event(&log, &block(), &rollup_receipt());
    assert_eq!(outcome.err(), Some(RecordError::Lookup(LookupError::UnknownChain)));
}

#[test]
fn timestamp_beyond_the_calendar_is_a_fault() {
    let bot = Bot { chain_id: OPTIMISM_CHAIN_ID, sender: operator() };
    let log = swap_log(120, 0x01, &pusdc_liquidation_pair_address(), &operator(), 1, 1);
    for timestamp in [u64::MAX, 1u64 << 63, i64::MAX as u64] {
        let outcome = bot.decode_liquidation_router_event(
            &log,
            &BlockContext { timestamp },
            &rollup_receipt(),
        );
        assert_eq!(outcome.err(), Some(RecordError::BadTimestamp));
    }
}

#[test]
fn decoding_twice_gives_the_same_record() {
    let bot = Bot { chain_id: OPTIMISM_CHAIN_ID, sender: operator() };
    let pair = pdai_liquidation_pair_address();
    let log = swap_log(9, 0x09, &pair, &operator(), 123_456_789, 987_654_321);
    let first = bot.decode_liquidation_router_event(&log, &block(), &rollup_receipt());
    let second = bot.decode_liquidation_router_event(&log, &block(), &rollup_receipt());
    let first = first.unwrap().unwrap();
    let second = second.unwrap().unwrap();
    assert_eq!(first.to_row(), second.to_row());
    assert_eq!(first.amount_out, "0.000000000123456789");
    assert_eq!(first.amount_out_symbol, "DAI");
}

#[test]
fn derives_a_record_from_a_decoded_event() {
    let event = DecodedSwapEvent {
        liquidation_pair: pdai_liquidation_pair_address(),
        sender: operator(),
        receiver: operator(),
        amount_out: Word::from_u128(3_000_000_000_000_000_000),
        amount_in_max: Word::from_u128(0),
        amount_in: Word::from_u128(250_000_000_000_000_000),
        deadline: Word::from_u128(0),
    };
    let record = derive_record(
        OPTIMISM_CHAIN_ID,
        &event,
        &Word { bytes: [0; 32] },
        &BlockContext { timestamp: 1_709_210_096 },
        &ReceiptContext { gas_used: 1, effective_gas_price: 1, l1_fee: None },
    )
    .unwrap();
    assert_eq!(record.date, "2024-02-29 12:34:56 UTC");
    assert_eq!(record.amount_in, "0.25");
    assert_eq!(record.amount_out, "3");
    assert_eq!(record.fee, "0.000000000000000001");
    assert_eq!(
        record.tx_hash,
        "0x0000000000000000000000000000000000000000000000000000000000000000"
    );
}

#[test]
fn two_swaps_and_another_log_give_two_records_in_order() {
    let bot = Bot { chain_id: OPTIMISM_CHAIN_ID, sender: operator() };
    let pair = pusdc_liquidation_pair_address();
    let first = swap_log(100, 0xa1, &pair, &operator(), 1_000_000, 10);
    let mut other = swap_log(1500, 0xb2, &pair, &operator(), 2_000_000, 20);
    other.topics = vec![Word { bytes: [0xdd; 32] }, Word { bytes: [0; 32] }];
    other.data = vec![1, 2, 3];
    let second = swap_log(2100, 0xc3, &pair, &operator(), 3_000_000, 30);
    let entries = vec![
        LogInContext { log: first, block: BlockContext { timestamp: 1_000 }, receipt: rollup_receipt() },
        LogInContext { log: other, block: BlockContext { timestamp: 2_000 }, receipt: rollup_receipt() },
        LogInContext { log: second, block: BlockContext { timestamp: 3_000 }, receipt: rollup_receipt() },
    ];
    let records = bot.records_of_logs(&entries).unwrap();
    assert_eq!(records.len(), 2);
    assert_eq!(records[0].amount_out, "1");
    assert_eq!(records[1].amount_out, "3");
    assert_eq!(records[0].date, "1970-01-01 00:16:40 UTC");
    assert_eq!(records[1].date, "1970-01-01 00:50:00 UTC");
    assert_eq!(
        records[0].tx_hash,
        "0xa1a1a1a1a1a1a1a1a1a1a1a1a1a1a1a1a1a1a1a1a1a1a1a1a1a1a1a1a1a1a1a1"
    );
    assert_eq!(
        records[1].tx_hash,
        "0xc3c3c3c3c3c3c3c3c3c3c3c3c3c3c3c3c3c3c3c3c3c3c3c3c3c3c3c3c3c3c3c3"
    );
    for record in records.iter() {
        assert_eq!(record.tx_hash.len(), 66);
        assert!(record.tx_hash.starts_with("0x"));
        assert!(record.tx_hash[2..].chars().all(|c| matches!(c, '0'..='9' | 'a'..='f')));
    }
}

#[test]
fn the_first_fault_ends_the_list() {
    let bot = Bot { chain_id: OPTIMISM_CHAIN_ID, sender: operator() };
    let pair = pusdc_liquidation_pair_address();
    let good = swap_log(100, 0xa1, &pair, &operator(), 1_000_000, 10);
    let bad = swap_log(101, 0xa2, &Address { bytes: [0x01; 20] }, &operator(), 1, 1);
    let late = swap_log(102, 0xa3, &pair, &operator(), 1, 1);
    let entries = vec![
        LogInContext { log: good, block: block(), receipt: rollup_receipt() },
        LogInContext { log: bad, block: block(), receipt: rollup_receipt() },
        LogInContext { log: late, block: BlockContext { timestamp: u64::MAX }, receipt: rollup_receipt() },
    ];
    assert_eq!(
        bot.records_of_logs(&entries).err(),
        Some(RecordError::Lookup(LookupError::UnknownPair))
    );
    assert_eq!(bot.records_of_logs(&Vec::new()).unwrap().len(), 0);
    assert_eq!(
        bot.records_of_entries(&Word { bytes: [0; 32] }, &entries).unwrap().len(),
        0
    );
}

#[test]
fn last_second_of_the_four_digit_years() {
    let bot = Bot { chain_id: OPTIMISM_CHAIN_ID, sender: operator() };
    let log = swap_log(120, 0x01, &pusdc_liquidation_pair_address(), &operator(), 1, 1);
    let record = bot
        .decode_liquidation_router_event(
            &log,
            &BlockContext { timestamp: FOUR_DIGIT_YEARS_END - 1 },
            &rollup_receipt(),
        )
        .unwrap()
        .unwrap();
    assert_eq!(record.date, "9999-12-31 23:59:59 UTC");
    assert_eq!(month_of(&record.date), Some("9999-12".to_string()));
}

#[test]
fn first_second_of_the_year_ten_thousand() {
    assert_eq!(FOUR_DIGIT_YEARS_END, 253_402_300_800);
    let bot = Bot { chain_id: OPTIMISM_CHAIN_ID, sender: operator() };
    let log = swap_log(120, 0x01, &pusdc_liquidation_pair_address(), &operator(), 1, 1);
    let record = bot
        .decode_liquidation_router_event(
            &log,
            &BlockContext { timestamp: FOUR_DIGIT_YEARS_END },
            &rollup_receipt(),
        )
        .unwrap()
        .unwrap();
    assert_eq!(record.date, "+10000-01-01 00:00:00 UTC");
    assert_eq!(month_of(&record.date), None);
    let (phase, action) = begin_emit(SinkKind::BucketedRemote, &record);
    assert_eq!(phase, SinkPhase::Finished);
    assert!(matches!(action, SinkAction::Fail(OutputError::UndatedRecord)));
}
