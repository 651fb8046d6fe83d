//! From one log of the liquidation router to one accounting record.

use crate::config::Config;
use crate::constants::{
    decimals_of, get_asset, get_underlying_asset, pool_optimism_address, pool_optimism_bytes,
    symbol_of, underlying_asset_of, LookupError,
};
use crate::primitives::{be_value, hex_text, is_lower_hex, Address, Word};
use crate::sink::starts_with_month;
use crate::units::{amount_text, amount_to_text};
use vstd::prelude::*;
use vstd::string::*;

verus! {

/// The signature of the event that the liquidation router emits for a swap.
pub const SWAP_EVENT_SIGNATURE: &'static str =
    "SwappedExactAmountOut(address,address,address,uint256,uint256,uint256,uint256)";

/// The decimals of the currency in which gas is paid.
pub const FEE_DECIMALS: u8 = 18;

/// The first second of the year 10000. The date of every earlier second
/// since the Unix epoch is written with a year of four digits.
pub const FOUR_DIGIT_YEARS_END: u64 = 253_402_300_800;

/// The Keccak-256 digest of a byte string.
pub uninterp spec fn keccak256_digest(bytes: Seq<u8>) -> Seq<u8>;

/// The calendar text, in UTC, of a number of seconds since the Unix epoch,
/// or `None` where the calendar does not reach.
pub uninterp spec fn utc_date_text(seconds: int) -> Option<Seq<char>>;

/// `alloy::primitives::keccak256`: the 32 bytes that it returns are the
/// Keccak-256 digest of the bytes given.
#[verifier::external_body]
fn keccak256(bytes: &[u8]) -> (r: Word)
    ensures
        r@ == keccak256_digest(bytes@),
{
    Word { bytes: alloy::primitives::keccak256(bytes).0 }
}

/// `chrono::DateTime::from_timestamp` with no nanoseconds, and the text that
/// `to_string` gives for the date: both depend on the seconds alone. Every
/// second from the Unix epoch to the end of the year 9999 has a date, and
/// its text starts with the year in four digits, a hyphen and the month in
/// two digits.
#[verifier::external_body]
fn utc_date(seconds: i64) -> (r: Option<String>)
    ensures
        r matches Some(s) ==> utc_date_text(seconds as int) == Some(s@),
        r is None ==> utc_date_text(seconds as int) is None,
        0 <= seconds < FOUR_DIGIT_YEARS_END ==> r is Some,
        0 <= seconds < FOUR_DIGIT_YEARS_END ==> (r matches Some(s) ==> starts_with_month(s@)),
{
    match chrono::DateTime::from_timestamp(seconds, 0) {
        Some(date) => Some(date.to_string()),
        None => None,
    }
}

/// One log as the chain hands it out.
#[derive(Clone, Debug)]
pub struct RawLogEvent {
    pub block_number: u64,
    pub transaction_hash: Word,
    pub topics: Vec<Word>,
    pub data: Vec<u8>,
}

/// What decoding needs of the block that holds the log.
#[derive(Clone, Copy, Debug)]
pub struct BlockContext {
    /// Seconds since the Unix epoch.
    pub timestamp: u64,
}

/// What decoding needs of the receipt of the log's transaction.
#[derive(Clone, Copy, Debug)]
pub struct ReceiptContext {
    pub gas_used: u64,
    pub effective_gas_price: u128,
    /// What a roll-up charges for posting the transaction to its base
    /// chain; `None` on other chains.
    pub l1_fee: Option<u128>,
}

/// A swap event, decoded.
#[derive(Clone, Copy, Debug)]
pub struct DecodedSwapEvent {
    pub liquidation_pair: Address,
    pub sender: Address,
    pub receiver: Address,
    pub amount_out: Word,
    pub amount_in_max: Word,
    pub amount_in: Word,
    pub deadline: Word,
}

/// A swap event as plain byte strings.
pub ghost struct SwapEventBytes {
    pub liquidation_pair: Seq<u8>,
    pub sender: Seq<u8>,
    pub receiver: Seq<u8>,
    pub amount_out: Seq<u8>,
    pub amount_in_max: Seq<u8>,
    pub amount_in: Seq<u8>,
    pub deadline: Seq<u8>,
}

impl View for DecodedSwapEvent {
    type V = SwapEventBytes;

    open spec fn view(&self) -> SwapEventBytes {
        SwapEventBytes {
            liquidation_pair: self.liquidation_pair@,
            sender: self.sender@,
            receiver: self.receiver@,
            amount_out: self.amount_out@,
            amount_in_max: self.amount_in_max@,
            amount_in: self.amount_in@,
            deadline: self.deadline@,
        }
    }
}

/// One line of the accounting export.
#[derive(Clone, Debug)]
pub struct KoinlyData {
    pub date: String,
    pub amount_in: String,
    pub amount_in_symbol: String,
    pub amount_out: String,
    pub amount_out_symbol: String,
    pub fee: String,
    pub fee_symbol: String,
    pub tx_hash: String,
}

/// The texts of one line of the accounting export.
pub ghost struct RecordText {
    pub date: Seq<char>,
    pub amount_in: Seq<char>,
    pub amount_in_symbol: Seq<char>,
    pub amount_out: Seq<char>,
    pub amount_out_symbol: Seq<char>,
    pub fee: Seq<char>,
    pub fee_symbol: Seq<char>,
    pub tx_hash: Seq<char>,
}

impl View for KoinlyData {
    type V = RecordText;

    open spec fn view(&self) -> RecordText {
        RecordText {
            date: self.date@,
            amount_in: self.amount_in@,
            amount_in_symbol: self.amount_in_symbol@,
            amount_out: self.amount_out@,
            amount_out_symbol: self.amount_out_symbol@,
            fee: self.fee@,
            fee_symbol: self.fee_symbol@,
            tx_hash: self.tx_hash@,
        }
    }
}

/// Why a log that matched gave no record. Each ends the run.
#[derive(Clone, Copy, Debug, PartialEq, Eq, Structural)]
pub enum RecordError {
    /// The tables do not know the chain, the liquidation pair or an asset.
    Lookup(LookupError),
    /// The fee does not fit in 128 bits.
    FeeOverflow,
    /// The block's timestamp is beyond the calendar.
    BadTimestamp,
}

/// Whether a log has the shape of the swap event: the signature topic and
/// three indexed addresses, and data for four 256-bit numbers.
pub open spec fn event_shape_matches(signature_topic: Seq<u8>, topics: Seq<Word>, data: Seq<u8>) -> bool {
    &&& topics.len() == 4
    &&& topics[0]@ == signature_topic
    &&& data.len() >= 128
}

/// The fields of a log that has the shape of the swap event.
pub open spec fn decoded_event(topics: Seq<Word>, data: Seq<u8>) -> SwapEventBytes
    recommends
        topics.len() == 4,
        data.len() >= 128,
{
    SwapEventBytes {
        liquidation_pair: topics[1]@.subrange(12, 32),
        sender: topics[2]@.subrange(12, 32),
        receiver: topics[3]@.subrange(12, 32),
        amount_out: data.subrange(0, 32),
        amount_in_max: data.subrange(32, 64),
        amount_in: data.subrange(64, 96),
        deadline: data.subrange(96, 128),
    }
}

/// The fee of a transaction in the smallest unit of the gas currency: gas
/// used times the price paid for it, plus what a roll-up charges on top.
pub open spec fn fee_total(receipt: ReceiptContext) -> nat {
    receipt.gas_used as nat * receipt.effective_gas_price as nat + match receipt.l1_fee {
        Some(l1_fee) => l1_fee as nat,
        None => 0,
    }
}

/// The record of a decoded event, or the fault that prevents it.
pub open spec fn record_for(
    chain_id: u64,
    event: SwapEventBytes,
    tx_hash: Seq<u8>,
    block: BlockContext,
    receipt: ReceiptContext,
) -> Result<RecordText, RecordError> {
    let quote = pool_optimism_bytes();
    match underlying_asset_of(chain_id, event.liquidation_pair) {
        Err(e) => Err(RecordError::Lookup(e)),
        Ok(asset) => match (
            decimals_of(chain_id, quote),
            symbol_of(chain_id, quote),
            decimals_of(chain_id, asset),
            symbol_of(chain_id, asset),
        ) {
            (Err(e), _, _, _) => Err(RecordError::Lookup(e)),
            (Ok(_), Err(e), _, _) => Err(RecordError::Lookup(e)),
            (Ok(_), Ok(_), Err(e), _) => Err(RecordError::Lookup(e)),
            (Ok(_), Ok(_), Ok(_), Err(e)) => Err(RecordError::Lookup(e)),
            (Ok(in_decimals), Ok(in_symbol), Ok(out_decimals), Ok(out_symbol)) => {
                if fee_total(receipt) > u128::MAX {
                    Err(RecordError::FeeOverflow)
                } else if block.timestamp > i64::MAX {
                    Err(RecordError::BadTimestamp)
                } else {
                    match utc_date_text(block.timestamp as int) {
                        None => Err(RecordError::BadTimestamp),
                        Some(date) => Ok(
                            RecordText {
                                date,
                                amount_in: amount_text(
                                    be_value(event.amount_in),
                                    in_decimals as nat,
                                ),
                                amount_in_symbol: in_symbol,
                                amount_out: amount_text(
                                    be_value(event.amount_out),
                                    out_decimals as nat,
                                ),
                                amount_out_symbol: out_symbol,
                                fee: amount_text(fee_total(receipt), FEE_DECIMALS as nat),
                                fee_symbol: "ETH"@,
                                tx_hash: hex_text(tx_hash),
                            },
                        ),
                    }
                }
            },
        },
    }
}

/// What one log gives: a record, nothing (`Ok(None)`: the log is no swap
/// event, or the swap was sent by someone else), or a fault.
pub open spec fn outcome_for(
    signature_topic: Seq<u8>,
    chain_id: u64,
    sender: Seq<u8>,
    log: RawLogEvent,
    block: BlockContext,
    receipt: ReceiptContext,
) -> Result<Option<RecordText>, RecordError> {
    if !event_shape_matches(signature_topic, log.topics@, log.data@) {
        Ok(None)
    } else if decoded_event(log.topics@, log.data@).sender != sender {
        Ok(None)
    } else {
        match record_for(
            chain_id,
            decoded_event(log.topics@, log.data@),
            log.transaction_hash@,
            block,
            receipt,
        ) {
            Ok(record) => Ok(Some(record)),
            Err(e) => Err(e),
        }
    }
}

/// What came out of a log, with the record taken as its texts.
pub open spec fn outcome_view(r: Result<Option<KoinlyData>, RecordError>) -> Result<
    Option<RecordText>,
    RecordError,
> {
    match r {
        Ok(Some(record)) => Ok(Some(record@)),
        Ok(None) => Ok(None),
        Err(e) => Err(e),
    }
}

/// What came out of a derivation, with the record taken as its texts.
pub open spec fn record_view(r: Result<KoinlyData, RecordError>) -> Result<RecordText, RecordError> {
    match r {
        Ok(record) => Ok(record@),
        Err(e) => Err(e),
    }
}

/// The topic by which the swap event is recognised: the digest of its
/// signature.
pub fn swap_event_topic() -> (r: Word)
    ensures
        r@ == keccak256_digest(SWAP_EVENT_SIGNATURE.spec_bytes()),
{
    keccak256(SWAP_EVENT_SIGNATURE.as_bytes())
}

/// Decodes a log as a swap event. A log of another shape gives `None`.
pub fn decode_swap_event(signature_topic: &Word, log: &RawLogEvent) -> (r: Option<DecodedSwapEvent>)
    ensures
        r.is_some() == event_shape_matches(signature_topic@, log.topics@, log.data@),
        r matches Some(event) ==> event@ == decoded_event(log.topics@, log.data@),
{
    if log.topics.len() != 4 || log.data.len() < 128 {
        return None;
    }
    if !log.topics[0].same(signature_topic) {
        return None;
    }
    let data = log.data.as_slice();
    Some(
        DecodedSwapEvent {
            liquidation_pair: log.topics[1].low_address(),
            sender: log.topics[2].low_address(),
            receiver: log.topics[3].low_address(),
            amount_out: Word::from_slice(data, 0),
            amount_in_max: Word::from_slice(data, 32),
            amount_in: Word::from_slice(data, 64),
            deadline: Word::from_slice(data, 96),
        },
    )
}

/// The fee of a transaction in the smallest unit of the gas currency, or
/// `None` where it does not fit in 128 bits.
pub fn total_fee(receipt: &ReceiptContext) -> (r: Option<u128>)
    ensures
        r.is_some() == (fee_total(*receipt) <= u128::MAX),
        r matches Some(fee) ==> fee == fee_total(*receipt),
        r matches Some(fee) ==> receipt.l1_fee is None ==> fee == receipt.gas_used
            * receipt.effective_gas_price,
        r matches Some(fee) ==> (receipt.l1_fee matches Some(l1_fee) ==> fee == receipt.gas_used
            * receipt.effective_gas_price + l1_fee),
{
    let gas: u128 = receipt.gas_used as u128;
    match gas.checked_mul(receipt.effective_gas_price) {
        None => None,
        Some(execution) => match receipt.l1_fee {
            None => Some(execution),
            Some(l1_fee) => execution.checked_add(l1_fee),
        },
    }
}

/// The record of a decoded swap on the chain `chain_id`.
pub fn derive_record(
    chain_id: u64,
    event: &DecodedSwapEvent,
    tx_hash: &Word,
    block: &BlockContext,
    receipt: &ReceiptContext,
) -> (r: Result<KoinlyData, RecordError>)
    ensures
        record_view(r) == record_for(chain_id, event@, tx_hash@, *block, *receipt),
        block.timestamp < FOUR_DIGIT_YEARS_END ==> r != Err::<KoinlyData, RecordError>(
            RecordError::BadTimestamp,
        ),
        block.timestamp < FOUR_DIGIT_YEARS_END ==> (r matches Ok(record) ==> starts_with_month(
            record.date@,
        )),
{
    let asset = match get_underlying_asset(chain_id, &event.liquidation_pair) {
        Ok(asset) => asset,
        Err(e) => {
            return Err(RecordError::Lookup(e));
        },
    };
    let quote = match get_asset(chain_id, &pool_optimism_address()) {
        Ok(quote) => quote,
        Err(e) => {
            return Err(RecordError::Lookup(e));
        },
    };
    let amount_in = amount_to_text(&event.amount_in, quote.decimals);
    let amount_out = amount_to_text(&event.amount_out, asset.decimals);
    let fee = match total_fee(receipt) {
        Some(fee) => fee,
        None => {
            return Err(RecordError::FeeOverflow);
        },
    };
    if block.timestamp > i64::MAX as u64 {
        return Err(RecordError::BadTimestamp);
    }
    let date = match utc_date(block.timestamp as i64) {
        Some(date) => date,
        None => {
            return Err(RecordError::BadTimestamp);
        },
    };
    let fee_text = amount_to_text(&Word::from_u128(fee), FEE_DECIMALS);
    Ok(
        KoinlyData {
            date,
            amount_in,
            amount_in_symbol: quote.symbol.to_owned(),
            amount_out,
            amount_out_symbol: asset.symbol.to_owned(),
            fee: fee_text,
            fee_symbol: "ETH".to_owned(),
            tx_hash: tx_hash.to_hex(),
        },
    )
}

/// Turns the logs of the liquidation router into accounting records for
/// the swaps that one sender made on one chain.
#[derive(Clone, Copy, Debug)]
pub struct Bot {
    /// Chain ID
    pub chain_id: u64,
    /// Address of the sender for which to record liquidation transactions
    pub sender: Address,
}

impl Bot {
    /// The bot for the chain and the sender of a configuration.
    pub fn new(config: &Config) -> (r: Self)
        ensures
            r.chain_id == config.chain_id,
            r.sender == config.sender,
    {
        Self { chain_id: config.chain_id, sender: config.sender }
    }

    /// What one log gives, for a given topic of the swap event.
    pub fn record_of_log(
        &self,
        signature_topic: &Word,
        log: &RawLogEvent,
        block: &BlockContext,
        receipt: &ReceiptContext,
    ) -> (r: Result<Option<KoinlyData>, RecordError>)
        ensures
            outcome_view(r) == outcome_for(
                signature_topic@,
                self.chain_id,
                self.sender@,
                *log,
                *block,
                *receipt,
            ),
            block.timestamp < FOUR_DIGIT_YEARS_END ==> r != Err::<Option<KoinlyData>, RecordError>(
                RecordError::BadTimestamp,
            ),
            block.timestamp < FOUR_DIGIT_YEARS_END ==> (r matches Ok(Some(record))
                ==> starts_with_month(record.date@)),
    {
        match decode_swap_event(signature_topic, log) {
            None => Ok(None),
            Some(event) => {
                // Nothing is recorded for a swap that another sender made.
                if !event.sender.same(&self.sender) {
                    return Ok(None);
                }
                match derive_record(self.chain_id, &event, &log.transaction_hash, block, receipt) {
                    Ok(record) => Ok(Some(record)),
                    Err(e) => Err(e),
                }
            },
        }
    }

    /// Decode liquidation router SwappedExactAmountOut event
    pub fn decode_liquidation_router_event(
        &self,
        log: &RawLogEvent,
        block: &BlockContext,
        receipt: &ReceiptContext,
    ) -> (r: Result<Option<KoinlyData>, RecordError>)
        ensures
            outcome_view(r) == outcome_for(
                keccak256_digest(SWAP_EVENT_SIGNATURE.spec_bytes()),
                self.chain_id,
                self.sender@,
                *log,
                *block,
                *receipt,
            ),
            block.timestamp < FOUR_DIGIT_YEARS_END ==> r != Err::<Option<KoinlyData>, RecordError>(
                RecordError::BadTimestamp,
            ),
            block.timestamp < FOUR_DIGIT_YEARS_END ==> (r matches Ok(Some(record))
                ==> starts_with_month(record.date@)),
    {
        let topic = swap_event_topic();
        self.record_of_log(&topic, log, block, receipt)
    }
}

/// A log with the block that holds it and the receipt of its transaction.
#[derive(Clone, Debug)]
pub struct LogInContext {
    pub log: RawLogEvent,
    pub block: BlockContext,
    pub receipt: ReceiptContext,
}

/// The texts of a list of records.
pub open spec fn record_texts(records: Seq<KoinlyData>) -> Seq<RecordText> {
    Seq::new(records.len(), |i: int| records[i]@)
}

/// The records of a list of logs, in the order of the logs: a log that
/// gives nothing is passed over, and the first fault ends the list.
pub open spec fn records_for(
    signature_topic: Seq<u8>,
    chain_id: u64,
    sender: Seq<u8>,
    entries: Seq<LogInContext>,
) -> Result<Seq<RecordText>, RecordError>
    decreases entries.len(),
{
    if entries.len() == 0 {
        Ok(Seq::empty())
    } else {
        let last = entries.last();
        match records_for(signature_topic, chain_id, sender, entries.drop_last()) {
            Err(e) => Err(e),
            Ok(before) => match outcome_for(
                signature_topic,
                chain_id,
                sender,
                last.log,
                last.block,
                last.receipt,
            ) {
                Err(e) => Err(e),
                Ok(None) => Ok(before),
                Ok(Some(record)) => Ok(before.push(record)),
            },
        }
    }
}

/// What came out of a list of logs, with the records taken as their texts.
pub open spec fn records_view(r: Result<Vec<KoinlyData>, RecordError>) -> Result<
    Seq<RecordText>,
    RecordError,
> {
    match r {
        Ok(records) => Ok(record_texts(records@)),
        Err(e) => Err(e),
    }
}

/// A fault among the first `k` logs is the fault of the whole list.
pub proof fn lemma_fault_ends_the_list(
    signature_topic: Seq<u8>,
    chain_id: u64,
    sender: Seq<u8>,
    entries: Seq<LogInContext>,
    k: int,
)
    requires
        0 <= k <= entries.len(),
        records_for(signature_topic, chain_id, sender, entries.subrange(0, k)) is Err,
    ensures
        records_for(signature_topic, chain_id, sender, entries) == records_for(
            signature_topic,
            chain_id,
            sender,
            entries.subrange(0, k),
        ),
    decreases entries.len() - k,
{
    if k == entries.len() {
        assert(entries.subrange(0, k) =~= entries);
    } else {
        assert(entries.drop_last().subrange(0, k) =~= entries.subrange(0, k));
        lemma_fault_ends_the_list(signature_topic, chain_id, sender, entries.drop_last(), k);
    }
}

impl Bot {
    /// The records of the logs of one query, in the order of the logs, for
    /// a given topic of the swap event.
    pub fn records_of_entries(&self, signature_topic: &Word, entries: &Vec<LogInContext>) -> (r:
        Result<Vec<KoinlyData>, RecordError>)
        ensures
            records_view(r) == records_for(signature_topic@, self.chain_id, self.sender@, entries@),
    {
        let mut out: Vec<KoinlyData> = Vec::new();
        let mut i: usize = 0;
        proof {
            assert(entries@.subrange(0, 0).len() == 0);
            assert(record_texts(out@) =~= Seq::<RecordText>::empty());
        }
        while i < entries.len()
            invariant
                i <= entries@.len(),
                records_for(
                    signature_topic@,
                    self.chain_id,
                    self.sender@,
                    entries@.subrange(0, i as int),
                ) == Ok::<Seq<RecordText>, RecordError>(record_texts(out@)),
            decreases entries@.len() - i,
        {
            let entry = &entries[i];
            let ghost before = record_texts(out@);
            proof {
                assert(entries@.subrange(0, i + 1).drop_last() =~= entries@.subrange(0, i as int));
                assert(entries@.subrange(0, i + 1).last() == entries@[i as int]);
            }
            match self.record_of_log(signature_topic, &entry.log, &entry.block, &entry.receipt) {
                Err(e) => {
                    proof {
                        lemma_fault_ends_the_list(
                            signature_topic@,
                            self.chain_id,
                            self.sender@,
                            entries@,
                            i + 1,
                        );
                    }
                    return Err(e);
                },
                Ok(None) => {},
                Ok(Some(record)) => {
                    out.push(record);
                    assert(record_texts(out@) =~= before.push(record@));
                },
            }
            i += 1;
        }
        assert(entries@.subrange(0, i as int) =~= entries@);
        Ok(out)
    }

    /// The records of the logs of one query, in the order of the logs.
    pub fn records_of_logs(&self, entries: &Vec<LogInContext>) -> (r: Result<
        Vec<KoinlyData>,
        RecordError,
    >)
        ensures
            records_view(r) == records_for(
                keccak256_digest(SWAP_EVENT_SIGNATURE.spec_bytes()),
                self.chain_id,
                self.sender@,
                entries@,
            ),
    {
        let topic = swap_event_topic();
        self.records_of_entries(&topic, entries)
    }
}

/// The transaction hash of every record is written in canonical form: `0x`
/// and then two lowercase hexadecimal digits for each byte of the hash,
/// which makes 66 characters for a hash of 32 bytes.
pub proof fn lemma_tx_hash_is_canonical(
    chain_id: u64,
    event: SwapEventBytes,
    tx_hash: Seq<u8>,
    block: BlockContext,
    receipt: ReceiptContext,
)
    ensures
        record_for(chain_id, event, tx_hash, block, receipt) matches Ok(record) ==> {
            &&& record.tx_hash.len() == 2 + 2 * tx_hash.len()
            &&& record.tx_hash[0] == '0'
            &&& record.tx_hash[1] == 'x'
            &&& forall|i: int|
                2 <= i < record.tx_hash.len() ==> is_lower_hex(#[trigger] record.tx_hash[i])
        },
{
}

/// A swap that another sender made gives no record, whatever else the log,
/// the block and the receipt hold.
pub proof fn lemma_other_sender_gives_no_record(
    signature_topic: Seq<u8>,
    chain_id: u64,
    sender: Seq<u8>,
    log: RawLogEvent,
    block: BlockContext,
    receipt: ReceiptContext,
)
    requires
        decoded_event(log.topics@, log.data@).sender != sender,
    ensures
        outcome_for(signature_topic, chain_id, sender, log, block, receipt) == Ok::<
            Option<RecordText>,
            RecordError,
        >(None),
{
}

/// What a log gives depends on the log, the block, the receipt, the chain
/// and the sender alone: two results for the same inputs are the same
/// record, the same skip or the same fault.
pub proof fn lemma_decoding_is_deterministic(
    bot: Bot,
    log: RawLogEvent,
    block: BlockContext,
    receipt: ReceiptContext,
    first: Result<Option<KoinlyData>, RecordError>,
    second: Result<Option<KoinlyData>, RecordError>,
)
    requires
        outcome_view(first) == outcome_for(
            keccak256_digest(SWAP_EVENT_SIGNATURE.spec_bytes()),
            bot.chain_id,
            bot.sender@,
            log,
            block,
            receipt,
        ),
        outcome_view(second) == outcome_for(
            keccak256_digest(SWAP_EVENT_SIGNATURE.spec_bytes()),
            bot.chain_id,
            bot.sender@,
            log,
            block,
            receipt,
        ),
    ensures
        outcome_view(first) == outcome_view(second),
{
}

/// The fee is gas used times the price paid for it where no roll-up fee is
/// charged, and that product plus the roll-up fee where one is.
pub proof fn lemma_fee_total(receipt: ReceiptContext)
    ensures
        receipt.l1_fee is None ==> fee_total(receipt) == receipt.gas_used
            * receipt.effective_gas_price,
        receipt.l1_fee matches Some(l1_fee) ==> fee_total(receipt) == receipt.gas_used
            * receipt.effective_gas_price + l1_fee,
{
}

} // verus!
