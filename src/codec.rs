use vstd::prelude::*;

use crate::error::BitcoinError;
use crate::transaction::{LegacyTransaction, OutPoint, TxInput, TxOutput};

verus! {

/// Bytes in the fixed header: version, input count, output count, lock time.
pub const HEADER_LEN: usize = 16;

/// Sequence number that a decoded input carries.
pub const FINAL_SEQUENCE: u32 = 0xffff_ffff;

/// The little-endian `u32` in bytes `[at, at + 4)` of `data`.
pub open spec fn le_u32_at(data: Seq<u8>, at: int) -> u32 {
    (data[at] as int + data[at + 1] as int * 0x100 + data[at + 2] as int * 0x1_0000
        + data[at + 3] as int * 0x100_0000) as u32
}

/// The four little-endian bytes of `x`.
pub open spec fn le_bytes(x: u32) -> Seq<u8> {
    seq![
        (x % 0x100) as u8,
        (x / 0x100 % 0x100) as u8,
        (x / 0x1_0000 % 0x100) as u8,
        (x / 0x100_0000) as u8,
    ]
}

/// Whether a buffer is long enough to decode.
pub open spec fn decodable(data: Seq<u8>) -> bool {
    data.len() >= HEADER_LEN
}

/// The input that decoding fills in: zero id, index 0, no script, final sequence.
pub open spec fn is_placeholder_input(i: TxInput) -> bool {
    &&& forall|k: int| 0 <= k < 32 ==> i.previous_output.txid[k] == 0
    &&& i.previous_output.vout == 0
    &&& i.script_sig@.len() == 0
    &&& i.sequence == FINAL_SEQUENCE
}

/// The output that decoding fills in: value 0, no script.
pub open spec fn is_placeholder_output(o: TxOutput) -> bool {
    &&& o.value == 0
    &&& o.script_pubkey@.len() == 0
}

/// `tx` is what the header of `data` describes: its version and lock time,
/// as many placeholder inputs and outputs as the header counts.
pub open spec fn decodes_to(data: Seq<u8>, tx: LegacyTransaction) -> bool {
    &&& tx.version == le_u32_at(data, 0) as i32
    &&& tx.inputs@.len() == le_u32_at(data, 4)
    &&& tx.outputs@.len() == le_u32_at(data, 8)
    &&& tx.lock_time == le_u32_at(data, 12)
    &&& forall|k: int| 0 <= k < tx.inputs@.len() ==> is_placeholder_input(#[trigger] tx.inputs@[k])
    &&& forall|k: int|
        0 <= k < tx.outputs@.len() ==> is_placeholder_output(#[trigger] tx.outputs@[k])
}

/// The little-endian `u32` at offset `at`.
fn read_u32_le(data: &[u8], at: usize) -> (r: u32)
    requires
        at + 4 <= HEADER_LEN <= data@.len(),
    ensures
        r == le_u32_at(data@, at as int),
{
    data[at] as u32 + data[at + 1] as u32 * 0x100 + data[at + 2] as u32 * 0x1_0000
        + data[at + 3] as u32 * 0x100_0000
}

/// The four little-endian bytes of `x`.
fn write_u32_le(x: u32) -> (r: Vec<u8>)
    ensures
        r@ == le_bytes(x),
{
    let r = vec![
        (x % 0x100) as u8,
        (x / 0x100 % 0x100) as u8,
        (x / 0x1_0000 % 0x100) as u8,
        (x / 0x100_0000) as u8,
    ];
    proof {
        assert(r@ =~= le_bytes(x));
    }
    r
}

fn placeholder_input() -> (r: TxInput)
    ensures
        is_placeholder_input(r),
{
    TxInput {
        previous_output: OutPoint { txid: [0u8; 32], vout: 0 },
        script_sig: Vec::new(),
        sequence: FINAL_SEQUENCE,
    }
}

fn placeholder_output() -> (r: TxOutput)
    ensures
        is_placeholder_output(r),
{
    TxOutput { value: 0, script_pubkey: Vec::new() }
}

impl LegacyTransaction {
    /// Decodes the header of `data`. Input and output bodies are not read:
    /// each counted input and output is a placeholder.
    pub fn from_bytes(data: &[u8]) -> (r: Result<LegacyTransaction, BitcoinError>)
        ensures
            r is Ok <==> decodable(data@),
            match r {
                Ok(tx) => decodes_to(data@, tx),
                Err(e) => e is InvalidTransaction,
            },
    {
        if data.len() < HEADER_LEN {
            return Err(BitcoinError::InvalidTransaction);
        }
        let version = read_u32_le(data, 0) as i32;
        let input_count = read_u32_le(data, 4) as usize;
        let output_count = read_u32_le(data, 8) as usize;
        let lock_time = read_u32_le(data, 12);

        let mut inputs: Vec<TxInput> = Vec::with_capacity(input_count);
        let mut k: usize = 0;
        while k < input_count
            invariant
                k <= input_count,
                inputs@.len() == k,
                forall|j: int| 0 <= j < k ==> is_placeholder_input(#[trigger] inputs@[j]),
            decreases input_count - k,
        {
            inputs.push(placeholder_input());
            k += 1;
        }

        let mut outputs: Vec<TxOutput> = Vec::with_capacity(output_count);
        let mut k: usize = 0;
        while k < output_count
            invariant
                k <= output_count,
                outputs@.len() == k,
                forall|j: int| 0 <= j < k ==> is_placeholder_output(#[trigger] outputs@[j]),
            decreases output_count - k,
        {
            outputs.push(placeholder_output());
            k += 1;
        }

        Ok(LegacyTransaction { version, inputs, outputs, lock_time })
    }
}

/// Encoding to bytes.
pub trait BitcoinSerialize {
    /// The bytes that `serialize` gives.
    spec fn serialized(&self) -> Seq<u8>;

    fn serialize(&self) -> (r: Vec<u8>)
        ensures
            r@ == self.serialized(),
    ;
}

/// The version's four bytes, then the lock time's, both little-endian.
pub open spec fn header_encoding(version: i32, lock_time: u32) -> Seq<u8> {
    le_bytes(version as u32) + le_bytes(lock_time)
}

/// Only the version and the lock time are written; inputs and outputs are not.
impl BitcoinSerialize for LegacyTransaction {
    open spec fn serialized(&self) -> Seq<u8> {
        header_encoding(self.version, self.lock_time)
    }

    fn serialize(&self) -> (r: Vec<u8>) {
        let mut result = write_u32_le(self.version as u32);
        let mut lock_time = write_u32_le(self.lock_time);
        result.append(&mut lock_time);
        proof {
            assert(result@ =~= self.serialized());
        }
        result
    }
}

/// Reading back the four bytes of `x` gives `x`.
pub proof fn lemma_le_bytes_read_back(x: u32)
    ensures
        le_bytes(x).len() == 4,
        le_u32_at(le_bytes(x), 0) == x,
{
    let b = le_bytes(x);
    assert(b[0] as int + b[1] as int * 0x100 + b[2] as int * 0x1_0000 + b[3] as int * 0x100_0000
        == x as int) by (nonlinear_arith)
        requires
            b[0] == x % 0x100,
            b[1] == x / 0x100 % 0x100,
            b[2] == x / 0x1_0000 % 0x100,
            b[3] == x / 0x100_0000,
    ;
}

/// Encoding keeps the version in bytes `[0, 4)` and the lock time in bytes
/// `[4, 8)`, eight bytes in all: too few to decode, so decoding an encoded
/// transaction always fails, and its inputs and outputs are lost.
pub proof fn lemma_encoding_does_not_decode(tx: LegacyTransaction)
    ensures
        tx.serialized().len() == 8,
        le_u32_at(tx.serialized(), 0) as i32 == tx.version,
        le_u32_at(tx.serialized(), 4) == tx.lock_time,
        !decodable(tx.serialized()),
{
    let enc = tx.serialized();
    lemma_le_bytes_read_back(tx.version as u32);
    lemma_le_bytes_read_back(tx.lock_time);
    assert(enc.subrange(0, 4) =~= le_bytes(tx.version as u32));
    assert(enc.subrange(4, 8) =~= le_bytes(tx.lock_time));
    let version = tx.version;
    assert((version as u32) as i32 == version) by (bit_vector);
}

/// Writing back the value read from four bytes gives those bytes.
pub proof fn lemma_le_u32_written_back(data: Seq<u8>, at: int)
    requires
        0 <= at,
        at + 4 <= data.len(),
    ensures
        le_bytes(le_u32_at(data, at)) == data.subrange(at, at + 4),
{
    let (b0, b1, b2, b3) = (data[at], data[at + 1], data[at + 2], data[at + 3]);
    let x = le_u32_at(data, at);
    assert(x as int == b0 as int + b1 as int * 0x100 + b2 as int * 0x1_0000 + b3 as int * 0x100_0000);
    assert({
        &&& x % 0x100 == b0
        &&& x / 0x100 % 0x100 == b1
        &&& x / 0x1_0000 % 0x100 == b2
        &&& x / 0x100_0000 == b3
    }) by (nonlinear_arith)
        requires
            x as int == b0 as int + b1 as int * 0x100 + b2 as int * 0x1_0000 + b3 as int * 0x100_0000,
            b0 < 0x100,
            b1 < 0x100,
            b2 < 0x100,
            b3 < 0x100,
    ;
    assert(le_bytes(x) =~= data.subrange(at, at + 4));
}

/// Encoding a decoded transaction gives back the header's version bytes
/// `[0, 4)` and lock-time bytes `[12, 16)`; the counts are not written.
pub proof fn lemma_decoded_encodes_to_header(data: Seq<u8>, tx: LegacyTransaction)
    requires
        decodable(data),
        decodes_to(data, tx),
    ensures
        tx.serialized() == data.subrange(0, 4) + data.subrange(12, 16),
{
    lemma_le_u32_written_back(data, 0);
    lemma_le_u32_written_back(data, 12);
    let u = le_u32_at(data, 0);
    assert((u as i32) as u32 == u) by (bit_vector);
}

/// Decoding through `TryFrom`, with the same contract as `from_bytes`.
impl<'a> TryFrom<&'a [u8]> for LegacyTransaction {
    type Error = BitcoinError;

    fn try_from(data: &'a [u8]) -> (r: Result<Self, Self::Error>)
        ensures
            r is Ok <==> decodable(data@),
            match r {
                Ok(tx) => decodes_to(data@, tx),
                Err(e) => e is InvalidTransaction,
            },
    {
        LegacyTransaction::from_bytes(data)
    }
}

/// No single value is named as the result: a decoded transaction is
/// described by `decodes_to`, which `try_from` ensures.
impl<'a> vstd::std_specs::convert::TryFromSpecImpl<&'a [u8]> for LegacyTransaction {
    open spec fn obeys_try_from_spec() -> bool {
        false
    }

    open spec fn try_from_spec(data: &'a [u8]) -> Result<Self, BitcoinError> {
        arbitrary()
    }
}

} // verus!
