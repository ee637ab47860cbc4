use vstd::prelude::*;

verus! {

/// Names one output of an earlier transaction: its 32-byte id and its index.
#[derive(Debug, Clone)]
pub struct OutPoint {
    pub txid: [u8; 32],
    pub vout: u32,
}

/// A transaction input: what it spends, its unlocking script, its sequence number.
#[derive(Debug, Clone)]
pub struct TxInput {
    pub previous_output: OutPoint,
    pub script_sig: Vec<u8>,
    pub sequence: u32,
}

/// A transaction output: a value in satoshis and its locking script.
#[derive(Debug, Clone)]
pub struct TxOutput {
    pub value: u64,
    pub script_pubkey: Vec<u8>,
}

/// A legacy transaction.
#[derive(Debug, Clone)]
pub struct LegacyTransaction {
    pub version: i32,
    pub inputs: Vec<TxInput>,
    pub outputs: Vec<TxOutput>,
    pub lock_time: u32,
}

/// Accumulates the fields of a transaction; `build` hands them over as they are.
pub struct LegacyTransactionBuilder {
    pub version: i32,
    pub inputs: Vec<TxInput>,
    pub outputs: Vec<TxOutput>,
    pub lock_time: u32,
}

/// Version 1, no inputs, no outputs, lock time 0.
pub open spec fn is_fresh_builder(b: LegacyTransactionBuilder) -> bool {
    &&& b.version == 1
    &&& b.inputs@.len() == 0
    &&& b.outputs@.len() == 0
    &&& b.lock_time == 0
}

impl LegacyTransaction {
    pub fn builder() -> (r: LegacyTransactionBuilder)
        ensures
            is_fresh_builder(r),
    {
        LegacyTransactionBuilder::new()
    }
}

impl Default for LegacyTransactionBuilder {
    fn default() -> (r: Self)
        ensures
            is_fresh_builder(r),
    {
        Self { version: 1, inputs: Vec::new(), outputs: Vec::new(), lock_time: 0 }
    }
}

impl LegacyTransactionBuilder {
    pub fn new() -> (r: Self)
        ensures
            is_fresh_builder(r),
    {
        Self::default()
    }

    pub fn version(self, version: i32) -> (r: Self)
        ensures
            r.version == version,
            r.inputs@ == self.inputs@,
            r.outputs@ == self.outputs@,
            r.lock_time == self.lock_time,
    {
        let mut b = self;
        b.version = version;
        b
    }

    pub fn add_input(self, input: TxInput) -> (r: Self)
        ensures
            r.version == self.version,
            r.inputs@ == self.inputs@.push(input),
            r.outputs@ == self.outputs@,
            r.lock_time == self.lock_time,
    {
        let mut b = self;
        b.inputs.push(input);
        b
    }

    pub fn add_output(self, output: TxOutput) -> (r: Self)
        ensures
            r.version == self.version,
            r.inputs@ == self.inputs@,
            r.outputs@ == self.outputs@.push(output),
            r.lock_time == self.lock_time,
    {
        let mut b = self;
        b.outputs.push(output);
        b
    }

    pub fn lock_time(self, lock_time: u32) -> (r: Self)
        ensures
            r.version == self.version,
            r.inputs@ == self.inputs@,
            r.outputs@ == self.outputs@,
            r.lock_time == lock_time,
    {
        let mut b = self;
        b.lock_time = lock_time;
        b
    }

    pub fn build(self) -> (r: LegacyTransaction)
        ensures
            r.version == self.version,
            r.inputs@ == self.inputs@,
            r.outputs@ == self.outputs@,
            r.lock_time == self.lock_time,
    {
        LegacyTransaction {
            version: self.version,
            inputs: self.inputs,
            outputs: self.outputs,
            lock_time: self.lock_time,
        }
    }
}

} // verus!
