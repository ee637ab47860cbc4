use bitcoin_tx::{
    BitcoinError, BitcoinSerialize, LegacyTransaction, OutPoint, TxInput, TxOutput,
};

fn header(version: [u8; 4], inputs: [u8; 4], outputs: [u8; 4], lock_time: [u8; 4]) -> Vec<u8> {
    let mut v = Vec::new();
    v.extend_from_slice(&version);
    v.extend_from_slice(&inputs);
    v.extend_from_slice(&outputs);
    v.extend_from_slice(&lock_time);
    v
}

fn sample_input() -> TxInput {
    TxInput {
        previous_output: OutPoint { txid: [9u8; 32], vout: 3 },
        script_sig: vec![1, 2, 3],
        sequence: 17,
    }
}

#[test]
fn short_buffers_fail_to_decode() {
    for n in 0..16usize {
        let data = vec![0xabu8; n];
        let r = LegacyTransaction::from_bytes(&data);
        assert!(matches!(r, Err(BitcoinError::InvalidTransaction)), "length {}", n);
    }
}

#[test]
fn empty_header_decodes() {
    let data = header([1, 0, 0, 0], [0; 4], [0; 4], [0; 4]);
    let tx = LegacyTransaction::from_bytes(&data).unwrap();
    assert_eq!(tx.version, 1);
    assert!(tx.inputs.is_empty());
    assert!(tx.outputs.is_empty());
    assert_eq!(tx.lock_time, 0);
}

#[test]
fn declared_counts_give_placeholders() {
    let data = header([1, 0, 0, 0], [2, 0, 0, 0], [3, 0, 0, 0], [0; 4]);
    let tx = LegacyTransaction::from_bytes(&data).unwrap();
    assert_eq!(tx.inputs.len(), 2);
    assert_eq!(tx.outputs.len(), 3);
    for input in &tx.inputs {
        assert_eq!(input.previous_output.txid, [0u8; 32]);
        assert_eq!(input.previous_output.vout, 0);
        assert!(input.script_sig.is_empty());
        assert_eq!(input.sequence, 0xffff_ffff);
    }
    for output in &tx.outputs {
        assert_eq!(output.value, 0);
        assert!(output.script_pubkey.is_empty());
    }
}

#[test]
fn header_fields_are_little_endian() {
    let data = header([0xfe, 0xff, 0xff, 0xff], [1, 0, 0, 0], [0; 4], [0x78, 0x56, 0x34, 0x12]);
    let tx = LegacyTransaction::from_bytes(&data).unwrap();
    assert_eq!(tx.version, -2);
    assert_eq!(tx.inputs.len(), 1);
    assert_eq!(tx.outputs.len(), 0);
    assert_eq!(tx.lock_time, 0x1234_5678);
}

#[test]
fn bytes_after_header_are_ignored() {
    let mut data = header([2, 0, 0, 0], [0; 4], [1, 0, 0, 0], [5, 0, 0, 0]);
    data.extend_from_slice(&[0xff; 40]);
    let tx = LegacyTransaction::from_bytes(&data).unwrap();
    assert_eq!(tx.version, 2);
    assert_eq!(tx.outputs.len(), 1);
    assert_eq!(tx.outputs[0].value, 0);
    assert_eq!(tx.lock_time, 5);
}

#[test]
fn try_from_decodes_like_from_bytes() {
    let data = header([3, 0, 0, 0], [0; 4], [0; 4], [9, 0, 0, 0]);
    let tx = LegacyTransaction::try_from(data.as_slice()).unwrap();
    assert_eq!(tx.version, 3);
    assert_eq!(tx.lock_time, 9);
    let short: &[u8] = &[1, 2, 3];
    assert!(matches!(LegacyTransaction::try_from(short), Err(BitcoinError::InvalidTransaction)));
}

#[test]
fn serialize_writes_version_and_lock_time() {
    let tx = LegacyTransaction::builder().version(7).lock_time(42).build();
    assert_eq!(tx.serialize(), vec![0x07, 0x00, 0x00, 0x00, 0x2a, 0x00, 0x00, 0x00]);
}

#[test]
fn serialize_negative_version() {
    let tx = LegacyTransaction::builder().version(-1).lock_time(0x0102_0304).build();
    assert_eq!(tx.serialize(), vec![0xff, 0xff, 0xff, 0xff, 0x04, 0x03, 0x02, 0x01]);
}

#[test]
fn encoding_then_decoding_loses_the_transaction() {
    let tx = LegacyTransaction::builder()
        .version(2)
        .add_input(sample_input())
        .add_output(TxOutput { value: 5000, script_pubkey: vec![0x76, 0xa9] })
        .lock_time(11)
        .build();
    let bytes = tx.serialize();
    assert_eq!(bytes.len(), 8);
    assert_eq!(&bytes[0..4], &[2, 0, 0, 0]);
    assert_eq!(&bytes[4..8], &[11, 0, 0, 0]);
    assert!(matches!(
        LegacyTransaction::from_bytes(&bytes),
        Err(BitcoinError::InvalidTransaction)
    ));
}

#[test]
fn decoding_then_encoding_keeps_version_and_lock_time() {
    let data = header([0xfe, 0xff, 0xff, 0xff], [2, 0, 0, 0], [3, 0, 0, 0], [0x78, 0x56, 0x34, 0x12]);
    let tx = LegacyTransaction::try_from(data.as_slice()).unwrap();
    assert_eq!(tx.serialize(), vec![0xfe, 0xff, 0xff, 0xff, 0x78, 0x56, 0x34, 0x12]);
}
