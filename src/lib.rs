//! Legacy transaction records: a builder, a header codec, and a small
//! command-line argument parser.
pub mod cli;
pub mod codec;
pub mod error;
pub mod point;
pub mod transaction;

pub use cli::{parse_cli_args, CliCommand};
pub use codec::BitcoinSerialize;
pub use error::BitcoinError;
pub use point::Point;
pub use transaction::{LegacyTransaction, LegacyTransactionBuilder, OutPoint, TxInput, TxOutput};
