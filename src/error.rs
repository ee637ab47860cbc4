use vstd::prelude::*;

verus! {

/// What can go wrong when decoding a transaction or parsing a command line.
#[derive(Debug)]
pub enum BitcoinError {
    /// The bytes are not a transaction (too short for the header).
    InvalidTransaction,
    /// A script is malformed.
    InvalidScript,
    /// An amount is not a decimal `u64`.
    InvalidAmount,
    /// The command line is malformed; the text says how.
    ParseError(String),
}

/// An error with its text as a sequence of characters.
pub enum BitcoinErrorView {
    InvalidTransaction,
    InvalidScript,
    InvalidAmount,
    ParseError(Seq<char>),
}

impl View for BitcoinError {
    type V = BitcoinErrorView;

    open spec fn view(&self) -> BitcoinErrorView {
        match self {
            BitcoinError::InvalidTransaction => BitcoinErrorView::InvalidTransaction,
            BitcoinError::InvalidScript => BitcoinErrorView::InvalidScript,
            BitcoinError::InvalidAmount => BitcoinErrorView::InvalidAmount,
            BitcoinError::ParseError(m) => BitcoinErrorView::ParseError(m@),
        }
    }
}

} // verus!
