use vstd::prelude::*;
use vstd::string::StringExecFns;

use crate::error::{BitcoinError, BitcoinErrorView};

verus! {

/// A command given on the command line.
#[derive(Debug)]
pub enum CliCommand {
    /// Send `amount` satoshis to `address`.
    Send { amount: u64, address: String },
    /// Show the balance.
    Balance,
}

/// A command with its address as a sequence of characters.
pub enum CliCommandView {
    Send { amount: u64, address: Seq<char> },
    Balance,
}

impl View for CliCommand {
    type V = CliCommandView;

    open spec fn view(&self) -> CliCommandView {
        match self {
            CliCommand::Send { amount, address } => CliCommandView::Send {
                amount: *amount,
                address: address@,
            },
            CliCommand::Balance => CliCommandView::Balance,
        }
    }
}

/// A parse result with its strings as sequences of characters.
pub open spec fn outcome_view(r: Result<CliCommand, BitcoinError>) -> Result<
    CliCommandView,
    BitcoinErrorView,
> {
    match r {
        Ok(c) => Ok(c@),
        Err(e) => Err(e@),
    }
}

/// `c` is one of the ASCII digits `0` to `9`.
pub open spec fn is_decimal_digit(c: char) -> bool {
    '0' <= c <= '9'
}

/// The number that a string of decimal digits writes.
pub open spec fn digits_value(s: Seq<char>) -> nat
    decreases s.len(),
{
    if s.len() == 0 {
        0
    } else {
        digits_value(s.drop_last()) * 10 + (s.last() as int - '0' as int) as nat
    }
}

/// Every character of `s` is a decimal digit.
pub open spec fn all_decimal_digits(s: Seq<char>) -> bool {
    forall|i: int| 0 <= i < s.len() ==> is_decimal_digit(#[trigger] s[i])
}

/// `s` without a leading `+`, if it has one.
pub open spec fn without_plus(s: Seq<char>) -> Seq<char> {
    if s.len() > 0 && s[0] == '+' {
        s.drop_first()
    } else {
        s
    }
}

/// What `s` denotes as a `u64`: an optional `+`, then one or more decimal
/// digits and nothing else, of a value that fits in 64 bits.
pub open spec fn decimal_u64(s: Seq<char>) -> Option<u64> {
    let digits = without_plus(s);
    if digits.len() > 0 && all_decimal_digits(digits) && digits_value(digits) <= u64::MAX {
        Some(digits_value(digits) as u64)
    } else {
        None
    }
}

/// Relies on `u64`'s `FromStr` (`str::parse::<u64>`): it accepts exactly an
/// optional `+` followed by ASCII digits whose value fits in a `u64`.
#[verifier::external_body]
fn parse_u64(s: &str) -> (r: Option<u64>)
    ensures
        r == decimal_u64(s@),
{
    s.parse::<u64>().ok()
}

/// What the command line `args` asks for.
pub open spec fn cli_outcome(args: Seq<Seq<char>>) -> Result<CliCommandView, BitcoinErrorView> {
    if args.len() == 0 {
        Err(BitcoinErrorView::ParseError("No command provided"@))
    } else if args[0] == "send"@ {
        if args.len() < 3 {
            Err(BitcoinErrorView::ParseError("Send command requires amount and address"@))
        } else {
            match decimal_u64(args[1]) {
                Some(amount) => Ok(CliCommandView::Send { amount, address: args[2] }),
                None => Err(BitcoinErrorView::InvalidAmount),
            }
        }
    } else if args[0] == "balance"@ {
        Ok(CliCommandView::Balance)
    } else {
        Err(BitcoinErrorView::ParseError("Unknown command: "@ + args[0]))
    }
}

/// The arguments as sequences of characters.
pub open spec fn texts(args: Seq<String>) -> Seq<Seq<char>> {
    args.map_values(|a: String| a@)
}

/// Reads `send <amount> <address>` or `balance`.
pub fn parse_cli_args(args: &[String]) -> (r: Result<CliCommand, BitcoinError>)
    ensures
        outcome_view(r) == cli_outcome(texts(args@)),
{
    if args.len() == 0 {
        return Err(BitcoinError::ParseError(String::from_str("No command provided")));
    }
    let command: &String = &args[0];
    if *command == String::from_str("send") {
        if args.len() < 3 {
            return Err(
                BitcoinError::ParseError(
                    String::from_str("Send command requires amount and address"),
                ),
            );
        }
        let amount = match parse_u64(args[1].as_str()) {
            Some(a) => a,
            None => {
                return Err(BitcoinError::InvalidAmount);
            },
        };
        let address = args[2].clone();
        Ok(CliCommand::Send { amount, address })
    } else if *command == String::from_str("balance") {
        Ok(CliCommand::Balance)
    } else {
        Err(
            BitcoinError::ParseError(
                String::from_str("Unknown command: ").concat(command.as_str()),
            ),
        )
    }
}

} // verus!
