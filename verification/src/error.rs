//! The reasons for which the relay turns a request down, and the text and
//! JSON-RPC error that each is reported with.

use vstd::prelude::*;
use vstd::string::*;

verus! {

/// Why a sponsored transaction was not sent.
#[derive(Debug, Clone, PartialEq, Eq)]
pub enum TraverseWalletError {
    /// The transaction value is not 0.
    ///
    /// The value should be 0 to prevent draining the service.
    ValueNotZero,
    /// The from field is set on the transaction.
    ///
    /// Requests with the from field are rejected, since it is implied that it
    /// will always be the service.
    FromSet,
    /// The nonce field is set on the transaction.
    ///
    /// Requests with the nonce field set are rejected, as this is managed by
    /// the service.
    NonceSet,
    /// The to field of the transaction was invalid.
    ///
    /// The destination is invalid if the request creates a contract, if there
    /// is no bytecode at the destination, or if the bytecode is not a
    /// delegation designator with a delegate other than the zero address.
    IllegalDestination,
    /// The transaction request was invalid.
    InvalidTransactionRequest,
    /// The request was estimated to consume too much gas.
    ///
    /// The gas usage by each request is limited to counteract draining the
    /// service's funds.
    GasEstimateTooHigh {
        /// The amount of gas the request was estimated to consume.
        estimate: u64,
    },
    /// A backend operation failed; the text is the backend's report.
    InternalError(String),
}

/// The JSON-RPC error code for invalid method parameters.
pub const INVALID_PARAMS_CODE: i32 = -32602;

/// The character for one decimal digit.
pub open spec fn digit_char(digit: nat) -> char {
    if digit == 0 {
        '0'
    } else if digit == 1 {
        '1'
    } else if digit == 2 {
        '2'
    } else if digit == 3 {
        '3'
    } else if digit == 4 {
        '4'
    } else if digit == 5 {
        '5'
    } else if digit == 6 {
        '6'
    } else if digit == 7 {
        '7'
    } else if digit == 8 {
        '8'
    } else {
        '9'
    }
}

/// A number written in decimal, without leading zeros.
pub open spec fn decimal(n: nat) -> Seq<char>
    decreases n,
{
    if n < 10 {
        seq![digit_char(n)]
    } else {
        decimal(n / 10).push(digit_char(n % 10))
    }
}

fn digit_text(digit: u64) -> (text: &'static str)
    requires
        digit < 10,
    ensures
        text@ == seq![digit_char(digit as nat)],
{
    proof {
        reveal_strlit("0");
        reveal_strlit("1");
        reveal_strlit("2");
        reveal_strlit("3");
        reveal_strlit("4");
        reveal_strlit("5");
        reveal_strlit("6");
        reveal_strlit("7");
        reveal_strlit("8");
        reveal_strlit("9");
    }
    let text = if digit == 0 {
        "0"
    } else if digit == 1 {
        "1"
    } else if digit == 2 {
        "2"
    } else if digit == 3 {
        "3"
    } else if digit == 4 {
        "4"
    } else if digit == 5 {
        "5"
    } else if digit == 6 {
        "6"
    } else if digit == 7 {
        "7"
    } else if digit == 8 {
        "8"
    } else {
        "9"
    };
    assert(text@ =~= seq![digit_char(digit as nat)]);
    text
}

/// Appends a number in decimal to a text.
pub fn append_decimal(text: &mut String, n: u64)
    ensures
        final(text)@ == old(text)@ + decimal(n as nat),
    decreases n,
{
    if n >= 10 {
        append_decimal(text, n / 10);
    }
    text.append(digit_text(n % 10));
    assert(text@ =~= old(text)@ + decimal(n as nat));
}

/// A JSON-RPC error: a code and a text for the caller.
#[derive(Debug, Clone, PartialEq, Eq)]
pub struct ErrorObject {
    /// The JSON-RPC error code.
    pub code: i32,
    /// What went wrong, for the caller to read.
    pub message: String,
}

impl TraverseWalletError {
    /// The text that the error is reported with.
    pub open spec fn message_text(&self) -> Seq<char> {
        match self {
            TraverseWalletError::ValueNotZero => "tx value not zero"@,
            TraverseWalletError::FromSet => "tx from field is set"@,
            TraverseWalletError::NonceSet => "tx nonce is set"@,
            TraverseWalletError::IllegalDestination => "the destination of the transaction is not a delegated account"@,
            TraverseWalletError::InvalidTransactionRequest => "invalid tx request"@,
            TraverseWalletError::GasEstimateTooHigh { estimate } => {
                "request would use too much gas: estimated "@ + decimal(*estimate as nat)
            },
            TraverseWalletError::InternalError(report) => report@,
        }
    }

    /// The text that the error is reported with.
    pub fn message(&self) -> (text: String)
        ensures
            text@ == self.message_text(),
    {
        match self {
            TraverseWalletError::ValueNotZero => String::from_str("tx value not zero"),
            TraverseWalletError::FromSet => String::from_str("tx from field is set"),
            TraverseWalletError::NonceSet => String::from_str("tx nonce is set"),
            TraverseWalletError::IllegalDestination => String::from_str(
                "the destination of the transaction is not a delegated account",
            ),
            TraverseWalletError::InvalidTransactionRequest => String::from_str(
                "invalid tx request",
            ),
            TraverseWalletError::GasEstimateTooHigh { estimate } => {
                let mut text = String::from_str("request would use too much gas: estimated ");
                append_decimal(&mut text, *estimate);
                text
            },
            TraverseWalletError::InternalError(report) => report.clone(),
        }
    }

    /// The JSON-RPC error that the caller receives: every rejection is
    /// reported as invalid parameters, with the error's text.
    pub fn to_error_object(&self) -> (object: ErrorObject)
        ensures
            object.code == INVALID_PARAMS_CODE,
            object.message@ == self.message_text(),
    {
        ErrorObject { code: INVALID_PARAMS_CODE, message: self.message() }
    }
}

} // verus!
