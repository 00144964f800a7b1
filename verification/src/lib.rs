//! Publicly verifiable secret sharing for distributed key generation over
//! BLS12-381, with threshold public-key encryption against the aggregated key.
use vstd::prelude::*;
use vstd::string::StringExecFns;

pub mod bytes;
pub mod ciphertext;
pub mod combine;
pub mod curve;
pub mod decryption;
pub mod dkg;
pub mod poly;
pub mod pvss;
pub mod refresh;

verus! {

/// The recoverable failures of the library.
#[derive(Clone, Copy, PartialEq, Eq, Structural, Debug)]
pub enum Error {
    /// Fewer shares were produced than there are validators.
    InsufficientValidators(u32, u32),
    /// Two validators claim the same share index.
    DuplicatedShareIndex(u32),
    /// A share index lies outside the validator set.
    InvalidShareIndex(u32),
    /// Aggregation was asked of an empty list.
    NoTranscriptsToAggregate,
    /// The aggregate does not match the received transcripts.
    InvalidTranscriptAggregate,
    /// The ciphertext integrity check failed.
    CiphertextVerificationFailed,
    /// A decryption share failed verification.
    DecryptionShareVerificationFailed,
    /// The security threshold does not fit the number of shares.
    InvalidThreshold,
}

pub type Result<T> = core::result::Result<T, Error>;

/// The view of one decimal digit, as the matching one-character literal.
pub open spec fn digit_view(d: nat) -> Seq<char> {
    if d == 0 {
        "0"@
    } else if d == 1 {
        "1"@
    } else if d == 2 {
        "2"@
    } else if d == 3 {
        "3"@
    } else if d == 4 {
        "4"@
    } else if d == 5 {
        "5"@
    } else if d == 6 {
        "6"@
    } else if d == 7 {
        "7"@
    } else if d == 8 {
        "8"@
    } else {
        "9"@
    }
}

/// The decimal digits of `n`, most significant first.
pub open spec fn decimal_view(n: nat) -> Seq<char>
    decreases n,
{
    if n < 10 {
        digit_view(n)
    } else {
        decimal_view(n / 10) + digit_view(n % 10)
    }
}

/// The one-character string for a decimal digit.
fn digit_str(d: u32) -> (r: &'static str)
    requires
        d < 10,
    ensures
        r@ == digit_view(d as nat),
{
    match d {
        0 => "0",
        1 => "1",
        2 => "2",
        3 => "3",
        4 => "4",
        5 => "5",
        6 => "6",
        7 => "7",
        8 => "8",
        _ => "9",
    }
}

/// Writes `n` in decimal.
fn u32_to_decimal(n: u32) -> (r: String)
    ensures
        r@ == decimal_view(n as nat),
    decreases n,
{
    if n < 10 {
        <String as vstd::string::StringExecFns>::from_str(digit_str(n))
    } else {
        let mut s = u32_to_decimal(n / 10);
        s.append( digit_str(n % 10));
        s
    }
}

impl Error {
    /// The view of this error's description.
    pub open spec fn message_view(&self) -> Seq<char> {
        match *self {
            Error::InsufficientValidators(got, expected) => "Insufficient validators: "@
                + decimal_view(got as nat) + " of "@ + decimal_view(expected as nat),
            Error::DuplicatedShareIndex(idx) => "Duplicated share index: "@ + decimal_view(
                idx as nat,
            ),
            Error::InvalidShareIndex(idx) => "Invalid share index: "@ + decimal_view(idx as nat),
            Error::NoTranscriptsToAggregate => "No transcripts to aggregate"@,
            Error::InvalidTranscriptAggregate => "Transcript aggregate doesn't match the received PVSS instances"@,
            Error::CiphertextVerificationFailed => "Ciphertext verification failed"@,
            Error::DecryptionShareVerificationFailed => "Decryption share verification failed"@,
            Error::InvalidThreshold => "The security threshold does not fit the number of shares"@,
        }
    }

    /// This error's description.
    pub fn to_string(&self) -> (r: String)
        ensures
            r@ == self.message_view(),
    {
        match *self {
            Error::InsufficientValidators(got, expected) => {
                let mut s = <String as vstd::string::StringExecFns>::from_str("Insufficient validators: ");
                let got_str = u32_to_decimal(got);
                s.append( got_str.as_str());
                s.append( " of ");
                let expected_str = u32_to_decimal(expected);
                s.append( expected_str.as_str());
                s
            },
            Error::DuplicatedShareIndex(idx) => {
                let mut s = <String as vstd::string::StringExecFns>::from_str("Duplicated share index: ");
                let idx_str = u32_to_decimal(idx);
                s.append( idx_str.as_str());
                s
            },
            Error::InvalidShareIndex(idx) => {
                let mut s = <String as vstd::string::StringExecFns>::from_str("Invalid share index: ");
                let idx_str = u32_to_decimal(idx);
                s.append( idx_str.as_str());
                s
            },
            Error::NoTranscriptsToAggregate => <String as vstd::string::StringExecFns>::from_str(
                "No transcripts to aggregate",
            ),
            Error::InvalidTranscriptAggregate => <String as vstd::string::StringExecFns>::from_str(
                "Transcript aggregate doesn't match the received PVSS instances",
            ),
            Error::CiphertextVerificationFailed => <String as vstd::string::StringExecFns>::from_str(
                "Ciphertext verification failed",
            ),
            Error::DecryptionShareVerificationFailed => <String as vstd::string::StringExecFns>::from_str(
                "Decryption share verification failed",
            ),
            Error::InvalidThreshold => <String as vstd::string::StringExecFns>::from_str(
                "The security threshold does not fit the number of shares",
            ),
        }
    }
}

} // verus!
