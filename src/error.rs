use vstd::prelude::*;
use vstd::string::StringExecFns;

verus! {

/// Declares `std::str::Utf8Error` so that an error can carry it.
#[verifier::external_type_specification]
#[verifier::external_body]
pub struct ExUtf8Error(std::str::Utf8Error);

/// All failures of this library.
#[derive(Debug)]
pub enum HwinfoError {
    /// The native library returned null where data was expected; holds the
    /// name of the operation that failed.
    DataUnavailable(String),
    /// Text handed over by the native library is not valid UTF-8.
    InvalidString(std::str::Utf8Error),
}

/// Result of every fallible operation of this library.
pub type Result<T> = std::result::Result<T, HwinfoError>;

/// The decimal digit `d`, for `0 <= d < 10`.
pub open spec fn digit_char(d: nat) -> char {
    seq!['0', '1', '2', '3', '4', '5', '6', '7', '8', '9'][d as int]
}

/// The decimal digits of `n`, most significant first, without leading zeros.
pub open spec fn decimal_digits(n: nat) -> Seq<char>
    decreases n,
{
    if n < 10 {
        seq![digit_char(n)]
    } else {
        decimal_digits(n / 10).push(digit_char(n % 10))
    }
}

/// `n` written in decimal, with a leading `-` when it is negative.
pub open spec fn decimal(n: int) -> Seq<char> {
    if n < 0 {
        seq!['-'] + decimal_digits((-n) as nat)
    } else {
        decimal_digits(n as nat)
    }
}

/// Relies on `i32`'s `to_string`: the number in decimal, with a `-` sign
/// when negative and no leading zeros.
#[verifier::external_body]
fn i32_to_decimal(n: i32) -> (r: String)
    ensures
        r@ == decimal(n as int),
{
    n.to_string()
}

/// Name of a per-CPU foreign operation, with the CPU it was asked about.
pub fn cpu_operation_name(operation: &str, cpu_id: i32) -> (r: String)
    ensures
        r@ == operation@ + " for cpu_id "@ + decimal(cpu_id as int),
{
    let name = operation.to_owned();
    let name = name.concat(" for cpu_id ");
    let id = i32_to_decimal(cpu_id);
    name.concat(id.as_str())
}

/// The failure of a foreign operation that returned null.
pub fn unavailable(operation: &str) -> (r: HwinfoError)
    ensures
        r matches HwinfoError::DataUnavailable(m) && m@ == operation@,
{
    HwinfoError::DataUnavailable(operation.to_owned())
}

impl HwinfoError {
    /// A human-readable description of the failure.
    pub fn message(&self) -> (r: String)
        ensures
            self matches HwinfoError::DataUnavailable(m) ==> r@
                == "Failed to retrieve hardware information: "@ + m@,
            self is InvalidString ==> exists|detail: Seq<char>|
                r@ == "String from C library is not valid UTF-8: "@ + detail,
    {
        match self {
            HwinfoError::DataUnavailable(m) => {
                "Failed to retrieve hardware information: ".to_owned().concat(m.as_str())
            },
            HwinfoError::InvalidString(e) => {
                let detail = e.to_string();
                "String from C library is not valid UTF-8: ".to_owned().concat(detail.as_str())
            },
        }
    }
}

} // verus!
