//! The single error kind of the library and its message formats.
use vstd::prelude::*;

verus! {

/// A failure, carrying a human-readable message.
#[derive(Debug)]
pub struct Error(pub String);

impl Error {
    /// The message of this error.
    pub open spec fn msg(&self) -> Seq<char> {
        self.0@
    }

    /// A copy of the message.
    pub fn message(&self) -> (r: String)
        ensures
            r@ == self.msg(),
    {
        self.0.clone()
    }
}

/// The character of a decimal digit.
pub open spec fn digit_char(d: nat) -> char {
    if d == 0 { '0' }
    else if d == 1 { '1' }
    else if d == 2 { '2' }
    else if d == 3 { '3' }
    else if d == 4 { '4' }
    else if d == 5 { '5' }
    else if d == 6 { '6' }
    else if d == 7 { '7' }
    else if d == 8 { '8' }
    else { '9' }
}

/// The decimal digits of a natural number, most significant first.
pub open spec fn decimal_digits(n: nat) -> Seq<char>
    decreases n,
{
    if n < 10 {
        seq![digit_char(n)]
    } else {
        decimal_digits(n / 10) + seq![digit_char(n % 10)]
    }
}

/// The decimal rendering of an integer, with a leading `-` when negative.
pub open spec fn decimal(v: int) -> Seq<char> {
    if v < 0 {
        seq!['-'] + decimal_digits((-v) as nat)
    } else {
        decimal_digits(v as nat)
    }
}

/// Relies on std's `Display` for `i128` (through `ToString`): plain decimal,
/// a leading `-` for negative values and no padding.
#[verifier::external_body]
fn decimal_string(v: i128) -> (r: String)
    ensures
        r@ == decimal(v as int),
{
    v.to_string()
}

/// The message of a failed native call: `"<operation> exit code:<code>"`.
pub open spec fn status_msg(op: Seq<char>, code: int) -> Seq<char> {
    op + " exit code:"@ + decimal(code)
}

/// Appends the decimal rendering of `v` to `s`.
pub fn push_decimal(s: &mut String, v: i128)
    ensures
        final(s)@ == old(s)@ + decimal(v as int),
{
    let d = decimal_string(v);
    s.append(d.as_str());
}

/// The error for a native call `op` that returned the nonzero status `code`.
pub fn status_error(op: &str, code: i32) -> (e: Error)
    ensures
        e.msg() == status_msg(op@, code as int),
{
    let mut s = String::from_str(op);
    s.append(" exit code:");
    push_decimal(&mut s, code as i128);
    Error(s)
}

/// Maps the integer status of a native call `op` to a result: zero is
/// success, anything else a failure that carries the status code.
pub fn check_status(op: &str, status: i32) -> (r: Result<(), Error>)
    ensures
        r is Ok <==> status == 0,
        r is Err ==> r->Err_0.msg() == status_msg(op@, status as int),
{
    if status == 0 {
        Ok(())
    } else {
        Err(status_error(op, status))
    }
}

} // verus!
