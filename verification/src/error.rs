//! Errors of the binding and the mapping from what the C layer reports.

use vstd::prelude::*;
use vstd::string::StringExecFns;
use vstd::std_specs::convert::FromSpecImpl;

verus! {

/// Status code the CGNS C library returns on success.
pub const CG_OK: i32 = 0;

/// Errors reported by the binding.
#[derive(Debug, Clone)]
pub enum CgnsError {
    /// The C library reported a failure with this status code
    /// (`-1` when only a message was available).
    CgnsCode(i32),
    /// Data read from a file could not be interpreted.
    Invalid(String),
    /// A node with the requested name does not exist.
    NotFound(String),
    /// An input/output problem outside the C library.
    Io(String),
}

/// Result type of the binding.
pub type CgnsResult<T> = Result<T, CgnsError>;

impl From<String> for CgnsError {
    /// A failure message from the C layer becomes status code `-1`; the
    /// message itself is not kept.
    fn from(msg: String) -> (e: CgnsError) {
        CgnsError::CgnsCode(-1)
    }
}

impl FromSpecImpl<String> for CgnsError {
    open spec fn obeys_from_spec() -> bool {
        true
    }

    open spec fn from_spec(msg: String) -> CgnsError {
        CgnsError::CgnsCode(-1i32)
    }
}

/// What [`from_sys_result`] makes of a result of the C layer.
pub open spec fn sys_result<T>(r: Result<T, String>) -> CgnsResult<T> {
    match r {
        Ok(v) => Ok(v),
        Err(_) => Err(CgnsError::CgnsCode(-1i32)),
    }
}

/// Map a result of the C layer, whose failures carry only a message, to a
/// [`CgnsResult`]: a failure becomes `CgnsCode(-1)`.
pub fn from_sys_result<T>(r: Result<T, String>) -> (res: CgnsResult<T>)
    ensures
        res == sys_result(r),
{
    match r {
        Ok(v) => Ok(v),
        Err(_) => Err(CgnsError::CgnsCode(-1)),
    }
}

/// What [`check_sys_status`] makes of a status code.
pub open spec fn sys_status(status: i32) -> CgnsResult<()> {
    if status == CG_OK {
        Ok(())
    } else {
        Err(CgnsError::CgnsCode(status))
    }
}

/// Status 0 is the only success; every other status is reported as an
/// error carrying that very status.
pub proof fn lemma_status_mapping(status: i32)
    ensures
        sys_status(status) is Ok <==> status == 0,
        status != 0 ==> sys_status(status) == Err::<(), CgnsError>(CgnsError::CgnsCode(status)),
{
}

/// Map a status code returned by the C library to a [`CgnsResult`]:
/// `CG_OK` is success, every other code is kept in `CgnsCode`.
pub fn check_sys_status(status: i32) -> (res: CgnsResult<()>)
    ensures
        res == sys_status(status),
{
    if status == CG_OK {
        Ok(())
    } else {
        Err(CgnsError::CgnsCode(status))
    }
}

/// The decimal digits of a natural number.
pub open spec fn decimal_digits(n: nat) -> Seq<char>
    decreases n,
{
    if n < 10 {
        seq![digit_char(n)]
    } else {
        decimal_digits(n / 10).push(digit_char(n % 10))
    }
}

/// The character of a decimal digit.
pub open spec fn digit_char(d: nat) -> char {
    if d == 0 { '0' }
    else if d == 1 { '1' }
    else if d == 2 { '2' }
    else if d == 3 { '3' }
    else if d == 4 { '4' }
    else if d == 5 { '5' }
    else if d == 6 { '6' }
    else if d == 7 { '7' }
    else if d == 8 { '8' }
    else { '9' }
}

/// The decimal text of an integer, with a leading `-` when negative.
pub open spec fn decimal_text(i: int) -> Seq<char> {
    if i < 0 {
        seq!['-'] + decimal_digits((-i) as nat)
    } else {
        decimal_digits(i as nat)
    }
}

/// The number a decimal digit character stands for: its distance from `'0'`.
pub open spec fn digit_value(c: char) -> int {
    (c as int) - ('0' as int)
}

/// The number a sequence of decimal digit characters stands for, most
/// significant digit first.
pub open spec fn digits_value(s: Seq<char>) -> int
    decreases s.len(),
{
    if s.len() == 0 {
        0
    } else {
        digits_value(s.drop_last()) * 10 + digit_value(s.last())
    }
}

/// The decimal digits of `n` are characters `'0'` to `'9'` that read back as
/// `n`, with no leading zero (a lone `"0"` for zero).
pub proof fn lemma_decimal_digits_read_back(n: nat)
    ensures
        decimal_digits(n).len() >= 1,
        forall|i: int|
            0 <= i < decimal_digits(n).len() ==> '0' <= #[trigger] decimal_digits(n)[i] <= '9',
        digits_value(decimal_digits(n)) == n,
        n > 0 ==> decimal_digits(n)[0] != '0',
    decreases n,
{
    if n < 10 {
        lemma_digit_char_value(n);
        assert(decimal_digits(n) =~= seq![digit_char(n)]);
        assert(decimal_digits(n).drop_last() =~= Seq::<char>::empty());
        assert(digits_value(Seq::<char>::empty()) == 0);
    } else {
        let q = n / 10;
        let r = n % 10;
        vstd::arithmetic::div_mod::lemma_fundamental_div_mod(n as int, 10);
        lemma_digit_char_value(r);
        lemma_decimal_digits_read_back(q);
        let s = decimal_digits(q).push(digit_char(r));
        assert(decimal_digits(n) == s);
        assert(s.drop_last() =~= decimal_digits(q));
        assert forall|i: int| 0 <= i < s.len() implies '0' <= #[trigger] s[i] <= '9' by {
            if i < s.len() - 1 {
                assert(s[i] == decimal_digits(q)[i]);
            }
        }
        assert(s[0] == decimal_digits(q)[0]);
        assert(s.last() == digit_char(r));
        assert(n == q * 10 + r);
    }
}

/// Each digit below ten is written as the character that stands for it.
proof fn lemma_digit_char_value(d: nat)
    requires
        d < 10,
    ensures
        digit_value(digit_char(d)) == d,
        '0' <= digit_char(d) <= '9',
        d > 0 ==> digit_char(d) != '0',
{
}

/// `i32::to_string`: the decimal text of the value, as its `Display`
/// implementation documents it.
#[verifier::external_body]
fn i32_decimal(x: i32) -> (s: String)
    ensures
        s@ == decimal_text(x as int),
{
    x.to_string()
}

/// The text of an error, given the message the C library holds for its
/// last failure (used only for `CgnsCode`).
pub open spec fn error_text(e: CgnsError, library_message: Seq<char>) -> Seq<char> {
    match e {
        CgnsError::CgnsCode(code) => "CGNS error (code "@ + decimal_text(code as int) + "): "@
            + library_message,
        CgnsError::Invalid(msg) => "invalid: "@ + msg@,
        CgnsError::NotFound(msg) => "not found: "@ + msg@,
        CgnsError::Io(msg) => "I/O: "@ + msg@,
    }
}

impl CgnsError {
    /// Human-readable text of the error.  `library_message` is the message
    /// the C library holds for its most recent failure; it is shown for
    /// `CgnsCode` errors.
    pub fn message(&self, library_message: &str) -> (s: String)
        ensures
            s@ == error_text(*self, library_message@),
    {
        match self {
            CgnsError::CgnsCode(code) => {
                let mut s = String::from_str("CGNS error (code ");
                let digits = i32_decimal(*code);
                s.append(digits.as_str());
                s.append("): ");
                s.append(library_message);
                s
            },
            CgnsError::Invalid(msg) => {
                let s = String::from_str("invalid: ");
                s.concat(msg.as_str())
            },
            CgnsError::NotFound(msg) => {
                let s = String::from_str("not found: ");
                s.concat(msg.as_str())
            },
            CgnsError::Io(msg) => {
                let s = String::from_str("I/O: ");
                s.concat(msg.as_str())
            },
        }
    }
}

} // verus!
