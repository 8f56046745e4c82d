use vstd::prelude::*;

verus! {

/// Relies on String::push: appends the given character to the end of the
/// string.
pub assume_specification[ String::push ](s: &mut String, ch: char)
    ensures
        final(s)@ == old(s)@.push(ch),
;

/// Relies on String::push_str: appends the given string slice to the end of
/// the string.
pub assume_specification[ String::push_str ](s: &mut String, other: &str)
    ensures
        final(s)@ == old(s)@ + other@,
;

/// The character for one decimal digit.
pub open spec fn decimal_digit(d: nat) -> char {
    if d == 0 {
        '0'
    } else if d == 1 {
        '1'
    } else if d == 2 {
        '2'
    } else if d == 3 {
        '3'
    } else if d == 4 {
        '4'
    } else if d == 5 {
        '5'
    } else if d == 6 {
        '6'
    } else if d == 7 {
        '7'
    } else if d == 8 {
        '8'
    } else {
        '9'
    }
}

/// The decimal rendering of `n`, most significant digit first, with no
/// leading zeros (a single `'0'` for zero).
pub open spec fn decimal_rep(n: nat) -> Seq<char>
    decreases n,
{
    if n < 10 {
        seq![decimal_digit(n)]
    } else {
        decimal_rep(n / 10).push(decimal_digit(n % 10))
    }
}

/// The text reported when a buffer of length `actual` arrives where a buffer
/// of length `expected` is required; `prefix` names the buffer.
pub open spec fn mismatch_message(prefix: Seq<char>, expected: nat, actual: nat) -> Seq<char> {
    prefix + decimal_rep(expected) + ", got "@ + decimal_rep(actual)
}

/// Error raised when a caller-supplied buffer does not have the size the
/// transform was configured for, or when a transform length is invalid.
#[derive(Debug)]
pub struct FftError {
    desc: String,
}

impl View for FftError {
    type V = Seq<char>;

    closed spec fn view(&self) -> Seq<char> {
        self.desc@
    }
}

impl FftError {
    /// Wraps a human-readable description.
    pub fn new(desc: &str) -> (e: Self)
        ensures
            e@ == desc@,
    {
        FftError { desc: desc.to_owned() }
    }

    /// The description this error was created with.
    pub fn description(&self) -> (r: &str)
        ensures
            r@ == self@,
    {
        self.desc.as_str()
    }
}

fn digit_char(d: usize) -> (c: char)
    requires
        d < 10,
    ensures
        c == decimal_digit(d as nat),
{
    if d == 0 {
        '0'
    } else if d == 1 {
        '1'
    } else if d == 2 {
        '2'
    } else if d == 3 {
        '3'
    } else if d == 4 {
        '4'
    } else if d == 5 {
        '5'
    } else if d == 6 {
        '6'
    } else if d == 7 {
        '7'
    } else if d == 8 {
        '8'
    } else {
        '9'
    }
}

/// Renders `n` in decimal.
pub fn decimal_string(n: usize) -> (s: String)
    ensures
        s@ == decimal_rep(n as nat),
    decreases n,
{
    if n < 10 {
        let mut s = String::new();
        s.push(digit_char(n));
        proof {
            assert(s@ =~= seq![decimal_digit(n as nat)]);
        }
        s
    } else {
        let mut s = decimal_string(n / 10);
        s.push(digit_char(n % 10));
        s
    }
}

fn mismatch_error(prefix: &str, expected: usize, actual: usize) -> (e: FftError)
    ensures
        e@ == mismatch_message(prefix@, expected as nat, actual as nat),
{
    let mut s = prefix.to_owned();
    let exp = decimal_string(expected);
    s.push_str(exp.as_str());
    s.push_str(", got ");
    let act = decimal_string(actual);
    s.push_str(act.as_str());
    FftError { desc: s }
}

/// Accepts an input buffer length exactly when it matches the configured
/// one; otherwise reports both sizes.
pub fn check_input_length(expected: usize, actual: usize) -> (r: Result<(), FftError>)
    ensures
        r is Ok <==> actual == expected,
        r is Err ==> r->Err_0@ == mismatch_message(
            "Wrong length of input, expected "@,
            expected as nat,
            actual as nat,
        ),
{
    if actual == expected {
        Ok(())
    } else {
        Err(mismatch_error("Wrong length of input, expected ", expected, actual))
    }
}

/// Accepts an output buffer length exactly when it matches the configured
/// one; otherwise reports both sizes.
pub fn check_output_length(expected: usize, actual: usize) -> (r: Result<(), FftError>)
    ensures
        r is Ok <==> actual == expected,
        r is Err ==> r->Err_0@ == mismatch_message(
            "Wrong length of output, expected "@,
            expected as nat,
            actual as nat,
        ),
{
    if actual == expected {
        Ok(())
    } else {
        Err(mismatch_error("Wrong length of output, expected ", expected, actual))
    }
}

/// Accepts exactly the positive transform lengths.
pub fn check_transform_length(length: usize) -> (r: Result<(), FftError>)
    ensures
        r is Ok <==> length >= 1,
        r is Err ==> r->Err_0@ == "Transform length must be positive"@,
{
    if length >= 1 {
        Ok(())
    } else {
        Err(FftError::new("Transform length must be positive"))
    }
}

} // verus!
