use vstd::prelude::*;

verus! {

/// An error in the command-line arguments, with the message shown to the user.
pub struct ArgParseError {
    pub message: String,
}

impl ArgParseError {
    pub fn new(message: String) -> (r: ArgParseError)
        ensures
            r.message@ == message@,
    {
        ArgParseError { message }
    }
}

/// Whether `c` is a decimal digit.
pub open spec fn is_digit(c: char) -> bool {
    '0' <= c <= '9'
}

/// The number that a string of decimal digits stands for.
pub open spec fn digits_value(s: Seq<char>) -> int
    decreases s.len(),
{
    if s.len() == 0 {
        0
    } else {
        digits_value(s.drop_last()) * 10 + (s.last() as int - '0' as int)
    }
}

/// The `u32` that a string stands for when parsed as one: an optional `+` followed by at
/// least one decimal digit and nothing else, of a value that fits; `None` otherwise.
pub open spec fn decimal_u32(s: Seq<char>) -> Option<u32> {
    let t = if s.len() > 0 && s[0] == '+' { s.drop_first() } else { s };
    if t.len() > 0 && (forall|i: int| 0 <= i < t.len() ==> is_digit(#[trigger] t[i])) && digits_value(t)
        <= u32::MAX {
        Some(digits_value(t) as u32)
    } else {
        None
    }
}

/// The text of the standard library's error for a string that does not parse as a `u32`:
/// a function of the string alone, whose wording the documentation does not give.
pub uninterp spec fn parse_u32_error(s: Seq<char>) -> Seq<char>;

/// Parses a `u32` with the standard library's `str::parse`: as `decimal_u32` says; on
/// failure the error's text, named `parse_u32_error` of the argument.
#[verifier::external_body]
fn parse_u32(arg: &str) -> (r: Result<u32, String>)
    ensures
        r is Ok <==> decimal_u32(arg@) is Some,
        r matches Ok(v) ==> decimal_u32(arg@) == Some(v),
        r matches Err(e) ==> e@ == parse_u32_error(arg@),
{
    arg.parse::<u32>().map_err(|e| e.to_string())
}

/// The display scale given on the command line: a number from 1 to 8.
pub fn parse_scale_var(arg: &str) -> (r: Result<u32, ArgParseError>)
    ensures
        decimal_u32(arg@) is None ==> (r matches Err(e) && e.message@ == "Could not parse scale: "@ + parse_u32_error(
            arg@,
        )),
        decimal_u32(arg@) == Some(0u32) ==> (r matches Err(e) && e.message@ == "Scale must be at least 1"@),
        decimal_u32(arg@) matches Some(s) ==> (s > 8 ==> (r matches Err(e) && e.message@
            == "Scale may be at most 8"@)),
        decimal_u32(arg@) matches Some(s) ==> (1 <= s <= 8 ==> r == Ok::<u32, ArgParseError>(s)),
{
    match parse_u32(arg) {
        Err(e) => {
            let mut message = "Could not parse scale: ".to_owned();
            message.append(e.as_str());
            Err(ArgParseError::new(message))
        },
        Ok(s) => {
            if s < 1 {
                Err(ArgParseError::new("Scale must be at least 1".to_owned()))
            } else if s > 8 {
                Err(ArgParseError::new("Scale may be at most 8".to_owned()))
            } else {
                Ok(s)
            }
        },
    }
}

} // verus!
