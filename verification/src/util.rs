use vstd::prelude::*;
use crate::StrResult;

verus! {

/// The standard library's `std::io::Error`, the error of an I/O operation; it is carried
/// through unread.
#[verifier::external_type_specification]
#[verifier::external_body]
pub struct ExIoError(std::io::Error);

/// The result of an I/O operation, its error replaced by a fixed message.
pub fn handle_io<T>(result: std::io::Result<T>, message: &'static str) -> (r: StrResult<T>)
    ensures
        match result {
            Ok(v) => r == Ok::<T, &'static str>(v),
            Err(_) => r == Err::<T, &'static str>(message),
        },
{
    match result {
        Ok(v) => Ok(v),
        Err(_) => Err(message),
    }
}

} // verus!
