//! Random bytes.

use vstd::prelude::*;

verus! {

/// `aws_lc_rs::error::Unspecified`, the error of the random number generator, which says nothing
/// about the cause.
#[verifier::external_type_specification]
#[verifier::external_body]
pub struct ExUnspecified(aws_lc_rs::error::Unspecified);

/// `aws_lc_rs::rand::fill` overwrites `dest` with random bytes.
///
/// Claims that there are as many bytes as before, and that no error is reported: one would come only
/// if `RAND_bytes` of AWS-LC returned anything but 1, and that function always returns 1. Where it
/// gets no random data it ends the process. Which bytes they are is not claimed.
pub assume_specification[ aws_lc_rs::rand::fill ](dest: &mut [u8]) -> (r: Result<
    (),
    aws_lc_rs::error::Unspecified,
>)
    ensures
        r is Ok,
        final(dest)@.len() == old(dest)@.len(),
;

/// Returns `len` random bytes. They can always be had.
pub fn random_bytes(len: usize) -> (r: Option<Vec<u8>>)
    ensures
        r matches Some(bytes) && bytes@.len() == len,
{
    let mut bytes: Vec<u8> = vec![0; len];
    match aws_lc_rs::rand::fill(bytes.as_mut_slice()) {
        Ok(()) => Some(bytes),
        Err(_) => None,
    }
}

} // verus!
