//! The outcome of a compile or link: success, or the diagnostic the native
//! API logged.
use vstd::prelude::*;

verus! {

/// The text that a diagnostic log's bytes decode to, invalid UTF-8 replaced.
pub uninterp spec fn log_text(bytes: Seq<u8>) -> Seq<char>;

/// Relies on `String::from_utf8_lossy`: the text depends on the bytes alone,
/// is empty exactly when they are, and is what the log reads as.
#[verifier::external_body]
fn decode_log(bytes: &[u8]) -> (r: String)
    ensures
        r@ == log_text(bytes@),
        r@.len() == 0 <==> bytes@.len() == 0,
{
    String::from_utf8_lossy(bytes).into_owned()
}

/// Turns the success flag of a compile or link, and the log the native API
/// gives on failure, into a result: `Ok` on success, else the log's text.
pub fn check_status(success: bool, info_log: &[u8]) -> (r: Result<(), String>)
    ensures
        r is Ok <==> success,
        r matches Err(text) ==> text@ == log_text(info_log@),
        r matches Err(text) ==> (text@.len() > 0 <==> info_log@.len() > 0),
{
    if success {
        Ok(())
    } else {
        Err(decode_log(info_log))
    }
}

} // verus!
