//! Decoding of external process output.

use vstd::prelude::*;
use vstd::string::StrSliceExecFns;

use crate::errors::ProcessError;
use crate::strutil::spec_trim_end;
use crate::strutil::trim_end_ws;

verus! {

#[verifier::external_type_specification]
#[verifier::external_body]
pub struct ExFromUtf8Error(std::string::FromUtf8Error);

/// `String::from_utf8` succeeds exactly on valid UTF-8 and decodes it.
pub assume_specification[ String::from_utf8 ](v: Vec<u8>) -> (r: Result<
    String,
    std::string::FromUtf8Error,
>)
    ensures
        r matches Ok(s) ==> vstd::utf8::valid_utf8(v@) && s@ == vstd::utf8::decode_utf8(v@),
        r is Err ==> !vstd::utf8::valid_utf8(v@),
;

/// Decodes captured process output as UTF-8 and removes trailing
/// whitespace; undecodable output is the decode failure carrying the
/// supplied context.
pub fn process_out(bytes: Vec<u8>, info: String) -> (r: Result<String, ProcessError>)
    ensures
        vstd::utf8::valid_utf8(bytes@) ==> (r matches Ok(s) && s@ == spec_trim_end(
            vstd::utf8::decode_utf8(bytes@),
        )),
        !vstd::utf8::valid_utf8(bytes@) ==> (r matches Err(ProcessError::Decode(m)) && m@
            == info@),
{
    match String::from_utf8(bytes) {
        Ok(s) => Ok(trim_end_ws(s.as_str())),
        Err(_) => Err(ProcessError::Decode(info)),
    }
}

} // verus!
