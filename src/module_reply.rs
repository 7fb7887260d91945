//! The reply to `BuildModule`: how the outcome of a compilation becomes a
//! response or a status.

use crate::status::{Code, Status};
use vstd::prelude::*;
use vstd::string::StringExecFns;

verus! {

/// The tag naming the encoding of a serialized module in its envelope.
pub const MODULE_TYPE_URL: &'static str = "type.skylift/skylift.SerializedModule";

/// The message prefix of a failed compilation.
pub const COMPILATION_FAILED: &'static str = "compilation failed ";

/// The message of a module whose function indices are not `0..n`.
pub const BAD_FUNCTION_INDEX: &'static str = "function indices are not contiguous";

/// The message of a module that does not parse.
pub const PARSE_FAILED: &'static str = "failed to parse WebAssembly module";

/// How the compilation of a module went wrong.
#[derive(Clone, Debug)]
pub enum BuildFailure {
    /// The bytes are not a valid WebAssembly module.
    Parse,
    /// The code generator or the packager failed; the first error observed.
    Compile(String),
    /// The code generator listed a module's functions with indices other
    /// than `0..n`, each once.
    BadFunctionIndex,
}

/// An opaque payload with a tag naming its encoding.
#[derive(Clone, Debug)]
pub struct Any {
    pub type_url: String,
    pub value: Vec<u8>,
}

/// Reply to a successful `BuildModule`.
#[derive(Clone, Debug)]
pub struct BuildModuleResponse {
    pub serialized_module: Option<Any>,
}

/// Turns the outcome of a compilation into the reply: the serialized module
/// in an envelope tagged with its encoding, an invalid-argument status for a module that does not
/// parse, and an internal status carrying the first error otherwise.
pub fn module_reply(outcome: Result<Vec<u8>, BuildFailure>) -> (r: Result<BuildModuleResponse, Status>)
    ensures
        outcome is Ok <==> r is Ok,
        outcome matches Ok(bytes) ==> (r matches Ok(resp) && resp.serialized_module matches Some(m)
            && m.value@ == bytes@ && m.type_url@ == MODULE_TYPE_URL@),
        outcome matches Err(BuildFailure::Parse) ==> (r matches Err(e) && e.code == Code::InvalidArgument
            && e.message@ == PARSE_FAILED@),
        outcome matches Err(BuildFailure::Compile(msg)) ==> (r matches Err(e) && e.code
            == Code::Internal && e.message@ == COMPILATION_FAILED@ + msg@),
        outcome matches Err(BuildFailure::BadFunctionIndex) ==> (r matches Err(e) && e.code
            == Code::Internal && e.message@ == COMPILATION_FAILED@ + BAD_FUNCTION_INDEX@),
{
    match outcome {
        Ok(bytes) => Ok(
            BuildModuleResponse {
                serialized_module: Some(Any { type_url: MODULE_TYPE_URL.to_string(), value: bytes }),
            },
        ),
        Err(BuildFailure::Parse) => Err(Status::invalid_argument(PARSE_FAILED)),
        Err(BuildFailure::Compile(msg)) => {
            let mut message = String::from_str(COMPILATION_FAILED);
            message.append(msg.as_str());
            Err(Status { code: Code::Internal, message })
        },
        Err(BuildFailure::BadFunctionIndex) => {
            let mut message = String::from_str(COMPILATION_FAILED);
            message.append(BAD_FUNCTION_INDEX);
            Err(Status { code: Code::Internal, message })
        },
    }
}

} // verus!
