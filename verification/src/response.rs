//! The response record handed back for one compile request, and the
//! constructors for its three shapes: rejection of an empty source,
//! a successful build, and a failed or faulted build.

use vstd::prelude::*;
use crate::hexcodec::spec_hex_encode;

verus! {

/// What one compile request produced: either the three generated
/// artifacts (with an empty error), or an error text (with all three
/// artifact fields empty), plus the version string of the toolchain
/// that was used.
pub struct CompileResponse {
    pub abi: String,
    pub bytecode: String,
    pub storage_slots: String,
    pub error: String,
    pub forc_version: String,
}

/// Mathematical image of a response: the five fields as character
/// sequences.
pub struct ResponseModel {
    pub abi: Seq<char>,
    pub bytecode: Seq<char>,
    pub storage_slots: Seq<char>,
    pub error: Seq<char>,
    pub forc_version: Seq<char>,
}

impl View for CompileResponse {
    type V = ResponseModel;

    open spec fn view(&self) -> ResponseModel {
        ResponseModel {
            abi: self.abi@,
            bytecode: self.bytecode@,
            storage_slots: self.storage_slots@,
            error: self.error@,
            forc_version: self.forc_version@,
        }
    }
}

impl ResponseModel {
    /// No artifact was produced.
    pub open spec fn artifacts_empty(self) -> bool {
        self.abi.len() == 0 && self.bytecode.len() == 0 && self.storage_slots.len() == 0
    }

    /// The response reports a successful build: the artifacts as
    /// given, the binary artifact hex-encoded, no error.
    pub open spec fn is_success(
        self,
        abi: Seq<char>,
        bin: Seq<u8>,
        storage_slots: Seq<char>,
        version: Seq<char>,
    ) -> bool {
        &&& self.abi == abi
        &&& self.bytecode == spec_hex_encode(bin)
        &&& self.storage_slots == storage_slots
        &&& self.error.len() == 0
        &&& self.forc_version == version
    }

    /// The response reports a failure: no artifacts, the given error
    /// text, the given toolchain version.
    pub open spec fn is_failure(self, error: Seq<char>, version: Seq<char>) -> bool {
        &&& self.artifacts_empty()
        &&& self.error == error
        &&& self.forc_version == version
    }
}

/// A successful build with non-empty artifacts is reported with
/// non-empty interface-description and bytecode fields and an empty
/// error field.
pub proof fn lemma_success_nonempty(
    r: ResponseModel,
    abi: Seq<char>,
    bin: Seq<u8>,
    storage_slots: Seq<char>,
    version: Seq<char>,
)
    requires
        r.is_success(abi, bin, storage_slots, version),
        abi.len() > 0,
        bin.len() > 0,
    ensures
        r.abi.len() > 0,
        r.bytecode.len() > 0,
        r.error.len() == 0,
{
}

/// The error text for a request whose source string is empty.
pub fn no_contract_message() -> (r: &'static str)
    ensures
        r@ == spec_no_contract_message(),
{
    "No contract."
}

pub open spec fn spec_no_contract_message() -> Seq<char> {
    "No contract."@
}

/// The error text reported when the compiler's diagnostic output does
/// not contain the expected main-file marker.
pub fn unexpected_output_message() -> (r: &'static str)
    ensures
        r@ == spec_unexpected_output_message(),
{
    "Unexpected compiler output format."
}

pub open spec fn spec_unexpected_output_message() -> Seq<char> {
    "Unexpected compiler output format."@
}

/// The error text reported when an artifact file of a build that the
/// compiler reported as successful could not be read.
pub fn artifact_read_message() -> (r: &'static str)
    ensures
        r@ == spec_artifact_read_message(),
{
    "Artifact read failure."
}

pub open spec fn spec_artifact_read_message() -> Seq<char> {
    "Artifact read failure."@
}

/// The immediate answer to an empty source string: no artifacts, no
/// toolchain version, and exactly the error "No contract.".
pub fn empty_source_response() -> (r: CompileResponse)
    ensures
        r@.is_failure(spec_no_contract_message(), Seq::<char>::empty()),
        r@.forc_version.len() == 0,
{
    CompileResponse {
        abi: String::new(),
        bytecode: String::new(),
        storage_slots: String::new(),
        error: String::from_str(no_contract_message()),
        forc_version: String::new(),
    }
}

/// The answer for a successful build: the artifacts as read from the
/// scratch project, with the binary artifact hex-encoded, an empty
/// error, and the version of the toolchain that built.
pub fn success_response(
    abi: String,
    bin: &Vec<u8>,
    storage_slots: String,
    forc_version: String,
) -> (r: CompileResponse)
    ensures
        r@.is_success(abi@, bin@, storage_slots@, forc_version@),
{
    CompileResponse {
        abi,
        bytecode: crate::hexcodec::hex_encode(bin),
        storage_slots,
        error: String::new(),
        forc_version,
    }
}

/// The answer for a failed build: no artifacts, the given error text,
/// and the version of the toolchain that was asked to build.
pub fn failure_response(error: String, forc_version: String) -> (r: CompileResponse)
    ensures
        r@.is_failure(error@, forc_version@),
{
    CompileResponse {
        abi: String::new(),
        bytecode: String::new(),
        storage_slots: String::new(),
        error,
        forc_version,
    }
}

} // verus!
