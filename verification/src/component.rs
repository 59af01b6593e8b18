//! Bringing workload bytes into component form.
//!
//! A workload arrives either as a component or as a raw module. A raw module is
//! wrapped into a component by attaching the system-interface adapter under its
//! well-known slot; a component is passed on as it is.

use vstd::prelude::*;
use vstd::string::*;

verus! {

/// `anyhow::Error`: the cause of a failure in an outside crate, carried through unread.
#[verifier::external_type_specification]
#[verifier::external_body]
pub struct ExAnyhowError(anyhow::Error);

/// The eight bytes that every raw module starts with: the magic number, then
/// version 1 of layer 0.
pub open spec fn module_header() -> Seq<u8> {
    seq![0x00u8, 0x61u8, 0x73u8, 0x6du8, 0x01u8, 0x00u8, 0x00u8, 0x00u8]
}

/// The eight bytes that every component starts with: the magic number, then
/// version 13 of layer 1.
pub open spec fn component_header() -> Seq<u8> {
    seq![0x00u8, 0x61u8, 0x73u8, 0x6du8, 0x0du8, 0x00u8, 0x01u8, 0x00u8]
}

/// Whether `bytes` start with `header`.
pub open spec fn starts_with(bytes: Seq<u8>, header: Seq<u8>) -> bool {
    bytes.len() >= header.len() && bytes.subrange(0, header.len() as int) == header
}

/// Whether `bytes` look like a raw module.
pub open spec fn is_raw_module(bytes: Seq<u8>) -> bool {
    starts_with(bytes, module_header())
}

/// The name of the slot under which the system-interface adapter is attached.
pub open spec fn adapter_slot_text() -> Seq<char> {
    "wasi_snapshot_preview1"@
}

/// The step of the encoding at which a raw module was refused.
#[derive(Clone, Copy, Debug, PartialEq, Eq, Structural)]
pub enum AdaptStage {
    /// The bytes were not accepted as the module to wrap.
    Module,
    /// The adapter was not accepted.
    Adapter,
    /// Module and adapter could not be encoded and validated as one component.
    Encode,
}

/// What `wit_component::ComponentEncoder`, with validation switched on, makes
/// of a module and one adapter attached under `slot`: the bytes of the
/// component, or the step at which it gave up.
pub uninterp spec fn component_encoding(module: Seq<u8>, slot: Seq<char>, adapter: Seq<u8>) -> Result<
    Seq<u8>,
    AdaptStage,
>;

/// Why a raw module could not be brought into component form.
#[derive(Debug)]
pub enum AdaptError {
    /// The bytes were not accepted as the module to wrap.
    Module(anyhow::Error),
    /// The adapter was not accepted.
    Adapter(anyhow::Error),
    /// Module and adapter could not be encoded and validated as one component.
    Encode(anyhow::Error),
}

impl AdaptError {
    /// The step that failed.
    pub open spec fn stage(&self) -> AdaptStage {
        match self {
            AdaptError::Module(_) => AdaptStage::Module,
            AdaptError::Adapter(_) => AdaptStage::Adapter,
            AdaptError::Encode(_) => AdaptStage::Encode,
        }
    }

    /// The text of the message that reports this error.
    pub open spec fn message_text(&self) -> Seq<char> {
        match self {
            AdaptError::Module(_) => "failed to set core component module"@,
            AdaptError::Adapter(_) => "failed to add WASI adapter"@,
            AdaptError::Encode(_) => "failed to encode a component"@,
        }
    }

    /// The message that reports this error.
    pub fn message(&self) -> (message: String)
        ensures
            message@ == self.message_text(),
    {
        match self {
            AdaptError::Module(_) => String::from_str("failed to set core component module"),
            AdaptError::Adapter(_) => String::from_str("failed to add WASI adapter"),
            AdaptError::Encode(_) => String::from_str("failed to encode a component"),
        }
    }

    /// The cause that the encoder reported.
    pub open spec fn cause(&self) -> anyhow::Error {
        match self {
            AdaptError::Module(cause) => *cause,
            AdaptError::Adapter(cause) => *cause,
            AdaptError::Encode(cause) => *cause,
        }
    }

    /// Gives up the cause that the encoder reported.
    pub fn into_cause(self) -> (cause: anyhow::Error)
        ensures
            cause == self.cause(),
    {
        match self {
            AdaptError::Module(cause) => cause,
            AdaptError::Adapter(cause) => cause,
            AdaptError::Encode(cause) => cause,
        }
    }
}

/// What [`componentize`] makes of `wasm`: a raw module is encoded, anything
/// else is passed on.
pub open spec fn componentized(wasm: Seq<u8>, adapter: Seq<u8>) -> Result<Seq<u8>, AdaptStage> {
    if is_raw_module(wasm) {
        component_encoding(wasm, adapter_slot_text(), adapter)
    } else {
        Ok(wasm)
    }
}

/// Calls `wasmparser::Parser::is_core_wasm`, which compares the first eight
/// bytes with the header of a raw module.
#[verifier::external_body]
fn is_core_wasm(bytes: &[u8]) -> (answer: bool)
    ensures
        answer == is_raw_module(bytes@),
{
    wasmparser::Parser::is_core_wasm(bytes)
}

/// Reads `wasi_preview1_component_adapter_provider::WASI_SNAPSHOT_PREVIEW1_ADAPTER_NAME`.
#[verifier::external_body]
fn adapter_slot() -> (slot: &'static str)
    ensures
        slot@ == adapter_slot_text(),
{
    wasi_preview1_component_adapter_provider::WASI_SNAPSHOT_PREVIEW1_ADAPTER_NAME
}

/// Runs a `wit_component::ComponentEncoder` with validation on: `module`, then
/// `adapter` under `slot`, then `encode`. The contract names the outcome as
/// [`component_encoding`] of the three arguments, and claims of the bytes only
/// that they start with the header that the encoder writes first.
#[verifier::external_body]
fn encode_component(module: &[u8], slot: &str, adapter: &[u8]) -> (encoded: Result<
    Vec<u8>,
    AdaptError,
>)
    ensures
        match encoded {
            Ok(bytes) => component_encoding(module@, slot@, adapter@) == Ok::<
                Seq<u8>,
                AdaptStage,
            >(bytes@) && starts_with(bytes@, component_header()),
            Err(error) => component_encoding(module@, slot@, adapter@) == Err::<
                Seq<u8>,
                AdaptStage,
            >(error.stage()),
        },
{
    let mut encoder = wit_component::ComponentEncoder::default();
    encoder.validate(true);
    if let Err(cause) = encoder.module(module) {
        return Err(AdaptError::Module(cause));
    }
    if let Err(cause) = encoder.adapter(slot, adapter) {
        return Err(AdaptError::Adapter(cause));
    }
    encoder.encode().map_err(AdaptError::Encode)
}

/// The two headers differ, so nothing starts with both.
pub proof fn lemma_component_is_no_raw_module(bytes: Seq<u8>)
    requires
        starts_with(bytes, component_header()),
    ensures
        !is_raw_module(bytes),
{
    if is_raw_module(bytes) {
        assert(bytes.subrange(0, 8)[4] == module_header()[4]);
        assert(bytes.subrange(0, 8)[4] == component_header()[4]);
    }
}

/// Brings `wasm` into component form.
///
/// Bytes that do not start as a raw module are returned unchanged. A raw module
/// is encoded with `adapter` attached under the adapter slot, and the call
/// succeeds exactly where the encoder does. What is returned is never a raw
/// module, so a second call would return it unchanged.
pub fn componentize(wasm: Vec<u8>, adapter: &[u8]) -> (outcome: Result<Vec<u8>, AdaptError>)
    ensures
        match outcome {
            Ok(bytes) => componentized(wasm@, adapter@) == Ok::<Seq<u8>, AdaptStage>(bytes@),
            Err(error) => componentized(wasm@, adapter@) == Err::<Seq<u8>, AdaptStage>(
                error.stage(),
            ),
        },
        !is_raw_module(wasm@) ==> outcome == Ok::<Vec<u8>, AdaptError>(wasm),
        outcome matches Ok(bytes) ==> !is_raw_module(bytes@) && componentized(bytes@, adapter@)
            == Ok::<Seq<u8>, AdaptStage>(bytes@),
{
    if is_core_wasm(wasm.as_slice()) {
        let encoded = encode_component(wasm.as_slice(), adapter_slot(), adapter);
        proof {
            if encoded is Ok {
                lemma_component_is_no_raw_module(encoded->Ok_0@);
            }
        }
        encoded
    } else {
        Ok(wasm)
    }
}

/// Bytes already in component form pass through unchanged, whatever the adapter.
pub proof fn law_component_passes_unchanged(wasm: Seq<u8>, adapter: Seq<u8>)
    requires
        !is_raw_module(wasm),
    ensures
        componentized(wasm, adapter) == Ok::<Seq<u8>, AdaptStage>(wasm),
{
}

} // verus!
