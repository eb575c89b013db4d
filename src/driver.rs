//! The steps of one guest call that the host decides: loading the bytecode,
//! staging the input in the guest's page, and turning the word the guest
//! returned into the call's outcome.
//!
//! Binding the capability table, instantiating the module and invoking the
//! export run in the interpreter between these steps; the caller hands
//! their results back as plain values.
use vstd::prelude::*;
use vstd::utf8::{decode_utf8, valid_utf8};

use crate::allocation::{from_encoded_spec, AllocationDescriptor, DecodeError};
use crate::encoding::{
    decode, decode_spec, encode, encode_spec, lemma_decode_encode, EncodedResult,
};
use crate::memory::{bytes_at, AllocError, SinglePageManager, PAGE_SIZE};

verus! {

#[verifier::external_type_specification]
#[verifier::external_body]
pub struct ExModule(wasmi::Module);

#[verifier::external_type_specification]
#[verifier::external_body]
pub struct ExInterpreterError(wasmi::Error);

#[verifier::external_type_specification]
#[verifier::external_body]
pub struct ExFromUtf8Error(std::string::FromUtf8Error);

/// Whether the interpreter accepts `bytes` as a structurally valid module.
pub uninterp spec fn module_loads(bytes: Seq<u8>) -> bool;

/// Relies on `wasmi::Module::from_buffer`: it deserializes and validates the
/// bytes, so whether it succeeds depends on the bytes alone.
#[verifier::external_body]
fn parse_module(wasm: Vec<u8>) -> (r: Result<wasmi::Module, wasmi::Error>)
    ensures
        r is Ok == module_loads(wasm@),
{
    wasmi::Module::from_buffer(wasm)
}

/// Relies on `String::from_utf8`: it succeeds exactly on well-formed UTF-8
/// and then holds the characters that the bytes encode.
#[verifier::external_body]
fn text_from_utf8(bytes: Vec<u8>) -> (r: Result<String, std::string::FromUtf8Error>)
    ensures
        r is Ok <==> valid_utf8(bytes@),
        r matches Ok(s) ==> s@ == decode_utf8(bytes@),
{
    String::from_utf8(bytes)
}

/// The structured value of a successful call, as JSON text.
#[derive(Clone, Debug, PartialEq, Eq)]
pub struct JsonText {
    pub text: String,
}

impl JsonText {
    /// The null value, the outcome of a call that returned `Success`.
    pub fn null() -> (j: JsonText)
        ensures
            j.text@ == "null"@,
    {
        JsonText { text: "null".to_owned() }
    }

    /// The text.
    pub fn as_str(&self) -> (r: &str)
        ensures
            r@ == self.text@,
    {
        self.text.as_str()
    }
}

/// Why a call did not produce a value.
#[derive(Clone, Debug, PartialEq, Eq)]
pub enum CallError {
    /// The bytecode is not a structurally valid module.
    Load(String),
    /// An import could not be bound, or the start routine trapped.
    Instantiation(String),
    /// The input could not be written into the guest's page.
    Alloc(AllocError),
    /// The export is missing, has the wrong signature, or trapped.
    Invocation(String),
    /// The returned word names no readable payload.
    AllocationDecode(DecodeError),
    /// The returned payload is not valid UTF-8 text.
    TextDecode(String),
    /// The guest signalled failure with this code.
    CapabilityFailure(u32),
}

/// What the interpreter reported for the call of the export.
#[derive(Clone, Debug, PartialEq, Eq)]
pub enum InvokeOutcome {
    /// The export returned this 64-bit integer.
    Returned(i64),
    /// The export returned no value.
    ReturnedNothing,
    /// The export returned a value of another type.
    ReturnedOtherType,
    /// The export could not be called or trapped, with the interpreter's
    /// message.
    Trapped(String),
}

/// Loads the bytecode of a module.
pub fn load_module(wasm: Vec<u8>) -> (r: Result<wasmi::Module, CallError>)
    ensures
        r is Ok == module_loads(wasm@),
        r matches Err(e) ==> e is Load,
{
    match parse_module(wasm) {
        Ok(m) => Ok(m),
        Err(e) => Err(CallError::Load(e.to_string())),
    }
}

/// The argument word for a staged input. An empty input allocates nothing
/// and is passed as the `Success` word: guests read that word as "no input",
/// so this reuse of the tag is deliberate and not a masked error.
pub fn input_word(staged: Result<AllocationDescriptor, AllocError>) -> (r: Result<u64, CallError>)
    requires
        staged matches Ok(d) ==> d.length != 0,
    ensures
        match staged {
            Ok(d) => r == Ok::<u64, CallError>(encode_spec_data(d)),
            Err(AllocError::ZeroLength) => r == Ok::<u64, CallError>(0u64),
            Err(e) => r == Err::<u64, CallError>(CallError::Alloc(e)),
        },
        r matches Ok(w) ==> decode_spec(w) == match staged {
            Ok(d) => EncodedResult::DataAt(d),
            _ => EncodedResult::Success,
        },
{
    match staged {
        Ok(d) => Ok(encode(d.to_encoded())),
        Err(AllocError::ZeroLength) => Ok(encode(EncodedResult::Success)),
        Err(e) => Err(CallError::Alloc(e)),
    }
}

/// The word that carries a payload at `d`.
pub open spec fn encode_spec_data(d: AllocationDescriptor) -> u64 {
    encode_spec(EncodedResult::DataAt(d))
}

/// The outcome of a call whose export returned `word`, read against `page`:
/// `Ok(Some(chars))` for a value with that text, `Ok(None)` for a value that
/// is not UTF-8 text, or the error.
pub open spec fn returned_text(page: Seq<u8>, word: u64) -> Result<Option<Seq<char>>, CallError> {
    match decode_spec(word) {
        EncodedResult::Success => Ok(Some("null"@)),
        EncodedResult::Failure(code) => Err(CallError::CapabilityFailure(code)),
        EncodedResult::DataAt(d) => match from_encoded_spec(
            EncodedResult::DataAt(d),
            PAGE_SIZE as nat,
        ) {
            Err(e) => Err(CallError::AllocationDecode(e)),
            Ok(d) => {
                let b = bytes_at(page, d)->Some_0;
                if valid_utf8(b) {
                    Ok(Some(decode_utf8(b)))
                } else {
                    Ok(None)
                }
            },
        },
    }
}

/// Whether `r` is the outcome that `returned_text` describes.
pub open spec fn outcome_matches(
    r: Result<JsonText, CallError>,
    expected: Result<Option<Seq<char>>, CallError>,
) -> bool {
    match expected {
        Ok(Some(t)) => r matches Ok(j) && j.text@ == t,
        Ok(None) => r matches Err(CallError::TextDecode(_)),
        Err(e) => r == Err::<JsonText, CallError>(e),
    }
}

/// A returned descriptor that reaches past the end of the page is an
/// allocation decode error, whatever the page holds.
pub proof fn lemma_out_of_bounds_descriptor(page: Seq<u8>, d: AllocationDescriptor)
    requires
        d.length != 0,
        !d.within(PAGE_SIZE as nat),
    ensures
        returned_text(page, encode_spec_data(d)) == Err::<Option<Seq<char>>, CallError>(
            CallError::AllocationDecode(DecodeError::OutOfBounds),
        ),
{
    lemma_decode_encode(EncodedResult::DataAt(d));
}

/// A returned descriptor inside the page whose bytes are not well-formed
/// UTF-8 is a text decode error.
pub proof fn lemma_invalid_text_payload(page: Seq<u8>, d: AllocationDescriptor)
    requires
        page.len() == PAGE_SIZE,
        d.length != 0,
        d.within(PAGE_SIZE as nat),
        !valid_utf8(page.subrange(d.offset as int, d.end() as int)),
    ensures
        returned_text(page, encode_spec_data(d)) == Ok::<Option<Seq<char>>, CallError>(None),
        forall|r: Result<JsonText, CallError>|
            outcome_matches(r, returned_text(page, encode_spec_data(d))) ==> (r matches Err(
                CallError::TextDecode(_),
            )),
{
    lemma_decode_encode(EncodedResult::DataAt(d));
}

/// The state of one call that the host keeps and the guest does not see:
/// the name of the export and the manager of the guest's page.
pub struct CallContext {
    pub fn_name: String,
    pub memory: SinglePageManager,
}

impl CallContext {
    /// A context for calling `fn_name` with `memory` over the guest's page.
    pub fn new(fn_name: String, memory: SinglePageManager) -> (c: CallContext)
        ensures
            c.fn_name == fn_name,
            c.memory == memory,
    {
        CallContext { fn_name, memory }
    }

    /// Writes the call's input into the guest's page and returns the
    /// argument word for the export.
    pub fn stage_input(&mut self, input: Option<Vec<u8>>) -> (r: Result<u64, CallError>)
        requires
            old(self).memory.wf(),
        ensures
            final(self).memory.wf(),
            final(self).fn_name == old(self).fn_name,
            ({
                let b = match input {
                    Some(v) => v@,
                    None => Seq::<u8>::empty(),
                };
                let top = old(self).memory.top_offset();
                if b.len() == 0 {
                    &&& r == Ok::<u64, CallError>(0u64)
                    &&& decode_spec(0u64) == EncodedResult::Success
                    &&& final(self).memory == old(self).memory
                } else if top + b.len() > PAGE_SIZE {
                    r == Err::<u64, CallError>(CallError::Alloc(AllocError::OutOfBounds))
                        && final(self).memory == old(self).memory
                } else {
                    let d = AllocationDescriptor { offset: top as u32, length: b.len() as u32 };
                    &&& r == Ok::<u64, CallError>(encode_spec_data(d))
                    &&& final(self).memory.top_offset() == top + b.len()
                    &&& bytes_at(final(self).memory.page_bytes(), d) == Some(b)
                }
            }),
    {
        let bytes = match input {
            Some(v) => v,
            None => Vec::new(),
        };
        let ghost top = self.memory.top_offset();
        let ghost page = self.memory.page_bytes();
        let staged = self.memory.write(&bytes);
        proof {
            lemma_decode_encode(EncodedResult::Success);
            if bytes@.len() > 0 && top + bytes@.len() <= PAGE_SIZE {
                crate::memory::lemma_read_after_write(page, top, bytes@);
            }
        }
        input_word(staged)
    }

    /// The outcome of the call whose export returned `word`.
    pub fn decode_return(&self, word: u64) -> (r: Result<JsonText, CallError>)
        requires
            self.memory.wf(),
        ensures
            outcome_matches(r, returned_text(self.memory.page_bytes(), word)),
    {
        match decode(word) {
            EncodedResult::Success => Ok(JsonText::null()),
            EncodedResult::Failure(code) => Err(CallError::CapabilityFailure(code)),
            EncodedResult::DataAt(d) => {
                let checked = AllocationDescriptor::from_encoded(
                    EncodedResult::DataAt(d),
                    PAGE_SIZE,
                );
                match checked {
                    Err(e) => Err(CallError::AllocationDecode(e)),
                    Ok(d) => match self.memory.read(d) {
                        Err(_) => Err(CallError::AllocationDecode(DecodeError::OutOfBounds)),
                        Ok(bytes) => match text_from_utf8(bytes) {
                            Ok(text) => Ok(JsonText { text }),
                            Err(e) => Err(CallError::TextDecode(e.to_string())),
                        },
                    },
                }
            },
        }
    }

    /// The outcome of the call, given what the interpreter reported.
    pub fn finish(&self, outcome: InvokeOutcome) -> (r: Result<JsonText, CallError>)
        requires
            self.memory.wf(),
        ensures
            match outcome {
                InvokeOutcome::Returned(v) => outcome_matches(
                    r,
                    returned_text(self.memory.page_bytes(), v as u64),
                ),
                InvokeOutcome::Trapped(msg) => r == Err::<JsonText, CallError>(
                    CallError::Invocation(msg),
                ),
                _ => r matches Err(CallError::Invocation(_)),
            },
    {
        match outcome {
            InvokeOutcome::Returned(v) => self.decode_return(v as u64),
            InvokeOutcome::ReturnedNothing => Err(
                CallError::Invocation("the export returned no value".to_owned()),
            ),
            InvokeOutcome::ReturnedOtherType => Err(
                CallError::Invocation("the export returned a value that is not an i64".to_owned()),
            ),
            InvokeOutcome::Trapped(msg) => Err(CallError::Invocation(msg)),
        }
    }
}

} // verus!
