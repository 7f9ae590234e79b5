use vstd::prelude::*;

verus! {

/// What can go wrong in the handshake and signing steps.
#[derive(Debug, Clone, PartialEq, Eq)]
pub enum GrokError {
    /// A transport failure, with its message.
    HttpError(String),
    /// A proxy address that cannot be used.
    InvalidProxy(String),
    /// A delimiter or a value that was expected in a page or response is missing.
    ParseError(String),
    /// The service rejected the request by its anti-bot rules.
    AntiBotRejection,
    /// Continuation data lacks a field that is needed.
    MissingField(String),
    /// A key or a digest that the curve library refused.
    CryptoError(String),
    /// Text that is not valid base64.
    Base64Error,
    /// Any other failure, with its message.
    Other(String),
}

} // verus!

verus! {

/// What can go wrong in a chat turn with the Qwen-style service.
#[derive(Debug, Clone, PartialEq, Eq)]
pub enum QwenError {
    /// The service answered with an error, or with something unexpected.
    ApiError(String),
    /// A transport failure, with its message.
    NetworkError(String),
    /// A body that is not the JSON expected.
    JsonError(String),
    /// A local file could not be read.
    IoError(String),
}

} // verus!

verus! {

/// What can go wrong with the DeepSeek-style service.
#[derive(Debug, Clone, PartialEq, Eq)]
pub enum DeepSeekError {
    /// A transport failure, with its message.
    Rquest(String),
    /// A body that is not the JSON expected.
    SerdeJson(String),
    /// The service answered with an error, or the challenge cannot be answered.
    ApiError(String),
    /// The proof-of-work module could not be loaded or run.
    Wasmtime(String),
    /// The proof-of-work module's memory could not be read or written.
    WasmtimeMemoryAccess(String),
}

} // verus!
