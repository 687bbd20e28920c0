use vstd::prelude::*;

verus! {

/// The member of a parameter payload that could not be decoded.
#[derive(Debug, Clone, Copy, PartialEq, Eq, Structural)]
pub enum PayloadField {
    /// The payload itself is not an object.
    Payload,
    Fim,
    Messages,
    ChatTemplate,
    ChatFormat,
    MaxNewTokens,
}

/// What can go wrong when building the backend or serving a request.
#[derive(Debug, Clone, PartialEq, Eq)]
pub enum BackendError {
    /// A setting needed to build the backend is missing.
    ConfigurationError(String),
    /// The model file could not be obtained.
    ModelAcquisitionError(String),
    /// The run-time parameters do not decode.
    MalformedParameters(PayloadField),
    /// A custom template was asked for, but the model lacks a special token.
    MissingSpecialToken(String),
    /// A custom chat template failed to render.
    TemplateRenderError(String),
    /// The engine's own chat template failed.
    EngineTemplateError(String),
    /// The engine failed while generating.
    EngineFailure(String),
    /// The operation is not offered by this backend.
    CapabilityUnavailable,
}

} // verus!
