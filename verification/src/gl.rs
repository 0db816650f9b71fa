//! What the graphics device reports.

use vstd::prelude::*;

verus! {

/// The constant `glow::NO_ERROR`, which glow declares as `0`.
#[verifier::external_body]
fn no_error() -> (code: u32)
    ensures
        code == 0,
{
    glow::NO_ERROR
}

/// The constant `glow::INVALID_ENUM`, which glow declares as `0x0500`.
#[verifier::external_body]
fn invalid_enum() -> (code: u32)
    ensures
        code == 0x0500,
{
    glow::INVALID_ENUM
}

/// The constant `glow::INVALID_VALUE`, which glow declares as `0x0501`.
#[verifier::external_body]
fn invalid_value() -> (code: u32)
    ensures
        code == 0x0501,
{
    glow::INVALID_VALUE
}

/// The constant `glow::INVALID_OPERATION`, which glow declares as `0x0502`.
#[verifier::external_body]
fn invalid_operation() -> (code: u32)
    ensures
        code == 0x0502,
{
    glow::INVALID_OPERATION
}

/// The constant `glow::STACK_OVERFLOW`, which glow declares as `0x0503`.
#[verifier::external_body]
fn stack_overflow() -> (code: u32)
    ensures
        code == 0x0503,
{
    glow::STACK_OVERFLOW
}

/// The constant `glow::STACK_UNDERFLOW`, which glow declares as `0x0504`.
#[verifier::external_body]
fn stack_underflow() -> (code: u32)
    ensures
        code == 0x0504,
{
    glow::STACK_UNDERFLOW
}

/// The constant `glow::OUT_OF_MEMORY`, which glow declares as `0x0505`.
#[verifier::external_body]
fn out_of_memory() -> (code: u32)
    ensures
        code == 0x0505,
{
    glow::OUT_OF_MEMORY
}

/// The constant `glow::INVALID_FRAMEBUFFER_OPERATION`, which glow declares as `0x0506`.
#[verifier::external_body]
fn invalid_framebuffer_operation() -> (code: u32)
    ensures
        code == 0x0506,
{
    glow::INVALID_FRAMEBUFFER_OPERATION
}

/// An error of the graphics device.
#[derive(Clone, Copy, PartialEq, Eq, Structural, Debug)]
pub enum GlError {
    InvalidEnum,
    InvalidValue,
    InvalidOperation,
    StackOverflow,
    StackUnderflow,
    OutOfMemory,
    InvalidFramebufferOperation,
    Unknown,
}

/// What an error code of the device stands for: nothing for the code zero,
/// one of the seven named errors for the codes from `0x0500` to `0x0506`, and
/// an unknown error for every other code.
pub open spec fn meaning(code: u32) -> Result<(), GlError> {
    if code == 0 {
        Ok(())
    } else if code == 0x0500 {
        Err(GlError::InvalidEnum)
    } else if code == 0x0501 {
        Err(GlError::InvalidValue)
    } else if code == 0x0502 {
        Err(GlError::InvalidOperation)
    } else if code == 0x0503 {
        Err(GlError::StackOverflow)
    } else if code == 0x0504 {
        Err(GlError::StackUnderflow)
    } else if code == 0x0505 {
        Err(GlError::OutOfMemory)
    } else if code == 0x0506 {
        Err(GlError::InvalidFramebufferOperation)
    } else {
        Err(GlError::Unknown)
    }
}

/// Reads an error code that the device reported.
pub fn check(code: u32) -> (r: Result<(), GlError>)
    ensures
        r == meaning(code),
        r is Ok <==> code == 0,
{
    if code == no_error() {
        Ok(())
    } else if code == invalid_enum() {
        Err(GlError::InvalidEnum)
    } else if code == invalid_value() {
        Err(GlError::InvalidValue)
    } else if code == invalid_operation() {
        Err(GlError::InvalidOperation)
    } else if code == stack_overflow() {
        Err(GlError::StackOverflow)
    } else if code == stack_underflow() {
        Err(GlError::StackUnderflow)
    } else if code == out_of_memory() {
        Err(GlError::OutOfMemory)
    } else if code == invalid_framebuffer_operation() {
        Err(GlError::InvalidFramebufferOperation)
    } else {
        Err(GlError::Unknown)
    }
}

impl GlError {
    /// The name of the error as the device's documentation writes it.
    pub fn name(&self) -> (s: &'static str)
        ensures
            s@ == self.label(),
    {
        match self {
            GlError::InvalidEnum => "INVALID_ENUM",
            GlError::InvalidValue => "INVALID_VALUE",
            GlError::InvalidOperation => "INVALID_OPERATION",
            GlError::StackOverflow => "STACK_OVERFLOW",
            GlError::StackUnderflow => "STACK_UNDERFLOW",
            GlError::OutOfMemory => "OUT_OF_MEMORY",
            GlError::InvalidFramebufferOperation => "INVALID_FRAMEBUFFER_OPERATION",
            GlError::Unknown => "UNKNOWN",
        }
    }

    /// The name of the error as the device's documentation writes it.
    pub open spec fn label(self) -> Seq<char> {
        match self {
            GlError::InvalidEnum => "INVALID_ENUM"@,
            GlError::InvalidValue => "INVALID_VALUE"@,
            GlError::InvalidOperation => "INVALID_OPERATION"@,
            GlError::StackOverflow => "STACK_OVERFLOW"@,
            GlError::StackUnderflow => "STACK_UNDERFLOW"@,
            GlError::OutOfMemory => "OUT_OF_MEMORY"@,
            GlError::InvalidFramebufferOperation => "INVALID_FRAMEBUFFER_OPERATION"@,
            GlError::Unknown => "UNKNOWN"@,
        }
    }
}

} // verus!
