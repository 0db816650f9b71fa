use dirty::gl::{check, GlError};

#[test]
fn error_codes_are_read() {
    assert_eq!(check(glow::NO_ERROR), Ok(()));
    assert_eq!(check(glow::INVALID_ENUM), Err(GlError::InvalidEnum));
    assert_eq!(check(glow::INVALID_VALUE), Err(GlError::InvalidValue));
    assert_eq!(check(glow::INVALID_OPERATION), Err(GlError::InvalidOperation));
    assert_eq!(check(glow::STACK_OVERFLOW), Err(GlError::StackOverflow));
    assert_eq!(check(glow::STACK_UNDERFLOW), Err(GlError::StackUnderflow));
    assert_eq!(check(glow::OUT_OF_MEMORY), Err(GlError::OutOfMemory));
    assert_eq!(
        check(glow::INVALID_FRAMEBUFFER_OPERATION),
        Err(GlError::InvalidFramebufferOperation)
    );
    assert_eq!(check(1), Err(GlError::Unknown));
    assert_eq!(check(0x0507), Err(GlError::Unknown));
    assert_eq!(check(u32::MAX), Err(GlError::Unknown));
}

#[test]
fn errors_are_named_as_documented() {
    assert_eq!(GlError::InvalidEnum.name(), "INVALID_ENUM");
    assert_eq!(GlError::InvalidValue.name(), "INVALID_VALUE");
    assert_eq!(GlError::InvalidOperation.name(), "INVALID_OPERATION");
    assert_eq!(GlError::StackOverflow.name(), "STACK_OVERFLOW");
    assert_eq!(GlError::StackUnderflow.name(), "STACK_UNDERFLOW");
    assert_eq!(GlError::OutOfMemory.name(), "OUT_OF_MEMORY");
    assert_eq!(GlError::InvalidFramebufferOperation.name(), "INVALID_FRAMEBUFFER_OPERATION");
    assert_eq!(GlError::Unknown.name(), "UNKNOWN");
}
