use glplus::{Context, Error};

#[test]
fn error_texts_for_known_codes() {
    let cases: [(u32, &str); 6] = [
        (0x0000, "No error"),
        (0x0500, "An unacceptable value is specified for an enumerated argument"),
        (0x0501, "A numeric argument is out of range"),
        (0x0502, "The specified operation is not allowed in the current state"),
        (0x0506, "The framebuffer object is not complete"),
        (0x0505, "There is not enough memory left to execute the command"),
    ];
    for (code, text) in cases {
        assert_eq!(Error::new(code).to_str(), text);
        assert_eq!(Error::new(code).code(), code);
    }
}

#[test]
fn error_text_for_other_codes() {
    for code in [1u32, 0x0503, 0x0504, 0x0507, u32::MAX] {
        assert_eq!(Error::new(code).to_str(), "Unknown error");
        assert!(Error::new(code).is_error());
        assert!(!Error::new(code).is_okay());
    }
}

#[test]
fn no_error_after_a_quiet_sequence() {
    let mut ctx = Context::new();
    assert!(ctx.take_commands().is_empty());
    let err = Error::new(0);
    assert!(err.is_okay());
    assert!(!err.is_error());
    assert_eq!(err.to_str(), "No error");
}
