use honeypot::errors::HashBotError;

#[test]
fn error_texts() {
    let e = HashBotError::AttachmentAlreadyExists { hash: "00ff00ff00ff00ff".to_string() };
    assert_eq!(e.to_message(), "Tried to add an already existing hash: 00ff00ff00ff00ff");
    let e = HashBotError::InvalidAttachmentFormat { format: "text/plain".to_string() };
    assert_eq!(e.to_message(), "Tried to hash a file with an unsupported format: text/plain");
    let e = HashBotError::HashNotFound { hash: "abc".to_string() };
    assert_eq!(e.to_message(), "Requested hash does not exist: abc");
}
