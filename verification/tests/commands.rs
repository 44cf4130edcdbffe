use honeypot::commands::{attachment_report, ping_report, remove_hash_outcome, REMOVED_REPLY, REMOVE_FAILED_REPLY};
use honeypot::errors::HashBotError;

#[test]
fn added_attachment_report() {
    let r = attachment_report("<@1>", "https://discord.com/channels/1/2/3", "https://cdn/a.png", &Ok("0123456789abcdef".to_string()));
    assert_eq!(r, "<@1> added hash 0123456789abcdef to database > https://cdn/a.png");
}

#[test]
fn failed_attachment_report() {
    let r = attachment_report(
        "<@1>",
        "https://discord.com/channels/1/2/3",
        "https://cdn/a.txt",
        &Err(HashBotError::InvalidAttachmentFormat { format: "text/plain".to_string() }),
    );
    assert_eq!(
        r,
        "ERROR ADDING ATTACHMENT <@1> in https://discord.com/channels/1/2/3: Tried to hash a file with an unsupported format: text/plain"
    );
}

#[test]
fn ping_text() {
    assert_eq!(ping_report("alice", "<@42>"), "alice pinged <@42>!!!");
}

#[test]
fn removal_replies() {
    let (reply, report) = remove_hash_outcome(&Ok(()));
    assert_eq!(reply, REMOVED_REPLY);
    assert!(report.is_none());
    let (reply, report) = remove_hash_outcome(&Err(HashBotError::HashNotFound { hash: "ab".to_string() }));
    assert_eq!(reply, REMOVE_FAILED_REPLY);
    assert_eq!(report.as_deref(), Some("ERROR REMOVING HASH: Requested hash does not exist: ab"));
}
