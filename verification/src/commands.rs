//! The texts of the moderation commands: the replies shown to the moderator
//! who ran a command and the reports posted in the moderation channel.

use vstd::prelude::*;

use crate::errors::{error_message, HashBotError};

verus! {

/// The reply to the test command.
pub const PING_REPLY: &'static str = "That's so cool";

/// The reply once a message's attachments were hashed.
pub const HASHED_REPLY: &'static str = ":thumbsup:";

/// The reply once a message's attachments were hashed and its author banned.
pub const HASHED_AND_BANNED_REPLY: &'static str = "User hashed and banned";

/// The reason recorded with a ban by the hash-and-ban command.
pub const HASH_AND_BAN_REASON: &'static str = "begone!";

/// The replies to a removal that succeeded and to one that failed.
pub const REMOVED_REPLY: &'static str = "Removed it, boss";
pub const REMOVE_FAILED_REPLY: &'static str = "Oh no...";

/// The report of an attachment's addition: who added which hash from where,
/// or which error stopped it and where the message is.
pub open spec fn attachment_report_text(
    author_mention: Seq<char>,
    message_link: Seq<char>,
    file_url: Seq<char>,
    result: Result<String, HashBotError>,
) -> Seq<char> {
    match result {
        Ok(hash) => author_mention + " added hash "@ + hash@ + " to database > "@ + file_url,
        Err(e) => "ERROR ADDING ATTACHMENT "@ + author_mention + " in "@ + message_link + ": "@
            + error_message(e),
    }
}

/// The moderation-channel report of adding one attachment.
pub fn attachment_report(
    author_mention: &str,
    message_link: &str,
    file_url: &str,
    result: &Result<String, HashBotError>,
) -> (res: String)
    ensures
        res@ == attachment_report_text(author_mention@, message_link@, file_url@, *result),
{
    match result {
        Ok(hash) => String::from_str(author_mention).concat(" added hash ").concat(
            hash.as_str(),
        ).concat(" to database > ").concat(file_url),
        Err(e) => {
            let msg = e.to_message();
            String::from_str("ERROR ADDING ATTACHMENT ").concat(author_mention).concat(
                " in ",
            ).concat(message_link).concat(": ").concat(msg.as_str())
        },
    }
}

/// The moderation-channel report of the test command.
pub fn ping_report(author_name: &str, user_mention: &str) -> (res: String)
    ensures
        res@ == author_name@ + " pinged "@ + user_mention@ + "!!!"@,
{
    String::from_str(author_name).concat(" pinged ").concat(user_mention).concat("!!!")
}

/// The reply to a hash removal and, when it failed, the report for the
/// moderation channel.
pub fn remove_hash_outcome(result: &Result<(), HashBotError>) -> (res: (String, Option<String>))
    ensures
        match result {
            Ok(_) => res.0@ == REMOVED_REPLY@ && res.1 is None,
            Err(e) => res.0@ == REMOVE_FAILED_REPLY@ && res.1 is Some && res.1->0@
                == "ERROR REMOVING HASH: "@ + error_message(*e),
        },
{
    match result {
        Ok(_) => (String::from_str(REMOVED_REPLY), None),
        Err(e) => {
            let msg = e.to_message();
            (
                String::from_str(REMOVE_FAILED_REPLY),
                Some(String::from_str("ERROR REMOVING HASH: ").concat(msg.as_str())),
            )
        },
    }
}

} // verus!
