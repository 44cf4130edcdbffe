//! Errors of the hash database operations and the text shown for each.

use vstd::prelude::*;

verus! {

/// Why adding or removing a hash was refused.
#[derive(Debug)]
pub enum HashBotError {
    /// The image's hash is already recorded.
    AttachmentAlreadyExists { hash: String },
    /// The file's content type is not an image type.
    InvalidAttachmentFormat { format: String },
    /// The hash to remove is not recorded.
    HashNotFound { hash: String },
}

/// The text shown for an error.
pub open spec fn error_message(e: HashBotError) -> Seq<char> {
    match e {
        HashBotError::AttachmentAlreadyExists { hash } =>
            "Tried to add an already existing hash: "@ + hash@,
        HashBotError::InvalidAttachmentFormat { format } =>
            "Tried to hash a file with an unsupported format: "@ + format@,
        HashBotError::HashNotFound { hash } => "Requested hash does not exist: "@ + hash@,
    }
}

impl HashBotError {
    /// The text shown for this error: a sentence naming the error, then the
    /// hash or format it concerns.
    pub fn to_message(&self) -> (res: String)
        ensures
            res@ == error_message(*self),
    {
        match self {
            HashBotError::AttachmentAlreadyExists { hash } => String::from_str(
                "Tried to add an already existing hash: ",
            ).concat(hash.as_str()),
            HashBotError::InvalidAttachmentFormat { format } => String::from_str(
                "Tried to hash a file with an unsupported format: ",
            ).concat(format.as_str()),
            HashBotError::HashNotFound { hash } => String::from_str(
                "Requested hash does not exist: ",
            ).concat(hash.as_str()),
        }
    }
}

} // verus!
