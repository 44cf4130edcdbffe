//! Image hashes and the records kept of them: computing the hash of an
//! image, and the decisions of adding an attachment's hash to the record
//! and of removing a hash from it. The record itself is kept by the caller,
//! which performs each action these decisions ask for and reports back.

use vstd::prelude::*;

use crate::errors::HashBotError;
use crate::files::{is_image_file, UserFile};

verus! {

/// A lower-case hexadecimal rendering of a 64-bit hash: sixteen characters,
/// each a digit or one of `a` to `f`.
pub open spec fn is_hex_hash(s: Seq<char>) -> bool {
    &&& s.len() == 16
    &&& forall|i: int|
        0 <= i < s.len() ==> ('0' <= #[trigger] s[i] <= '9' || 'a' <= s[i] <= 'f')
}

/// Whether `image::load_from_memory` decodes these bytes into an image.
pub uninterp spec fn image_decodes(data: Seq<u8>) -> bool;

/// Calls `image::load_from_memory` and, on the decoded image,
/// `imagehash::AverageHash::hash` with an 8 by 8 image size and hash size,
/// rendered with its `Display`. The contract claims that whether decoding
/// succeeds is a function of the bytes, and what the source shows of the
/// rendering: 64 bits, two lower-case hex digits per byte; and of the bits,
/// that they are not all set (a bit is set when its pixel is above the mean
/// of the 64 pixels, and the mean, of small integers, is exact in `f64`, so
/// some pixel is at most the mean). Which bits come
/// out is not stated: the JPEG decoder picks a SIMD path by the CPU, and the
/// resize calls the platform's `sin`, so the pixels compared with their mean
/// may differ from one machine to another. Whether the hash call returns on
/// an image with a side of length zero is not stated either (decoding gives
/// none such here).
#[verifier::external_body]
fn average_hash_of_bytes(data: &[u8]) -> (res: Option<String>)
    ensures
        res is Some <==> image_decodes(data@),
        res matches Some(h) ==> is_hex_hash(h@) && h@ != "ffffffffffffffff"@,
{
    let img = image::load_from_memory(data).ok()?;
    Some(imagehash::AverageHash::new().with_hash_size(8, 8).with_image_size(8, 8).hash(&img).to_string())
}

/// The average hash of the image held in `data`, as sixteen hex digits, not
/// all bits set; `Err(())` exactly when the bytes do not decode as an image.
pub fn hash_image(data: &[u8]) -> (res: Result<String, ()>)
    ensures
        res is Ok <==> image_decodes(data@),
        res matches Ok(h) ==> is_hex_hash(h@) && h@ != "ffffffffffffffff"@,
{
    match average_hash_of_bytes(data) {
        Some(h) => Ok(h),
        None => Err(()),
    }
}

/// Calls `chrono::Utc::now` and returns its `timestamp_micros`: the current
/// time in microseconds since the Unix epoch. Nothing is promised of it.
#[verifier::external_body]
fn now_micros() -> (res: i64) {
    chrono::Utc::now().timestamp_micros()
}

/// A recorded image hash: how often it was seen, and when first and last
/// (in microseconds since the Unix epoch).
#[derive(Debug)]
pub struct HashEntry {
    pub hash: String,
    pub instances: i32,
    pub first_seen: i64,
    pub last_seen: i64,
}

/// A record of `hash` seen once, at time `now`.
pub open spec fn new_entry(hash: String, now: i64) -> HashEntry {
    HashEntry { hash, instances: 1, first_seen: now, last_seen: now }
}

impl HashEntry {
    /// A record of `hash` seen once, at time `now`.
    pub fn seen_at(hash: String, now: i64) -> (res: Self)
        ensures
            res == new_entry(hash, now),
    {
        HashEntry { hash, instances: 1, first_seen: now, last_seen: now }
    }

    /// A record of a hash seen once, now: both times are one reading of the clock.
    pub fn new(hash: String) -> (res: Self)
        ensures
            res == new_entry(hash, res.first_seen),
    {
        let today: i64 = now_micros();
        HashEntry::seen_at(hash, today)
    }
}

/// Where the addition of an attachment's hash stands.
pub enum AddStage {
    Start,
    /// The image was asked for; its hash is awaited.
    AwaitHash,
    /// The hash is known; whether it is recorded is awaited.
    AwaitLookup { hash: String },
    /// The hash is being recorded.
    AwaitInsert { hash: String },
    Finished,
}

/// What the caller reports back.
pub enum AddEvent {
    Begin,
    /// The image was fetched and `hash_image` gave this.
    Hashed { hash: Result<String, ()> },
    /// Whether the hash is already recorded.
    LookedUp { found: bool },
    /// The hash was recorded.
    Inserted,
}

/// What the caller is asked to do next.
pub enum AddAction {
    /// Fetch the file at `url` and hash it.
    FetchImage { url: String },
    /// Look the hash up in the record.
    LookUp { hash: String },
    /// Record this entry (a hash seen once, now).
    Insert { entry: HashEntry },
    /// The addition is over, with this result.
    Report { result: Result<String, HashBotError> },
    /// The fetched file is no image: the addition cannot go on.
    ImageUnreadable,
    /// Nothing to do.
    Wait,
}

/// The time of the entry an action asks to record (zero for other actions).
pub open spec fn insert_time(action: AddAction) -> i64 {
    match action {
        AddAction::Insert { entry } => entry.first_seen,
        _ => 0,
    }
}

/// The next stage and action of adding `file`'s hash, on `event`, where
/// `now` is the clock reading used for a new record.
pub open spec fn add_next(file: UserFile, stage: AddStage, event: AddEvent, now: i64) -> (
    AddStage,
    AddAction,
) {
    match (stage, event) {
        (AddStage::Start, AddEvent::Begin) => if is_image_file(file@) {
            (AddStage::AwaitHash, AddAction::FetchImage { url: file.url })
        } else {
            (
                AddStage::Finished,
                AddAction::Report {
                    result: Err(
                        HashBotError::InvalidAttachmentFormat { format: file.content_type->0 },
                    ),
                },
            )
        },
        (AddStage::AwaitHash, AddEvent::Hashed { hash }) => match hash {
            Ok(h) => (AddStage::AwaitLookup { hash: h }, AddAction::LookUp { hash: h }),
            Err(_) => (AddStage::Finished, AddAction::ImageUnreadable),
        },
        (AddStage::AwaitLookup { hash }, AddEvent::LookedUp { found }) => if found {
            (
                AddStage::Finished,
                AddAction::Report { result: Err(HashBotError::AttachmentAlreadyExists { hash }) },
            )
        } else {
            (AddStage::AwaitInsert { hash }, AddAction::Insert { entry: new_entry(hash, now) })
        },
        (AddStage::AwaitInsert { hash }, AddEvent::Inserted) => (
            AddStage::Finished,
            AddAction::Report { result: Ok(hash) },
        ),
        (s, _) => (s, AddAction::Wait),
    }
}

/// One step of adding `file`'s hash to the record: a non-image is refused
/// with its content type, an image is fetched and hashed, a hash already
/// recorded is refused, and a new one is recorded (seen once, at the clock
/// reading taken during this call) and reported.
pub fn add_attachment_step(file: &UserFile, stage: AddStage, event: AddEvent) -> (res: (
    AddStage,
    AddAction,
))
    requires
        stage is Start && event is Begin ==> file.content_type is Some,
    ensures
        res == add_next(*file, stage, event, insert_time(res.1)),
{
    match (stage, event) {
        (AddStage::Start, AddEvent::Begin) => {
            if file.is_image() {
                (AddStage::AwaitHash, AddAction::FetchImage { url: file.url.clone() })
            } else {
                let format = match &file.content_type {
                    Some(t) => t.clone(),
                    None => String::new(),
                };
                (
                    AddStage::Finished,
                    AddAction::Report {
                        result: Err(HashBotError::InvalidAttachmentFormat { format }),
                    },
                )
            }
        },
        (AddStage::AwaitHash, AddEvent::Hashed { hash }) => match hash {
            Ok(h) => {
                let h2 = h.clone();
                (AddStage::AwaitLookup { hash: h }, AddAction::LookUp { hash: h2 })
            },
            Err(_) => (AddStage::Finished, AddAction::ImageUnreadable),
        },
        (AddStage::AwaitLookup { hash }, AddEvent::LookedUp { found }) => {
            if found {
                (
                    AddStage::Finished,
                    AddAction::Report {
                        result: Err(HashBotError::AttachmentAlreadyExists { hash }),
                    },
                )
            } else {
                let entry = HashEntry::new(hash.clone());
                (AddStage::AwaitInsert { hash }, AddAction::Insert { entry })
            }
        },
        (AddStage::AwaitInsert { hash }, AddEvent::Inserted) => (
            AddStage::Finished,
            AddAction::Report { result: Ok(hash) },
        ),
        (s, _) => (s, AddAction::Wait),
    }
}

/// Where the removal of a hash stands.
pub enum DeleteStage {
    Start,
    AwaitLookup,
    AwaitDelete,
    Finished,
}

/// What the caller reports back.
pub enum DeleteEvent {
    Begin,
    /// Whether the hash is recorded.
    LookedUp { found: bool },
    /// The hash was removed.
    Deleted,
}

/// What the caller is asked to do next.
pub enum DeleteAction {
    LookUp { hash: String },
    Delete { hash: String },
    Report { result: Result<(), HashBotError> },
    Wait,
}

/// The next stage and action of removing `hash`, on `event`.
pub open spec fn delete_next(hash: String, stage: DeleteStage, event: DeleteEvent) -> (
    DeleteStage,
    DeleteAction,
) {
    match (stage, event) {
        (DeleteStage::Start, DeleteEvent::Begin) => (
            DeleteStage::AwaitLookup,
            DeleteAction::LookUp { hash },
        ),
        (DeleteStage::AwaitLookup, DeleteEvent::LookedUp { found }) => if found {
            (DeleteStage::AwaitDelete, DeleteAction::Delete { hash })
        } else {
            (
                DeleteStage::Finished,
                DeleteAction::Report { result: Err(HashBotError::HashNotFound { hash }) },
            )
        },
        (DeleteStage::AwaitDelete, DeleteEvent::Deleted) => (
            DeleteStage::Finished,
            DeleteAction::Report { result: Ok(()) },
        ),
        (s, _) => (s, DeleteAction::Wait),
    }
}

/// One step of removing `hash` from the record: it is looked up, removed
/// when found, and refused with `HashNotFound` when not.
pub fn delete_hash_step(hash: &String, stage: DeleteStage, event: DeleteEvent) -> (res: (
    DeleteStage,
    DeleteAction,
))
    ensures
        res == delete_next(*hash, stage, event),
{
    match (stage, event) {
        (DeleteStage::Start, DeleteEvent::Begin) => (
            DeleteStage::AwaitLookup,
            DeleteAction::LookUp { hash: hash.clone() },
        ),
        (DeleteStage::AwaitLookup, DeleteEvent::LookedUp { found }) => {
            if found {
                (DeleteStage::AwaitDelete, DeleteAction::Delete { hash: hash.clone() })
            } else {
                (
                    DeleteStage::Finished,
                    DeleteAction::Report {
                        result: Err(HashBotError::HashNotFound { hash: hash.clone() }),
                    },
                )
            }
        },
        (DeleteStage::AwaitDelete, DeleteEvent::Deleted) => (
            DeleteStage::Finished,
            DeleteAction::Report { result: Ok(()) },
        ),
        (s, _) => (s, DeleteAction::Wait),
    }
}

} // verus!
