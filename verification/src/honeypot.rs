//! The honeypot: a message posted in the watched channel gets its sender
//! banned (moderators excepted), after a direct message that offers a
//! captcha; solving the captcha in one try lifts the ban. The caller performs
//! each action these decisions ask for (reading permissions, messaging,
//! banning, waiting) and reports back what happened.

use image::ImageEncoder;
use vstd::prelude::*;

use crate::text::{contains_text, has_substring};

verus! {

/// The direct message sent to a banned user when none is configured.
pub const DEFAULT_BAN_MESSAGE: &'static str = "You have been automatically banned due to sending scam messages.\nThis is likely due to a compromised account.\nIf you recover your account, please make a ban appeal at <https://figuramc.org/forms/user/unban>\n\nIf you sent a message by mistake, you have 5 minutes to solve a captcha.\nTo solve the captcha, you need to:\n- join this server: https://discord.gg/5UWBcGWGac\n- click on the button below";

/// The reason recorded with the ban.
pub const BAN_REASON: &'static str = "sent message in honeypot channel";

/// The identifier and label of the button that starts the captcha.
pub const CAPTCHA_BUTTON_ID: &'static str = "start_captcha";
pub const CAPTCHA_BUTTON_LABEL: &'static str = "Start Captcha";

/// The text sent with the captcha image, and the image's file name.
pub const CAPTCHA_PROMPT: &'static str = "Send a message containing the content of this image.\nYou have one try.";
pub const CAPTCHA_FILE_NAME: &'static str = "captcha.png";

/// The replies to a solved and to a failed captcha.
pub const CORRECT_REPLY: &'static str = "Correct. You have been unbanned.";
pub const INCORRECT_REPLY: &'static str = "Incorrect. Submit a ban appeal or contact the admins of the server.";

/// How long, in seconds, the button press and the answer are awaited.
pub const CAPTCHA_TIMEOUT_SECS: u64 = 300;

/// How many days of the banned user's messages are deleted with the ban.
pub const BAN_DELETE_MESSAGE_DAYS: u8 = 1;

/// The captcha's shape: characters, width, height, dark mode, complexity.
pub const CAPTCHA_LENGTH: usize = 6;
pub const CAPTCHA_WIDTH: u32 = 220;
pub const CAPTCHA_HEIGHT: u32 = 80;
pub const CAPTCHA_DARK_MODE: bool = true;
pub const CAPTCHA_COMPLEXITY: u32 = 5;

/// The characters a captcha is made of: the digits 2 to 9 and the letters
/// of both cases but `I`, `L`, `O` (`i`, `l`, `o`).
pub open spec fn is_captcha_char(c: char) -> bool {
    ||| '2' <= c <= '9'
    ||| 'A' <= c <= 'Z' && c != 'I' && c != 'L' && c != 'O'
    ||| 'a' <= c <= 'z' && c != 'i' && c != 'l' && c != 'o'
}

/// A captcha text of `len` characters of the captcha alphabet.
pub open spec fn is_captcha_text(s: Seq<char>, len: nat) -> bool {
    &&& s.len() == len
    &&& forall|i: int| 0 <= i < s.len() ==> is_captcha_char(#[trigger] s[i])
}

/// The eight bytes every PNG file begins with.
pub open spec fn png_signature() -> Seq<u8> {
    seq![137u8, 80u8, 78u8, 71u8, 13u8, 10u8, 26u8, 10u8]
}

/// The unsigned 32-bit number written big-endian at `b[i..i + 4]`.
pub open spec fn big_endian_u32_at(b: Seq<u8>, i: int) -> int {
    b[i] * 16777216 + b[i + 1] * 65536 + b[i + 2] * 256 + b[i + 3]
}

/// PNG bytes that begin with the signature and an `IHDR` header giving a
/// `width` by `height` picture.
pub open spec fn is_png_of_size(bytes: Seq<u8>, width: int, height: int) -> bool {
    &&& bytes.len() >= 24
    &&& bytes.take(8) == png_signature()
    &&& bytes.subrange(12, 16) == seq![73u8, 72u8, 68u8, 82u8]
    &&& big_endian_u32_at(bytes, 16) == width
    &&& big_endian_u32_at(bytes, 20) == height
}

/// Calls `captcha_rs::CaptchaBuilder` with these settings and `build`,
/// returning the text and the picture's RGB pixels, row by row. The text is
/// random; the contract claims what the source shows: `length` characters
/// drawn from its alphabet, and a `width` by `height` picture of three bytes
/// per pixel (it is drawn on a buffer of that size, in place). The inputs
/// left out are those on which the drawing code underflows or divides by zero.
#[verifier::external_body]
fn build_captcha(length: usize, width: u32, height: u32, dark_mode: bool, complexity: u32) -> (res: (
    String,
    Vec<u8>,
))
    requires
        1 <= length,
        25 <= width,
        30 <= height,
    ensures
        is_captcha_text(res.0@, length as nat),
        res.1@.len() == width * height * 3,
{
    let c = captcha_rs::CaptchaBuilder::new().length(length).width(width).height(height).dark_mode(
        dark_mode,
    ).complexity(complexity).build();
    (c.text, c.image.to_rgb8().into_raw())
}

/// The bytes `image::codecs::png::PngEncoder::write_image` writes for a
/// `width` by `height` picture with these RGB pixels, row by row.
pub uninterp spec fn png_encoding(width: u32, height: u32, pixels: Seq<u8>) -> Seq<u8>;

/// Calls `image::codecs::png::PngEncoder::write_image` on an in-memory buffer
/// with RGB pixels and returns the bytes written, or `None` when encoding
/// fails. The contract claims that the bytes are a function of the size and
/// the pixels (the encoder's filtering and compression are integer
/// computations, with no choice made by the machine), and what the source
/// shows: the encoder fails only on a side of length zero (writing to a `Vec`
/// never fails), and it writes the PNG signature first, then the `IHDR`
/// chunk, whose data begins with the width and the height, big-endian. The
/// inputs left out are those on which it asserts that the pixel count is wrong.
#[verifier::external_body]
fn encode_png(width: u32, height: u32, pixels: &[u8]) -> (res: Option<Vec<u8>>)
    requires
        pixels@.len() == width * height * 3,
    ensures
        width > 0 && height > 0 ==> res is Some,
        res matches Some(bytes) ==> bytes@ == png_encoding(width, height, pixels@),
        res matches Some(bytes) ==> is_png_of_size(bytes@, width as int, height as int),
{
    let mut buf: Vec<u8> = Vec::new();
    image::codecs::png::PngEncoder::new(&mut buf).write_image(
        pixels, width, height, image::ColorType::Rgb8,
    ).ok()?;
    Some(buf)
}

/// A captcha ready to send: its text, and the drawn picture (RGB pixels of
/// the captcha's size) encoded as PNG.
pub fn pack_captcha(text: String, pixels: Vec<u8>) -> (res: Option<(String, Vec<u8>)>)
    requires
        pixels@.len() == CAPTCHA_WIDTH * CAPTCHA_HEIGHT * 3,
    ensures
        res is Some,
        res matches Some(c) ==> c.0 == text && c.1@ == png_encoding(
            CAPTCHA_WIDTH,
            CAPTCHA_HEIGHT,
            pixels@,
        ) && is_png_of_size(c.1@, CAPTCHA_WIDTH as int, CAPTCHA_HEIGHT as int),
{
    match encode_png(CAPTCHA_WIDTH, CAPTCHA_HEIGHT, pixels.as_slice()) {
        Some(png) => Some((text, png)),
        None => None,
    }
}

/// A fresh captcha: its text (six characters of the captcha alphabet) and
/// its 220 by 80 picture as PNG bytes, the encoding of the picture drawn
/// with that text (by `pack_captcha`).
pub fn generate_captcha() -> (res: Option<(String, Vec<u8>)>)
    ensures
        res is Some,
        res matches Some(c) ==> is_captcha_text(c.0@, CAPTCHA_LENGTH as nat) && is_png_of_size(
            c.1@,
            CAPTCHA_WIDTH as int,
            CAPTCHA_HEIGHT as int,
        ),
{
    let (text, pixels) = build_captcha(
        CAPTCHA_LENGTH,
        CAPTCHA_WIDTH,
        CAPTCHA_HEIGHT,
        CAPTCHA_DARK_MODE,
        CAPTCHA_COMPLEXITY,
    );
    pack_captcha(text, pixels)
}

/// Returns the bits of `serenity`'s `Permissions::KICK_MEMBERS`, which its
/// source defines as `1 << 1`.
#[verifier::external_body]
fn kick_members_bits() -> (res: u64)
    ensures
        res == 2,
{
    serenity::model::permissions::Permissions::KICK_MEMBERS.bits()
}

/// Returns the bits of `serenity`'s `Permissions::BAN_MEMBERS`, which its
/// source defines as `1 << 2`.
#[verifier::external_body]
fn ban_members_bits() -> (res: u64)
    ensures
        res == 4,
{
    serenity::model::permissions::Permissions::BAN_MEMBERS.bits()
}

/// Returns the bits of `serenity`'s `Permissions::ADMINISTRATOR`, which its
/// source defines as `1 << 3`.
#[verifier::external_body]
fn administrator_bits() -> (res: u64)
    ensures
        res == 8,
{
    serenity::model::permissions::Permissions::ADMINISTRATOR.bits()
}

/// The permissions that make a member a moderator: kick, ban, administrator.
pub open spec fn moderator_mask() -> u64 {
    14
}

/// A member with any of the moderator permissions.
pub open spec fn is_moderator(permission_bits: u64) -> bool {
    permission_bits & moderator_mask() != 0
}

/// Whether a member with these permission bits is a moderator.
pub fn has_moderator_permission(permission_bits: u64) -> (res: bool)
    ensures
        res == is_moderator(permission_bits),
{
    let mask: u64 = kick_members_bits() | ban_members_bits() | administrator_bits();
    assert(2u64 | 4u64 | 8u64 == 14u64) by (bit_vector);
    permission_bits & mask != 0
}

/// The honeypot's settings: the watched channel and the message sent to
/// those it bans.
pub struct Bot {
    pub channel: u64,
    pub ban_message: String,
}

impl Bot {
    /// The settings for `channel`, with `ban_message` or, when none is
    /// given, `DEFAULT_BAN_MESSAGE`.
    pub fn new(channel: u64, ban_message: Option<String>) -> (res: Bot)
        ensures
            res.channel == channel,
            res.ban_message@ == match ban_message {
                Some(m) => m@,
                None => DEFAULT_BAN_MESSAGE@,
            },
    {
        let ban_message = match ban_message {
            Some(m) => m,
            None => String::from_str(DEFAULT_BAN_MESSAGE),
        };
        Bot { channel, ban_message }
    }
}

/// Where the handling of one message stands.
pub enum HoneypotStage {
    Idle,
    /// The message is in the watched channel; the sender's permissions are awaited.
    AwaitPermissions,
    /// The direct message was asked for; whether it was delivered is awaited.
    AwaitDirectMessage,
    /// The ban was asked for; `dm_sent` tells whether the user was reached.
    AwaitBan { dm_sent: bool },
    /// The captcha button is awaited.
    AwaitButton,
    /// The captcha was shown; an answer containing `answer` lifts the ban.
    AwaitAnswer { answer: String },
    Done,
}

/// What the caller reports back.
pub enum HoneypotEvent {
    /// A message was posted in `channel`.
    MessagePosted { channel: u64 },
    /// The sender's permission bits in that channel.
    Permissions { bits: u64 },
    /// Whether the direct message was delivered.
    DirectMessageResult { sent: bool },
    /// The sender was banned.
    Banned,
    /// The button was pressed; a fresh captcha (from `generate_captcha`) is attached.
    ButtonPressed { answer: String, image: Vec<u8> },
    /// The user replied with this text.
    Replied { content: String },
    /// Nothing came within the time allowed.
    TimedOut,
}

/// What the caller is asked to do next.
pub enum HoneypotAction {
    /// Read the sender's permissions in the channel.
    CheckPermissions,
    /// Send the sender this text, with the captcha button.
    SendDirectMessage { text: String },
    /// Ban the sender (with `BAN_REASON`, deleting `BAN_DELETE_MESSAGE_DAYS` of messages).
    Ban,
    /// Wait for the captcha button.
    AwaitButton,
    /// Show this captcha picture with `CAPTCHA_PROMPT` and wait for the answer.
    SendChallenge { image: Vec<u8> },
    /// Lift the ban and reply `CORRECT_REPLY`.
    Unban,
    /// Reply `INCORRECT_REPLY`; the ban stays.
    RejectAnswer,
    /// Handling is over.
    Stop,
    /// Nothing to do.
    Wait,
}

/// The next stage and action of handling a message, on `event`.
pub open spec fn honeypot_next(bot: Bot, stage: HoneypotStage, event: HoneypotEvent) -> (
    HoneypotStage,
    HoneypotAction,
) {
    match (stage, event) {
        (HoneypotStage::Idle, HoneypotEvent::MessagePosted { channel }) => if channel
            == bot.channel {
            (HoneypotStage::AwaitPermissions, HoneypotAction::CheckPermissions)
        } else {
            (HoneypotStage::Done, HoneypotAction::Stop)
        },
        (HoneypotStage::AwaitPermissions, HoneypotEvent::Permissions { bits }) => if is_moderator(
            bits,
        ) {
            (HoneypotStage::Done, HoneypotAction::Stop)
        } else {
            (
                HoneypotStage::AwaitDirectMessage,
                HoneypotAction::SendDirectMessage { text: bot.ban_message },
            )
        },
        (HoneypotStage::AwaitDirectMessage, HoneypotEvent::DirectMessageResult { sent }) => (
            HoneypotStage::AwaitBan { dm_sent: sent },
            HoneypotAction::Ban,
        ),
        (HoneypotStage::AwaitBan { dm_sent }, HoneypotEvent::Banned) => if dm_sent {
            (HoneypotStage::AwaitButton, HoneypotAction::AwaitButton)
        } else {
            (HoneypotStage::Done, HoneypotAction::Stop)
        },
        (HoneypotStage::AwaitButton, HoneypotEvent::ButtonPressed { answer, image }) => (
            HoneypotStage::AwaitAnswer { answer },
            HoneypotAction::SendChallenge { image },
        ),
        (HoneypotStage::AwaitButton, HoneypotEvent::TimedOut) => (
            HoneypotStage::Done,
            HoneypotAction::Stop,
        ),
        (HoneypotStage::AwaitAnswer { answer }, HoneypotEvent::Replied { content }) => if has_substring(
            content@,
            answer@,
        ) {
            (HoneypotStage::Done, HoneypotAction::Unban)
        } else {
            (HoneypotStage::Done, HoneypotAction::RejectAnswer)
        },
        (HoneypotStage::AwaitAnswer { .. }, HoneypotEvent::TimedOut) => (
            HoneypotStage::Done,
            HoneypotAction::Stop,
        ),
        (s, _) => (s, HoneypotAction::Wait),
    }
}

impl Bot {
    /// One step of handling a message: messages elsewhere than the watched
    /// channel and messages of moderators are left alone; other senders get
    /// the ban message, then the ban; a sender who was reached may press the
    /// button for a captcha, and an answer containing its text lifts the ban.
    pub fn step(&self, stage: HoneypotStage, event: HoneypotEvent) -> (res: (
        HoneypotStage,
        HoneypotAction,
    ))
        ensures
            res == honeypot_next(*self, stage, event),
    {
        match (stage, event) {
            (HoneypotStage::Idle, HoneypotEvent::MessagePosted { channel }) => {
                if channel == self.channel {
                    (HoneypotStage::AwaitPermissions, HoneypotAction::CheckPermissions)
                } else {
                    (HoneypotStage::Done, HoneypotAction::Stop)
                }
            },
            (HoneypotStage::AwaitPermissions, HoneypotEvent::Permissions { bits }) => {
                if has_moderator_permission(bits) {
                    (HoneypotStage::Done, HoneypotAction::Stop)
                } else {
                    (
                        HoneypotStage::AwaitDirectMessage,
                        HoneypotAction::SendDirectMessage { text: self.ban_message.clone() },
                    )
                }
            },
            (HoneypotStage::AwaitDirectMessage, HoneypotEvent::DirectMessageResult { sent }) => (
                HoneypotStage::AwaitBan { dm_sent: sent },
                HoneypotAction::Ban,
            ),
            (HoneypotStage::AwaitBan { dm_sent }, HoneypotEvent::Banned) => {
                if dm_sent {
                    (HoneypotStage::AwaitButton, HoneypotAction::AwaitButton)
                } else {
                    (HoneypotStage::Done, HoneypotAction::Stop)
                }
            },
            (HoneypotStage::AwaitButton, HoneypotEvent::ButtonPressed { answer, image }) => (
                HoneypotStage::AwaitAnswer { answer },
                HoneypotAction::SendChallenge { image },
            ),
            (HoneypotStage::AwaitButton, HoneypotEvent::TimedOut) => (
                HoneypotStage::Done,
                HoneypotAction::Stop,
            ),
            (HoneypotStage::AwaitAnswer { answer }, HoneypotEvent::Replied { content }) => {
                if contains_text(content.as_str(), answer.as_str()) {
                    (HoneypotStage::Done, HoneypotAction::Unban)
                } else {
                    (HoneypotStage::Done, HoneypotAction::RejectAnswer)
                }
            },
            (HoneypotStage::AwaitAnswer { answer }, HoneypotEvent::TimedOut) => (
                HoneypotStage::Done,
                HoneypotAction::Stop,
            ),
            (s, _) => (s, HoneypotAction::Wait),
        }
    }
}

} // verus!
