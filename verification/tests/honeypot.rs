use honeypot::honeypot::{
    generate_captcha, has_moderator_permission, pack_captcha, Bot, HoneypotAction, HoneypotEvent, HoneypotStage,
    DEFAULT_BAN_MESSAGE,
};
use serenity::model::permissions::Permissions;

fn bot() -> Bot {
    Bot::new(1234, Some("banned".to_string()))
}

#[test]
fn default_ban_message() {
    let b = Bot::new(7, None);
    assert_eq!(b.channel, 7);
    assert_eq!(b.ban_message, DEFAULT_BAN_MESSAGE);
    assert!(b.ban_message.starts_with("You have been automatically banned"));
    assert_eq!(Bot::new(7, Some("x".to_string())).ban_message, "x");
}

#[test]
fn moderator_permissions() {
    assert!(has_moderator_permission(Permissions::KICK_MEMBERS.bits()));
    assert!(has_moderator_permission(Permissions::BAN_MEMBERS.bits()));
    assert!(has_moderator_permission(Permissions::ADMINISTRATOR.bits()));
    assert!(has_moderator_permission((Permissions::SEND_MESSAGES | Permissions::BAN_MEMBERS).bits()));
    assert!(!has_moderator_permission((Permissions::SEND_MESSAGES | Permissions::VIEW_CHANNEL).bits()));
    assert!(!has_moderator_permission(0));
}

#[test]
fn other_channel_is_ignored() {
    let (stage, action) = bot().step(HoneypotStage::Idle, HoneypotEvent::MessagePosted { channel: 99 });
    assert!(matches!(stage, HoneypotStage::Done));
    assert!(matches!(action, HoneypotAction::Stop));
}

#[test]
fn moderators_are_spared() {
    let b = bot();
    let (stage, action) = b.step(HoneypotStage::Idle, HoneypotEvent::MessagePosted { channel: 1234 });
    assert!(matches!(action, HoneypotAction::CheckPermissions));
    let (stage, action) = b.step(stage, HoneypotEvent::Permissions { bits: Permissions::ADMINISTRATOR.bits() });
    assert!(matches!(stage, HoneypotStage::Done));
    assert!(matches!(action, HoneypotAction::Stop));
}

#[test]
fn solved_captcha_lifts_the_ban() {
    let b = bot();
    let (stage, _) = b.step(HoneypotStage::Idle, HoneypotEvent::MessagePosted { channel: 1234 });
    let (stage, action) = b.step(stage, HoneypotEvent::Permissions { bits: Permissions::SEND_MESSAGES.bits() });
    assert!(matches!(&action, HoneypotAction::SendDirectMessage { text } if text == "banned"));
    let (stage, action) = b.step(stage, HoneypotEvent::DirectMessageResult { sent: true });
    assert!(matches!(action, HoneypotAction::Ban));
    let (stage, action) = b.step(stage, HoneypotEvent::Banned);
    assert!(matches!(action, HoneypotAction::AwaitButton));
    let (stage, action) = b.step(stage, HoneypotEvent::ButtonPressed { answer: "aB3xYz".to_string(), image: vec![1, 2, 3] });
    assert!(matches!(&action, HoneypotAction::SendChallenge { image } if image == &vec![1, 2, 3]));
    let (stage, action) = b.step(stage, HoneypotEvent::Replied { content: "it says aB3xYz".to_string() });
    assert!(matches!(action, HoneypotAction::Unban));
    let (stage, action) = b.step(stage, HoneypotEvent::Replied { content: "aB3xYz".to_string() });
    assert!(matches!(stage, HoneypotStage::Done));
    assert!(matches!(action, HoneypotAction::Wait));
}

#[test]
fn wrong_answer_keeps_the_ban() {
    let b = bot();
    let stage = HoneypotStage::AwaitAnswer { answer: "aB3xYz".to_string() };
    let (stage, action) = b.step(stage, HoneypotEvent::Replied { content: "ab3xyz".to_string() });
    assert!(matches!(stage, HoneypotStage::Done));
    assert!(matches!(action, HoneypotAction::RejectAnswer));
}

#[test]
fn unreached_user_gets_no_captcha() {
    let b = bot();
    let (stage, action) = b.step(HoneypotStage::AwaitDirectMessage, HoneypotEvent::DirectMessageResult { sent: false });
    assert!(matches!(action, HoneypotAction::Ban));
    let (stage, action) = b.step(stage, HoneypotEvent::Banned);
    assert!(matches!(stage, HoneypotStage::Done));
    assert!(matches!(action, HoneypotAction::Stop));
}

#[test]
fn timeouts_end_the_captcha() {
    let b = bot();
    let (stage, action) = b.step(HoneypotStage::AwaitButton, HoneypotEvent::TimedOut);
    assert!(matches!(stage, HoneypotStage::Done));
    assert!(matches!(action, HoneypotAction::Stop));
    let (stage, action) = b.step(HoneypotStage::AwaitAnswer { answer: "x".to_string() }, HoneypotEvent::TimedOut);
    assert!(matches!(stage, HoneypotStage::Done));
    assert!(matches!(action, HoneypotAction::Stop));
}

#[test]
fn fresh_captcha() {
    let (text, png) = generate_captcha().expect("the captcha encodes");
    assert_eq!(text.chars().count(), 6);
    assert!(text.chars().all(|c| c.is_ascii_alphanumeric() && !"01IiLlOo".contains(c)));
    assert_eq!(&png[..8], &[0x89, b'P', b'N', b'G', 0x0d, 0x0a, 0x1a, 0x0a]);
    assert_eq!(&png[12..16], b"IHDR");
    assert_eq!(u32::from_be_bytes([png[16], png[17], png[18], png[19]]), 220);
    assert_eq!(u32::from_be_bytes([png[20], png[21], png[22], png[23]]), 80);
    let img = image::load_from_memory(&png).unwrap();
    assert_eq!((img.width(), img.height()), (220, 80));
}

#[test]
fn packed_captcha_encodes_the_given_pixels() {
    let mut pixels = vec![0u8; 220 * 80 * 3];
    pixels[0] = 200;
    pixels[3 * 221 + 2] = 17;
    let (text, png) = pack_captcha("aB3xYz".to_string(), pixels.clone()).expect("a non-empty picture encodes");
    assert_eq!(text, "aB3xYz");
    let img = image::load_from_memory(&png).unwrap().to_rgb8();
    assert_eq!((img.width(), img.height()), (220, 80));
    assert_eq!(img.into_raw(), pixels);
}
