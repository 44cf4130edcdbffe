//! What holds of every run of the honeypot's decisions: the stage reached and
//! the actions asked for after any sequence of reported events.

use vstd::prelude::*;

use crate::honeypot::{honeypot_next, is_moderator, Bot, HoneypotAction, HoneypotEvent, HoneypotStage};
use crate::text::has_substring;

verus! {

/// The stage reached from `stage` once `events` are handled in order.
pub open spec fn honeypot_after(bot: Bot, stage: HoneypotStage, events: Seq<HoneypotEvent>) -> HoneypotStage
    decreases events.len(),
{
    if events.len() == 0 {
        stage
    } else {
        honeypot_next(bot, honeypot_after(bot, stage, events.drop_last()), events.last()).0
    }
}

/// The actions asked for, one per event, when `events` are handled in order from `stage`.
pub open spec fn honeypot_run(bot: Bot, stage: HoneypotStage, events: Seq<HoneypotEvent>) -> Seq<
    HoneypotAction,
>
    decreases events.len(),
{
    if events.len() == 0 {
        Seq::empty()
    } else {
        honeypot_run(bot, stage, events.drop_last()).push(
            honeypot_next(bot, honeypot_after(bot, stage, events.drop_last()), events.last()).1,
        )
    }
}

/// The action for the `i`-th event is the step from the stage the earlier events led to.
pub proof fn lemma_honeypot_run_index(
    bot: Bot,
    stage: HoneypotStage,
    events: Seq<HoneypotEvent>,
    i: int,
)
    requires
        0 <= i < events.len(),
    ensures
        honeypot_run(bot, stage, events).len() == events.len(),
        honeypot_run(bot, stage, events)[i] == honeypot_next(
            bot,
            honeypot_after(bot, stage, events.take(i)),
            events[i],
        ).1,
    decreases events.len(),
{
    lemma_honeypot_run_len(bot, stage, events);
    if i == events.len() - 1 {
        assert(events.take(i) =~= events.drop_last());
    } else {
        lemma_honeypot_run_index(bot, stage, events.drop_last(), i);
        assert(events.drop_last().take(i) =~= events.take(i));
    }
}

proof fn lemma_honeypot_run_len(bot: Bot, stage: HoneypotStage, events: Seq<HoneypotEvent>)
    ensures
        honeypot_run(bot, stage, events).len() == events.len(),
    decreases events.len(),
{
    if events.len() > 0 {
        lemma_honeypot_run_len(bot, stage, events.drop_last());
    }
}

proof fn lemma_honeypot_after_step(
    bot: Bot,
    stage: HoneypotStage,
    events: Seq<HoneypotEvent>,
    i: int,
)
    requires
        0 <= i < events.len(),
    ensures
        honeypot_after(bot, stage, events.take(i + 1)) == honeypot_next(
            bot,
            honeypot_after(bot, stage, events.take(i)),
            events[i],
        ).0,
{
    assert(events.take(i + 1).drop_last() =~= events.take(i));
}

/// Once handling is over, it stays over: every later event is answered with `Wait`.
pub proof fn law_done_is_final(bot: Bot, events: Seq<HoneypotEvent>, i: int)
    requires
        0 <= i < events.len(),
    ensures
        honeypot_after(bot, HoneypotStage::Done, events) == HoneypotStage::Done,
        honeypot_run(bot, HoneypotStage::Done, events)[i] == HoneypotAction::Wait,
    decreases events.len(),
{
    lemma_done_stays(bot, HoneypotStage::Done, events, 0, events.len() as int);
    lemma_done_stays(bot, HoneypotStage::Done, events, 0, i);
    assert(events.take(events.len() as int) =~= events);
    lemma_honeypot_run_index(bot, HoneypotStage::Done, events, i);
}

proof fn lemma_done_stays(bot: Bot, stage: HoneypotStage, events: Seq<HoneypotEvent>, i: int, j: int)
    requires
        0 <= i <= j <= events.len(),
        honeypot_after(bot, stage, events.take(i)) == HoneypotStage::Done,
    ensures
        honeypot_after(bot, stage, events.take(j)) == HoneypotStage::Done,
    decreases j - i,
{
    if j > i {
        lemma_done_stays(bot, stage, events, i, j - 1);
        lemma_honeypot_after_step(bot, stage, events, j - 1);
    }
}

/// A message posted outside the watched channel is left alone: nothing but
/// `Stop` and `Wait` is ever asked for.
pub proof fn law_other_channels_are_ignored(bot: Bot, events: Seq<HoneypotEvent>, i: int)
    requires
        0 <= i < events.len(),
        events[0] matches HoneypotEvent::MessagePosted { channel } && channel != bot.channel,
    ensures
        honeypot_run(bot, HoneypotStage::Idle, events)[i] is Stop || honeypot_run(
            bot,
            HoneypotStage::Idle,
            events,
        )[i] is Wait,
{
    assert(events.take(0) =~= Seq::<HoneypotEvent>::empty());
    lemma_honeypot_after_step(bot, HoneypotStage::Idle, events, 0);
    if i > 0 {
        lemma_done_stays(bot, HoneypotStage::Idle, events, 1, i);
    }
    lemma_honeypot_run_index(bot, HoneypotStage::Idle, events, i);
}

/// The stages entered only after the sender was found not to be a moderator.
pub open spec fn is_punishing(stage: HoneypotStage) -> bool {
    ||| stage is AwaitDirectMessage
    ||| stage is AwaitBan
    ||| stage is AwaitButton
    ||| stage is AwaitAnswer
}

proof fn lemma_punishing_follows_permissions(bot: Bot, events: Seq<HoneypotEvent>, i: int)
    requires
        0 <= i <= events.len(),
        is_punishing(honeypot_after(bot, HoneypotStage::Idle, events.take(i))),
    ensures
        exists|j: int|
            0 <= j < i && (#[trigger] events[j] matches HoneypotEvent::Permissions { bits }
                && !is_moderator(bits)) && honeypot_next(
                bot,
                honeypot_after(bot, HoneypotStage::Idle, events.take(j)),
                events[j],
            ).1 is SendDirectMessage,
    decreases i,
{
    if i == 0 {
        assert(events.take(0) =~= Seq::<HoneypotEvent>::empty());
    } else {
        lemma_honeypot_after_step(bot, HoneypotStage::Idle, events, i - 1);
        let prev = honeypot_after(bot, HoneypotStage::Idle, events.take(i - 1));
        if is_punishing(prev) {
            lemma_punishing_follows_permissions(bot, events, i - 1);
            let j: int = choose|j: int|
                0 <= j < i - 1 && (#[trigger] events[j] matches HoneypotEvent::Permissions { bits }
                    && !is_moderator(bits)) && honeypot_next(
                    bot,
                    honeypot_after(bot, HoneypotStage::Idle, events.take(j)),
                    events[j],
                ).1 is SendDirectMessage;
            assert(0 <= j < i);
        } else {
            assert(events[i - 1] matches HoneypotEvent::Permissions { bits } && !is_moderator(
                bits,
            ));
        }
    }
}

/// Moderators are never banned: a ban is asked for only after the sender's
/// permissions were read and held none of the moderator permissions, and the
/// ban message was sent.
pub proof fn law_only_non_moderators_are_banned(bot: Bot, events: Seq<HoneypotEvent>, i: int)
    requires
        0 <= i < events.len(),
        honeypot_run(bot, HoneypotStage::Idle, events)[i] is Ban,
    ensures
        exists|j: int|
            0 <= j < i && (#[trigger] events[j] matches HoneypotEvent::Permissions { bits }
                && !is_moderator(bits)) && honeypot_run(bot, HoneypotStage::Idle, events)[j]
                is SendDirectMessage,
{
    lemma_honeypot_run_index(bot, HoneypotStage::Idle, events, i);
    lemma_punishing_follows_permissions(bot, events, i);
    let j: int = choose|j: int|
        0 <= j < i && (#[trigger] events[j] matches HoneypotEvent::Permissions { bits }
            && !is_moderator(bits)) && honeypot_next(
            bot,
            honeypot_after(bot, HoneypotStage::Idle, events.take(j)),
            events[j],
        ).1 is SendDirectMessage;
    lemma_honeypot_run_index(bot, HoneypotStage::Idle, events, j);
}

proof fn lemma_answer_follows_challenge(bot: Bot, events: Seq<HoneypotEvent>, i: int)
    requires
        0 <= i <= events.len(),
        honeypot_after(bot, HoneypotStage::Idle, events.take(i)) is AwaitAnswer,
    ensures
        exists|j: int|
            0 <= j < i && (#[trigger] events[j] matches HoneypotEvent::ButtonPressed { answer, image }
                && answer == honeypot_after(bot, HoneypotStage::Idle, events.take(i))->answer)
                && honeypot_next(
                bot,
                honeypot_after(bot, HoneypotStage::Idle, events.take(j)),
                events[j],
            ).1 is SendChallenge,
    decreases i,
{
    if i == 0 {
        assert(events.take(0) =~= Seq::<HoneypotEvent>::empty());
    } else {
        lemma_honeypot_after_step(bot, HoneypotStage::Idle, events, i - 1);
        let prev = honeypot_after(bot, HoneypotStage::Idle, events.take(i - 1));
        if prev is AwaitAnswer {
            lemma_answer_follows_challenge(bot, events, i - 1);
            let j: int = choose|j: int|
                0 <= j < i - 1 && (#[trigger] events[j] matches HoneypotEvent::ButtonPressed {
                    answer,
                    image,
                } && answer == honeypot_after(bot, HoneypotStage::Idle, events.take(i - 1))->answer)
                    && honeypot_next(
                    bot,
                    honeypot_after(bot, HoneypotStage::Idle, events.take(j)),
                    events[j],
                ).1 is SendChallenge;
            assert(0 <= j < i);
        } else {
            assert(prev is AwaitButton);
        }
    }
}

proof fn lemma_captcha_follows_ban(bot: Bot, events: Seq<HoneypotEvent>, i: int)
    requires
        0 <= i <= events.len(),
        honeypot_after(bot, HoneypotStage::Idle, events.take(i)) is AwaitBan
            || honeypot_after(bot, HoneypotStage::Idle, events.take(i)) is AwaitButton
            || honeypot_after(bot, HoneypotStage::Idle, events.take(i)) is AwaitAnswer,
    ensures
        exists|k: int|
            0 <= k < i && #[trigger] honeypot_next(
                bot,
                honeypot_after(bot, HoneypotStage::Idle, events.take(k)),
                events[k],
            ).1 is Ban,
    decreases i,
{
    if i == 0 {
        assert(events.take(0) =~= Seq::<HoneypotEvent>::empty());
    } else {
        lemma_honeypot_after_step(bot, HoneypotStage::Idle, events, i - 1);
        let prev = honeypot_after(bot, HoneypotStage::Idle, events.take(i - 1));
        if prev is AwaitBan || prev is AwaitButton || prev is AwaitAnswer {
            lemma_captcha_follows_ban(bot, events, i - 1);
            let k: int = choose|k: int|
                0 <= k < i - 1 && #[trigger] honeypot_next(
                    bot,
                    honeypot_after(bot, HoneypotStage::Idle, events.take(k)),
                    events[k],
                ).1 is Ban;
            assert(0 <= k < i);
        } else {
            assert(prev is AwaitDirectMessage);
            assert(honeypot_next(bot, prev, events[i - 1]).1 is Ban);
        }
    }
}

/// A ban is lifted only by a reply that contains the text of the captcha
/// shown to the user, after the ban itself.
pub proof fn law_unban_needs_the_captcha_text(bot: Bot, events: Seq<HoneypotEvent>, i: int)
    requires
        0 <= i < events.len(),
        honeypot_run(bot, HoneypotStage::Idle, events)[i] is Unban,
    ensures
        events[i] is Replied,
        exists|j: int|
            0 <= j < i && (#[trigger] events[j] matches HoneypotEvent::ButtonPressed { answer, image }
                && has_substring(events[i]->content@, answer@)) && honeypot_run(
                bot,
                HoneypotStage::Idle,
                events,
            )[j] is SendChallenge,
        exists|k: int|
            0 <= k < i && #[trigger] honeypot_run(bot, HoneypotStage::Idle, events)[k] is Ban,
{
    lemma_honeypot_run_index(bot, HoneypotStage::Idle, events, i);
    let st = honeypot_after(bot, HoneypotStage::Idle, events.take(i));
    assert(st is AwaitAnswer);
    lemma_answer_follows_challenge(bot, events, i);
    let j: int = choose|j: int|
        0 <= j < i && (#[trigger] events[j] matches HoneypotEvent::ButtonPressed { answer, image }
            && answer == st->answer) && honeypot_next(
            bot,
            honeypot_after(bot, HoneypotStage::Idle, events.take(j)),
            events[j],
        ).1 is SendChallenge;
    lemma_honeypot_run_index(bot, HoneypotStage::Idle, events, j);
    lemma_captcha_follows_ban(bot, events, i);
    let k: int = choose|k: int|
        0 <= k < i && #[trigger] honeypot_next(
            bot,
            honeypot_after(bot, HoneypotStage::Idle, events.take(k)),
            events[k],
        ).1 is Ban;
    lemma_honeypot_run_index(bot, HoneypotStage::Idle, events, k);
}

/// One try: once an answer is judged (ban lifted or answer rejected), every
/// later event is answered with `Wait`.
pub proof fn law_one_try(bot: Bot, stage: HoneypotStage, events: Seq<HoneypotEvent>, i: int, j: int)
    requires
        0 <= i < j < events.len(),
        honeypot_run(bot, stage, events)[i] is Unban || honeypot_run(bot, stage, events)[i] is RejectAnswer,
    ensures
        honeypot_run(bot, stage, events)[j] is Wait,
{
    lemma_honeypot_run_index(bot, stage, events, i);
    lemma_honeypot_after_step(bot, stage, events, i);
    lemma_done_stays(bot, stage, events, i + 1, j);
    lemma_honeypot_run_index(bot, stage, events, j);
}

/// An answer that contains the captcha text lifts the ban; any other answer
/// is rejected; a timeout ends the captcha without lifting it.
pub proof fn law_answer_is_judged_by_the_text(bot: Bot, answer: String, content: String)
    ensures
        honeypot_next(
            bot,
            HoneypotStage::AwaitAnswer { answer },
            HoneypotEvent::Replied { content },
        ).1 is Unban <==> has_substring(content@, answer@),
        honeypot_next(
            bot,
            HoneypotStage::AwaitAnswer { answer },
            HoneypotEvent::Replied { content },
        ).1 is RejectAnswer <==> !has_substring(content@, answer@),
        honeypot_next(bot, HoneypotStage::AwaitAnswer { answer }, HoneypotEvent::TimedOut)
            == (HoneypotStage::Done, HoneypotAction::Stop),
{
}

/// A member is a moderator exactly when they hold the kick, the ban or the
/// administrator permission (bits 1, 2 and 3).
pub proof fn law_moderator_permissions(bits: u64)
    ensures
        is_moderator(bits) <==> (bits & 2u64 != 0 || bits & 4u64 != 0 || bits & 8u64 != 0),
{
    assert((bits & 14u64 != 0) <==> (bits & 2u64 != 0 || bits & 4u64 != 0 || bits & 8u64 != 0))
        by (bit_vector);
}

/// A sender holding none of the moderator permissions, whatever else they
/// hold, is sent the configured ban message; a sender holding one of them is
/// left alone.
pub proof fn law_permissions_decide(bot: Bot, bits: u64)
    ensures
        (bits & 2u64 == 0 && bits & 4u64 == 0 && bits & 8u64 == 0) ==> honeypot_next(
            bot,
            HoneypotStage::AwaitPermissions,
            HoneypotEvent::Permissions { bits },
        ) == (
            HoneypotStage::AwaitDirectMessage,
            HoneypotAction::SendDirectMessage { text: bot.ban_message },
        ),
        (bits & 2u64 != 0 || bits & 4u64 != 0 || bits & 8u64 != 0) ==> honeypot_next(
            bot,
            HoneypotStage::AwaitPermissions,
            HoneypotEvent::Permissions { bits },
        ) == (HoneypotStage::Done, HoneypotAction::Stop),
{
    law_moderator_permissions(bits);
}

/// A message in the watched channel from a sender without moderator
/// permissions gets, in order: a permission check, the ban message, the ban.
pub proof fn law_honeypot_bans_non_moderators(bot: Bot, bits: u64, sent: bool)
    requires
        bits & 2u64 == 0 && bits & 4u64 == 0 && bits & 8u64 == 0,
    ensures
        honeypot_run(
            bot,
            HoneypotStage::Idle,
            seq![
                HoneypotEvent::MessagePosted { channel: bot.channel },
                HoneypotEvent::Permissions { bits },
                HoneypotEvent::DirectMessageResult { sent },
            ],
        ) == seq![
            HoneypotAction::CheckPermissions,
            HoneypotAction::SendDirectMessage { text: bot.ban_message },
            HoneypotAction::Ban,
        ],
{
    law_permissions_decide(bot, bits);
    let e = seq![
        HoneypotEvent::MessagePosted { channel: bot.channel },
        HoneypotEvent::Permissions { bits },
        HoneypotEvent::DirectMessageResult { sent },
    ];
    assert(e.drop_last() =~= seq![
        HoneypotEvent::MessagePosted { channel: bot.channel },
        HoneypotEvent::Permissions { bits },
    ]);
    assert(e.drop_last().drop_last() =~= seq![HoneypotEvent::MessagePosted { channel: bot.channel }]);
    assert(e.drop_last().drop_last().drop_last() =~= Seq::<HoneypotEvent>::empty());
    reveal_with_fuel(honeypot_after, 4);
    reveal_with_fuel(honeypot_run, 4);
    assert(honeypot_run(bot, HoneypotStage::Idle, e) =~= seq![
        HoneypotAction::CheckPermissions,
        HoneypotAction::SendDirectMessage { text: bot.ban_message },
        HoneypotAction::Ban,
    ]);
}

/// A banned sender who was reached, pressed the button and replied with a
/// text containing the captcha's answer gets the ban lifted, after being
/// shown the captcha picture.
pub proof fn law_solved_captcha_lifts_the_ban(
    bot: Bot,
    bits: u64,
    answer: String,
    image: Vec<u8>,
    content: String,
)
    requires
        bits & 2u64 == 0 && bits & 4u64 == 0 && bits & 8u64 == 0,
        has_substring(content@, answer@),
    ensures
        honeypot_run(
            bot,
            HoneypotStage::Idle,
            seq![
                HoneypotEvent::MessagePosted { channel: bot.channel },
                HoneypotEvent::Permissions { bits },
                HoneypotEvent::DirectMessageResult { sent: true },
                HoneypotEvent::Banned,
                HoneypotEvent::ButtonPressed { answer, image },
                HoneypotEvent::Replied { content },
            ],
        ) == seq![
            HoneypotAction::CheckPermissions,
            HoneypotAction::SendDirectMessage { text: bot.ban_message },
            HoneypotAction::Ban,
            HoneypotAction::AwaitButton,
            HoneypotAction::SendChallenge { image },
            HoneypotAction::Unban,
        ],
{
    law_permissions_decide(bot, bits);
    let e = seq![
        HoneypotEvent::MessagePosted { channel: bot.channel },
        HoneypotEvent::Permissions { bits },
        HoneypotEvent::DirectMessageResult { sent: true },
        HoneypotEvent::Banned,
        HoneypotEvent::ButtonPressed { answer, image },
        HoneypotEvent::Replied { content },
    ];
    assert(e.take(5) =~= e.drop_last());
    assert(e.take(4) =~= e.drop_last().drop_last());
    assert(e.take(3) =~= e.take(4).drop_last());
    assert(e.take(2) =~= e.take(3).drop_last());
    assert(e.take(1) =~= e.take(2).drop_last());
    assert(e.take(0) =~= e.take(1).drop_last());
    assert(e.take(0) =~= Seq::<HoneypotEvent>::empty());
    reveal_with_fuel(honeypot_after, 7);
    reveal_with_fuel(honeypot_run, 7);
    assert(honeypot_run(bot, HoneypotStage::Idle, e) =~= seq![
        HoneypotAction::CheckPermissions,
        HoneypotAction::SendDirectMessage { text: bot.ban_message },
        HoneypotAction::Ban,
        HoneypotAction::AwaitButton,
        HoneypotAction::SendChallenge { image },
        HoneypotAction::Unban,
    ]);
}

} // verus!
