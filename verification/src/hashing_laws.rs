//! What holds of every run of the decisions that add and remove hashes.

use vstd::prelude::*;

use crate::errors::HashBotError;
use crate::files::{is_image_file, UserFile};
use crate::hashing::{
    add_next, new_entry, HashEntry, delete_next, AddAction, AddEvent, AddStage, DeleteAction, DeleteEvent, DeleteStage,
};

verus! {

/// The stage reached from `stage` once `events` are handled in order.
pub open spec fn add_after(file: UserFile, stage: AddStage, events: Seq<AddEvent>, now: i64) -> AddStage
    decreases events.len(),
{
    if events.len() == 0 {
        stage
    } else {
        add_next(file, add_after(file, stage, events.drop_last(), now), events.last(), now).0
    }
}

/// The actions asked for, one per event, when `events` are handled in order from `stage`.
pub open spec fn add_run(file: UserFile, stage: AddStage, events: Seq<AddEvent>, now: i64) -> Seq<AddAction>
    decreases events.len(),
{
    if events.len() == 0 {
        Seq::empty()
    } else {
        add_run(file, stage, events.drop_last(), now).push(
            add_next(file, add_after(file, stage, events.drop_last(), now), events.last(), now).1,
        )
    }
}

proof fn lemma_add_run_len(file: UserFile, stage: AddStage, events: Seq<AddEvent>, now: i64)
    ensures
        add_run(file, stage, events, now).len() == events.len(),
    decreases events.len(),
{
    if events.len() > 0 {
        lemma_add_run_len(file, stage, events.drop_last(), now);
    }
}

/// The action for the `i`-th event is the step from the stage the earlier events led to.
pub proof fn lemma_add_run_index(file: UserFile, stage: AddStage, events: Seq<AddEvent>, i: int, now: i64)
    requires
        0 <= i < events.len(),
    ensures
        add_run(file, stage, events, now).len() == events.len(),
        add_run(file, stage, events, now)[i] == add_next(
            file,
            add_after(file, stage, events.take(i), now),
            events[i], now,
        ).1,
    decreases events.len(),
{
    lemma_add_run_len(file, stage, events, now);
    if i == events.len() - 1 {
        assert(events.take(i) =~= events.drop_last());
    } else {
        lemma_add_run_index(file, stage, events.drop_last(), i, now);
        assert(events.drop_last().take(i) =~= events.take(i));
    }
}

proof fn lemma_add_after_step(file: UserFile, stage: AddStage, events: Seq<AddEvent>, i: int, now: i64)
    requires
        0 <= i < events.len(),
    ensures
        add_after(file, stage, events.take(i + 1), now) == add_next(
            file,
            add_after(file, stage, events.take(i), now),
            events[i], now,
        ).0,
{
    assert(events.take(i + 1).drop_last() =~= events.take(i));
}

proof fn lemma_add_finished_stays(
    file: UserFile,
    stage: AddStage,
    events: Seq<AddEvent>,
    i: int,
    j: int,
    now: i64,
)
    requires
        0 <= i <= j <= events.len(),
        add_after(file, stage, events.take(i), now) == AddStage::Finished,
    ensures
        add_after(file, stage, events.take(j), now) == AddStage::Finished,
    decreases j - i,
{
    if j > i {
        lemma_add_finished_stays(file, stage, events, i, j - 1, now);
        lemma_add_after_step(file, stage, events, j - 1, now);
    }
}

/// Only images are fetched: a file is fetched exactly when its content type
/// is an image type, and any other file is refused naming its content type.
pub proof fn law_only_images_are_fetched(file: UserFile, now: i64)
    ensures
        add_next(file, AddStage::Start, AddEvent::Begin, now).1 is FetchImage <==> is_image_file(
            file@,
        ),
        !is_image_file(file@) ==> add_next(file, AddStage::Start, AddEvent::Begin, now) == (
            AddStage::Finished,
            AddAction::Report {
                result: Err(HashBotError::InvalidAttachmentFormat { format: file.content_type->0 }),
            },
        ),
{
}

/// A hash already recorded is refused, never recorded again.
pub proof fn law_known_hash_is_refused(file: UserFile, hash: String, now: i64)
    ensures
        add_next(file, AddStage::AwaitLookup { hash }, AddEvent::LookedUp { found: true }, now) == (
            AddStage::Finished,
            AddAction::Report { result: Err(HashBotError::AttachmentAlreadyExists { hash }) },
        ),
{
}

proof fn lemma_lookup_follows_hash(file: UserFile, events: Seq<AddEvent>, i: int, now: i64)
    requires
        0 <= i <= events.len(),
        add_after(file, AddStage::Start, events.take(i), now) is AwaitLookup,
    ensures
        exists|j: int|
            0 <= j < i && #[trigger] events[j] == (AddEvent::Hashed {
                hash: Ok(add_after(file, AddStage::Start, events.take(i), now)->AwaitLookup_hash),
            }) && add_next(file, add_after(file, AddStage::Start, events.take(j), now), events[j], now).1
                == (AddAction::LookUp {
                hash: add_after(file, AddStage::Start, events.take(i), now)->AwaitLookup_hash,
            }),
    decreases i,
{
    if i == 0 {
        assert(events.take(0) =~= Seq::<AddEvent>::empty());
    } else {
        lemma_add_after_step(file, AddStage::Start, events, i - 1, now);
        let prev = add_after(file, AddStage::Start, events.take(i - 1), now);
        if prev is AwaitLookup {
            lemma_lookup_follows_hash(file, events, i - 1, now);
            let j: int = choose|j: int|
                0 <= j < i - 1 && #[trigger] events[j] == (AddEvent::Hashed {
                    hash: Ok(add_after(file, AddStage::Start, events.take(i - 1), now)->AwaitLookup_hash),
                }) && add_next(file, add_after(file, AddStage::Start, events.take(j), now), events[j], now).1
                    == (AddAction::LookUp {
                    hash: add_after(file, AddStage::Start, events.take(i - 1), now)->AwaitLookup_hash,
                });
            assert(0 <= j < i);
        } else {
            assert(prev is AwaitHash);
        }
    }
}

proof fn lemma_insert_stage_follows_insert(file: UserFile, events: Seq<AddEvent>, i: int, now: i64)
    requires
        0 <= i <= events.len(),
        add_after(file, AddStage::Start, events.take(i), now) is AwaitInsert,
    ensures
        exists|j: int|
            0 <= j < i && #[trigger] add_next(
                file,
                add_after(file, AddStage::Start, events.take(j), now),
                events[j], now,
            ).1 == (AddAction::Insert { entry: new_entry(add_after(file, AddStage::Start, events.take(i), now)->AwaitInsert_hash, now) }),
    decreases i,
{
    if i == 0 {
        assert(events.take(0) =~= Seq::<AddEvent>::empty());
    } else {
        lemma_add_after_step(file, AddStage::Start, events, i - 1, now);
        let prev = add_after(file, AddStage::Start, events.take(i - 1), now);
        if prev is AwaitInsert {
            lemma_insert_stage_follows_insert(file, events, i - 1, now);
            let j: int = choose|j: int|
                0 <= j < i - 1 && #[trigger] add_next(
                    file,
                    add_after(file, AddStage::Start, events.take(j), now),
                    events[j], now,
                ).1 == (AddAction::Insert { entry: new_entry(add_after(file, AddStage::Start, events.take(i - 1), now)->AwaitInsert_hash, now) });
            assert(0 <= j < i);
        } else {
            assert(prev is AwaitLookup);
            assert(add_next(file, add_after(file, AddStage::Start, events.take(i - 1), now), events[i - 1], now).1
                == (AddAction::Insert { entry: new_entry(add_after(file, AddStage::Start, events.take(i), now)->AwaitInsert_hash, now) }));
        }
    }
}

/// A hash is recorded only after it was computed from the fetched image and
/// looked up, and the lookup found it unrecorded.
pub proof fn law_insert_follows_failed_lookup(file: UserFile, events: Seq<AddEvent>, i: int, now: i64)
    requires
        0 <= i < events.len(),
        add_run(file, AddStage::Start, events, now)[i] is Insert,
    ensures
        events[i] == (AddEvent::LookedUp { found: false }),
        exists|j: int|
            0 <= j < i && #[trigger] events[j] == (AddEvent::Hashed {
                hash: Ok(add_run(file, AddStage::Start, events, now)[i]->Insert_entry.hash),
            }) && add_run(file, AddStage::Start, events, now)[j] == (AddAction::LookUp {
                hash: add_run(file, AddStage::Start, events, now)[i]->Insert_entry.hash,
            }),
{
    lemma_add_run_index(file, AddStage::Start, events, i, now);
    lemma_lookup_follows_hash(file, events, i, now);
    let h = add_after(file, AddStage::Start, events.take(i), now)->AwaitLookup_hash;
    let j: int = choose|j: int|
        0 <= j < i && #[trigger] events[j] == (AddEvent::Hashed { hash: Ok(h) }) && add_next(
            file,
            add_after(file, AddStage::Start, events.take(j), now),
            events[j], now,
        ).1 == (AddAction::LookUp { hash: h });
    lemma_add_run_index(file, AddStage::Start, events, j, now);
}

/// A hash is reported as added only after it was recorded.
pub proof fn law_success_follows_insert(file: UserFile, events: Seq<AddEvent>, i: int, now: i64)
    requires
        0 <= i < events.len(),
        add_run(file, AddStage::Start, events, now)[i] matches AddAction::Report { result: Ok(_) },
    ensures
        exists|j: int|
            0 <= j < i && #[trigger] add_run(file, AddStage::Start, events, now)[j] == (
            AddAction::Insert {
                entry: new_entry(add_run(file, AddStage::Start, events, now)[i]->Report_result->Ok_0, now),
            }),
{
    lemma_add_run_index(file, AddStage::Start, events, i, now);
    lemma_insert_stage_follows_insert(file, events, i, now);
    let h = add_after(file, AddStage::Start, events.take(i), now)->AwaitInsert_hash;
    let j: int = choose|j: int|
        0 <= j < i && #[trigger] add_next(
            file,
            add_after(file, AddStage::Start, events.take(j), now),
            events[j], now,
        ).1 == (AddAction::Insert { entry: new_entry(h, now) });
    lemma_add_run_index(file, AddStage::Start, events, j, now);
}

/// An addition ends once: after its result (or an unreadable image), every
/// later event is answered with `Wait`.
pub proof fn law_add_ends_once(file: UserFile, stage: AddStage, events: Seq<AddEvent>, i: int, j: int, now: i64)
    requires
        0 <= i < j < events.len(),
        add_run(file, stage, events, now)[i] is Report || add_run(file, stage, events, now)[i] is ImageUnreadable,
    ensures
        add_run(file, stage, events, now)[j] is Wait,
{
    lemma_add_run_index(file, stage, events, i, now);
    lemma_add_after_step(file, stage, events, i, now);
    lemma_add_finished_stays(file, stage, events, i + 1, j, now);
    lemma_add_run_index(file, stage, events, j, now);
}

/// The stage reached from `stage` once `events` are handled in order.
pub open spec fn delete_after(hash: String, stage: DeleteStage, events: Seq<DeleteEvent>) -> DeleteStage
    decreases events.len(),
{
    if events.len() == 0 {
        stage
    } else {
        delete_next(hash, delete_after(hash, stage, events.drop_last()), events.last()).0
    }
}

/// The actions asked for, one per event, when `events` are handled in order from `stage`.
pub open spec fn delete_run(hash: String, stage: DeleteStage, events: Seq<DeleteEvent>) -> Seq<
    DeleteAction,
>
    decreases events.len(),
{
    if events.len() == 0 {
        Seq::empty()
    } else {
        delete_run(hash, stage, events.drop_last()).push(
            delete_next(hash, delete_after(hash, stage, events.drop_last()), events.last()).1,
        )
    }
}

proof fn lemma_delete_run_len(hash: String, stage: DeleteStage, events: Seq<DeleteEvent>)
    ensures
        delete_run(hash, stage, events).len() == events.len(),
    decreases events.len(),
{
    if events.len() > 0 {
        lemma_delete_run_len(hash, stage, events.drop_last());
    }
}

/// The action for the `i`-th event is the step from the stage the earlier events led to.
pub proof fn lemma_delete_run_index(
    hash: String,
    stage: DeleteStage,
    events: Seq<DeleteEvent>,
    i: int,
)
    requires
        0 <= i < events.len(),
    ensures
        delete_run(hash, stage, events).len() == events.len(),
        delete_run(hash, stage, events)[i] == delete_next(
            hash,
            delete_after(hash, stage, events.take(i)),
            events[i],
        ).1,
    decreases events.len(),
{
    lemma_delete_run_len(hash, stage, events);
    if i == events.len() - 1 {
        assert(events.take(i) =~= events.drop_last());
    } else {
        lemma_delete_run_index(hash, stage, events.drop_last(), i);
        assert(events.drop_last().take(i) =~= events.take(i));
    }
}

proof fn lemma_delete_after_step(hash: String, stage: DeleteStage, events: Seq<DeleteEvent>, i: int)
    requires
        0 <= i < events.len(),
    ensures
        delete_after(hash, stage, events.take(i + 1)) == delete_next(
            hash,
            delete_after(hash, stage, events.take(i)),
            events[i],
        ).0,
{
    assert(events.take(i + 1).drop_last() =~= events.take(i));
}

proof fn lemma_delete_finished_stays(
    hash: String,
    stage: DeleteStage,
    events: Seq<DeleteEvent>,
    i: int,
    j: int,
)
    requires
        0 <= i <= j <= events.len(),
        delete_after(hash, stage, events.take(i)) == DeleteStage::Finished,
    ensures
        delete_after(hash, stage, events.take(j)) == DeleteStage::Finished,
    decreases j - i,
{
    if j > i {
        lemma_delete_finished_stays(hash, stage, events, i, j - 1);
        lemma_delete_after_step(hash, stage, events, j - 1);
    }
}

proof fn lemma_delete_stage_follows_lookup(hash: String, events: Seq<DeleteEvent>, i: int)
    requires
        0 <= i <= events.len(),
        delete_after(hash, DeleteStage::Start, events.take(i)) is AwaitLookup || delete_after(
            hash,
            DeleteStage::Start,
            events.take(i),
        ) is AwaitDelete,
    ensures
        exists|j: int|
            0 <= j < i && #[trigger] delete_next(
                hash,
                delete_after(hash, DeleteStage::Start, events.take(j)),
                events[j],
            ).1 == (DeleteAction::LookUp { hash }),
    decreases i,
{
    if i == 0 {
        assert(events.take(0) =~= Seq::<DeleteEvent>::empty());
    } else {
        lemma_delete_after_step(hash, DeleteStage::Start, events, i - 1);
        let prev = delete_after(hash, DeleteStage::Start, events.take(i - 1));
        if prev is AwaitLookup || prev is AwaitDelete {
            lemma_delete_stage_follows_lookup(hash, events, i - 1);
            let j: int = choose|j: int|
                0 <= j < i - 1 && #[trigger] delete_next(
                    hash,
                    delete_after(hash, DeleteStage::Start, events.take(j)),
                    events[j],
                ).1 == (DeleteAction::LookUp { hash });
            assert(0 <= j < i);
        } else {
            assert(prev is Start);
            assert(delete_next(
                hash,
                delete_after(hash, DeleteStage::Start, events.take(i - 1)),
                events[i - 1],
            ).1 == (DeleteAction::LookUp { hash }));
        }
    }
}

proof fn lemma_done_delete_follows_delete(hash: String, events: Seq<DeleteEvent>, i: int)
    requires
        0 <= i <= events.len(),
        delete_after(hash, DeleteStage::Start, events.take(i)) is AwaitDelete,
    ensures
        exists|j: int|
            0 <= j < i && #[trigger] delete_next(
                hash,
                delete_after(hash, DeleteStage::Start, events.take(j)),
                events[j],
            ).1 == (DeleteAction::Delete { hash }) && events[j] == (DeleteEvent::LookedUp {
                found: true,
            }),
    decreases i,
{
    if i == 0 {
        assert(events.take(0) =~= Seq::<DeleteEvent>::empty());
    } else {
        lemma_delete_after_step(hash, DeleteStage::Start, events, i - 1);
        let prev = delete_after(hash, DeleteStage::Start, events.take(i - 1));
        if prev is AwaitDelete {
            lemma_done_delete_follows_delete(hash, events, i - 1);
            let j: int = choose|j: int|
                0 <= j < i - 1 && #[trigger] delete_next(
                    hash,
                    delete_after(hash, DeleteStage::Start, events.take(j)),
                    events[j],
                ).1 == (DeleteAction::Delete { hash }) && events[j] == (DeleteEvent::LookedUp {
                    found: true,
                });
            assert(0 <= j < i);
        } else {
            assert(prev is AwaitLookup);
            assert(delete_next(
                hash,
                delete_after(hash, DeleteStage::Start, events.take(i - 1)),
                events[i - 1],
            ).1 == (DeleteAction::Delete { hash }));
        }
    }
}

/// A hash is removed only once a lookup of that very hash found it.
pub proof fn law_delete_follows_found_lookup(hash: String, events: Seq<DeleteEvent>, i: int)
    requires
        0 <= i < events.len(),
        delete_run(hash, DeleteStage::Start, events)[i] is Delete,
    ensures
        delete_run(hash, DeleteStage::Start, events)[i] == (DeleteAction::Delete { hash }),
        events[i] == (DeleteEvent::LookedUp { found: true }),
        exists|j: int|
            0 <= j < i && #[trigger] delete_run(hash, DeleteStage::Start, events)[j] == (
            DeleteAction::LookUp { hash }),
{
    lemma_delete_run_index(hash, DeleteStage::Start, events, i);
    lemma_delete_stage_follows_lookup(hash, events, i);
    let j: int = choose|j: int|
        0 <= j < i && #[trigger] delete_next(
            hash,
            delete_after(hash, DeleteStage::Start, events.take(j)),
            events[j],
        ).1 == (DeleteAction::LookUp { hash });
    lemma_delete_run_index(hash, DeleteStage::Start, events, j);
}

/// A removal is reported as done only after the hash was removed; a hash
/// the lookup did not find is refused with `HashNotFound`.
pub proof fn law_removal_outcome(hash: String, events: Seq<DeleteEvent>, i: int)
    requires
        0 <= i < events.len(),
        delete_run(hash, DeleteStage::Start, events)[i] is Report,
    ensures
        delete_run(hash, DeleteStage::Start, events)[i]->Report_result is Ok ==> exists|j: int|
            0 <= j < i && #[trigger] delete_run(hash, DeleteStage::Start, events)[j] == (
            DeleteAction::Delete { hash }),
        delete_run(hash, DeleteStage::Start, events)[i]->Report_result is Err ==> (
        delete_run(hash, DeleteStage::Start, events)[i]->Report_result == Err::<(), HashBotError>(
            HashBotError::HashNotFound { hash },
        ) && events[i] == (DeleteEvent::LookedUp { found: false })),
{
    lemma_delete_run_index(hash, DeleteStage::Start, events, i);
    let st = delete_after(hash, DeleteStage::Start, events.take(i));
    if st is AwaitDelete {
        lemma_done_delete_follows_delete(hash, events, i);
        let j: int = choose|j: int|
            0 <= j < i && #[trigger] delete_next(
                hash,
                delete_after(hash, DeleteStage::Start, events.take(j)),
                events[j],
            ).1 == (DeleteAction::Delete { hash }) && events[j] == (DeleteEvent::LookedUp {
                found: true,
            });
        lemma_delete_run_index(hash, DeleteStage::Start, events, j);
    }
}

/// A removal ends once: after its result, every later event is answered with `Wait`.
pub proof fn law_delete_ends_once(
    hash: String,
    stage: DeleteStage,
    events: Seq<DeleteEvent>,
    i: int,
    j: int,
)
    requires
        0 <= i < j < events.len(),
        delete_run(hash, stage, events)[i] is Report,
    ensures
        delete_run(hash, stage, events)[j] is Wait,
{
    lemma_delete_run_index(hash, stage, events, i);
    lemma_delete_after_step(hash, stage, events, i);
    lemma_delete_finished_stays(hash, stage, events, i + 1, j);
    lemma_delete_run_index(hash, stage, events, j);
}

/// Adding `file`'s hash against `records`: the caller answers each lookup
/// from `records`, records each entry it is asked to, and hashes the fetched
/// image to `image_hash`. Gives the records and the last action once no
/// further work is asked for (or the `fuel` steps are spent).
pub open spec fn add_against(
    file: UserFile,
    stage: AddStage,
    event: AddEvent,
    records: Map<Seq<char>, HashEntry>,
    image_hash: Result<String, ()>,
    now: i64,
    fuel: nat,
) -> (Map<Seq<char>, HashEntry>, AddAction)
    decreases fuel,
{
    let (next, action) = add_next(file, stage, event, now);
    if fuel == 0 {
        (records, action)
    } else {
        match action {
            AddAction::FetchImage { .. } => add_against(
                file,
                next,
                AddEvent::Hashed { hash: image_hash },
                records,
                image_hash,
                now,
                (fuel - 1) as nat,
            ),
            AddAction::LookUp { hash } => add_against(
                file,
                next,
                AddEvent::LookedUp { found: records.contains_key(hash@) },
                records,
                image_hash,
                now,
                (fuel - 1) as nat,
            ),
            AddAction::Insert { entry } => add_against(
                file,
                next,
                AddEvent::Inserted,
                records.insert(entry.hash@, entry),
                image_hash,
                now,
                (fuel - 1) as nat,
            ),
            _ => (records, action),
        }
    }
}

/// The records after adding `file`'s hash to `records`, and how the addition ends.
pub open spec fn add_outcome(
    file: UserFile,
    records: Map<Seq<char>, HashEntry>,
    image_hash: Result<String, ()>,
    now: i64,
) -> (Map<Seq<char>, HashEntry>, AddAction) {
    add_against(file, AddStage::Start, AddEvent::Begin, records, image_hash, now, 4)
}

/// Removing `hash` against `records`: the caller answers each lookup from
/// `records` and removes what it is asked to.
pub open spec fn delete_against(
    hash: String,
    stage: DeleteStage,
    event: DeleteEvent,
    records: Map<Seq<char>, HashEntry>,
    fuel: nat,
) -> (Map<Seq<char>, HashEntry>, DeleteAction)
    decreases fuel,
{
    let (next, action) = delete_next(hash, stage, event);
    if fuel == 0 {
        (records, action)
    } else {
        match action {
            DeleteAction::LookUp { hash: h } => delete_against(
                hash,
                next,
                DeleteEvent::LookedUp { found: records.contains_key(h@) },
                records,
                (fuel - 1) as nat,
            ),
            DeleteAction::Delete { hash: h } => delete_against(
                hash,
                next,
                DeleteEvent::Deleted,
                records.remove(h@),
                (fuel - 1) as nat,
            ),
            _ => (records, action),
        }
    }
}

/// The records after removing `hash` from `records`, and how the removal ends.
pub open spec fn delete_outcome(hash: String, records: Map<Seq<char>, HashEntry>) -> (
    Map<Seq<char>, HashEntry>,
    DeleteAction,
) {
    delete_against(hash, DeleteStage::Start, DeleteEvent::Begin, records, 3)
}

/// Adding against the records: a non-image is refused with its content type;
/// an unreadable image stops; a hash already recorded is refused and the
/// records stay; a new hash is recorded once (seen once, now) and reported.
pub proof fn law_add_outcome(
    file: UserFile,
    records: Map<Seq<char>, HashEntry>,
    image_hash: Result<String, ()>,
    now: i64,
)
    ensures
        add_outcome(file, records, image_hash, now) == (if !is_image_file(file@) {
            (
                records,
                AddAction::Report {
                    result: Err(
                        HashBotError::InvalidAttachmentFormat { format: file.content_type->0 },
                    ),
                },
            )
        } else {
            match image_hash {
                Err(_) => (records, AddAction::ImageUnreadable),
                Ok(h) => if records.contains_key(h@) {
                    (
                        records,
                        AddAction::Report {
                            result: Err(HashBotError::AttachmentAlreadyExists { hash: h }),
                        },
                    )
                } else {
                    (
                        records.insert(h@, new_entry(h, now)),
                        AddAction::Report { result: Ok(h) },
                    )
                },
            }
        }),
{
    reveal_with_fuel(add_against, 5);
}

/// Removing against the records: a recorded hash is removed, and nothing
/// else; an unrecorded one is refused with `HashNotFound` and the records stay.
pub proof fn law_delete_outcome(hash: String, records: Map<Seq<char>, HashEntry>)
    ensures
        delete_outcome(hash, records) == (if records.contains_key(hash@) {
            (records.remove(hash@), DeleteAction::Report { result: Ok(()) })
        } else {
            (records, DeleteAction::Report { result: Err(HashBotError::HashNotFound { hash }) })
        }),
{
    reveal_with_fuel(delete_against, 4);
}

/// Adding the same image twice: the second addition is refused with the hash
/// recorded by the first, and the records stay as the first left them.
pub proof fn law_adding_twice_refuses(
    file: UserFile,
    records: Map<Seq<char>, HashEntry>,
    image_hash: Result<String, ()>,
    now1: i64,
    now2: i64,
)
    requires
        add_outcome(file, records, image_hash, now1).1 matches AddAction::Report { result: Ok(_) },
    ensures
        add_outcome(file, add_outcome(file, records, image_hash, now1).0, image_hash, now2) == (
            add_outcome(file, records, image_hash, now1).0,
            AddAction::Report {
                result: Err(
                    HashBotError::AttachmentAlreadyExists {
                        hash: add_outcome(file, records, image_hash, now1).1->Report_result->Ok_0,
                    },
                ),
            },
        ),
{
    law_add_outcome(file, records, image_hash, now1);
    law_add_outcome(file, add_outcome(file, records, image_hash, now1).0, image_hash, now2);
}

/// Removing a hash just added gives back the records as they were before.
pub proof fn law_delete_undoes_add(
    file: UserFile,
    records: Map<Seq<char>, HashEntry>,
    image_hash: Result<String, ()>,
    now: i64,
)
    requires
        add_outcome(file, records, image_hash, now).1 matches AddAction::Report { result: Ok(_) },
    ensures
        delete_outcome(
            add_outcome(file, records, image_hash, now).1->Report_result->Ok_0,
            add_outcome(file, records, image_hash, now).0,
        ) == (records, DeleteAction::Report { result: Ok(()) }),
{
    law_add_outcome(file, records, image_hash, now);
    let h = add_outcome(file, records, image_hash, now).1->Report_result->Ok_0;
    let added = add_outcome(file, records, image_hash, now).0;
    law_delete_outcome(h, added);
    assert(added.remove(h@) =~= records);
}

/// Removing a hash twice: the second removal is refused with `HashNotFound`
/// and the records stay as the first left them.
pub proof fn law_deleting_twice_fails(hash: String, records: Map<Seq<char>, HashEntry>)
    requires
        delete_outcome(hash, records).1 matches DeleteAction::Report { result: Ok(_) },
    ensures
        delete_outcome(hash, delete_outcome(hash, records).0) == (
            delete_outcome(hash, records).0,
            DeleteAction::Report { result: Err(HashBotError::HashNotFound { hash }) },
        ),
{
    law_delete_outcome(hash, records);
    law_delete_outcome(hash, delete_outcome(hash, records).0);
}

} // verus!
