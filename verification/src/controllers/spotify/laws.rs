//! What holds of whole transfers, whatever the streaming service answers.

use vstd::prelude::*;
use crate::controllers::spotify::{
    CONVERGENCE_DELAY_MILLIS, Device, DeviceNormalized, MAX_CONVERGENCE_ATTEMPTS,
    MAX_VOLUME_PERCENT, TransferAction, TransferError, TransferEvent, TransferPhase,
    clamp_percent_spec, find_device_spec, finish_spec, has_converged, is_first_malformed,
    is_first_named, lemma_first_named_unique, normalize_devices_spec, step_spec,
};

verus! {

/// A whole run: the phase reached from `phase` when `events` arrive one
/// after the other, and the calls asked for on the way, one per event.
pub open spec fn run_spec(
    sync_volume: bool,
    name: Seq<char>,
    phase: TransferPhase,
    events: Seq<TransferEvent>,
) -> (TransferPhase, Seq<TransferAction>)
    decreases events.len(),
{
    if events.len() == 0 {
        (phase, Seq::empty())
    } else {
        let first = step_spec(sync_volume, name, phase, events[0]);
        let rest = run_spec(sync_volume, name, first.0, events.drop_first());
        (rest.0, seq![first.1] + rest.1)
    }
}

/// Whether every entry of a listing has its id and its volume.
pub open spec fn all_well_formed(listing: Seq<Device>) -> bool {
    forall|i: int| 0 <= i < listing.len() ==> (#[trigger] listing[i]).normalize_spec() is Ok
}

/// The calls to the service that change something or take time.
pub enum CallKind {
    Transfer,
    Poll,
    VolumeSet,
}

/// Whether an action asks for a call of the given kind.
pub open spec fn is_call(action: TransferAction, kind: CallKind) -> bool {
    match kind {
        CallKind::Transfer => action is TransferPlayback,
        CallKind::Poll => action is SleepThenFetchPlayback,
        CallKind::VolumeSet => action is SetVolume,
    }
}

/// How many of the actions ask for a call of the given kind.
pub open spec fn count_calls(actions: Seq<TransferAction>, kind: CallKind) -> nat
    decreases actions.len(),
{
    if actions.len() == 0 {
        0
    } else {
        count_calls(actions.drop_last(), kind) + if is_call(actions.last(), kind) {
            1nat
        } else {
            0nat
        }
    }
}

/// How many calls of the given kind a transfer may still ask for.
pub open spec fn calls_left(sync_volume: bool, phase: TransferPhase, kind: CallKind) -> nat {
    match phase {
        TransferPhase::Idle | TransferPhase::Finished { .. } | TransferPhase::AwaitingVolume => 0,
        TransferPhase::AwaitingDevices | TransferPhase::AwaitingPlayback { .. } => match kind {
            CallKind::Transfer => 1,
            CallKind::Poll => if sync_volume {
                MAX_CONVERGENCE_ATTEMPTS as nat
            } else {
                0
            },
            CallKind::VolumeSet => if sync_volume {
                1
            } else {
                0
            },
        },
        TransferPhase::AwaitingTransfer { .. } => match kind {
            CallKind::Transfer => 0,
            CallKind::Poll => if sync_volume {
                MAX_CONVERGENCE_ATTEMPTS as nat
            } else {
                0
            },
            CallKind::VolumeSet => if sync_volume {
                1
            } else {
                0
            },
        },
        TransferPhase::Polling { attempt, .. } => match kind {
            CallKind::Transfer => 0,
            CallKind::Poll => if attempt < MAX_CONVERGENCE_ATTEMPTS {
                (MAX_CONVERGENCE_ATTEMPTS - attempt) as nat
            } else {
                0
            },
            CallKind::VolumeSet => 1,
        },
    }
}

/// A listing whose entries are all well formed is normalized entry by entry.
pub proof fn lemma_well_formed_listing(listing: Seq<Device>)
    requires
        all_well_formed(listing),
    ensures
        normalize_devices_spec(listing) matches Ok(devices) && devices.len() == listing.len()
            && forall|i: int|
            0 <= i < listing.len() ==> listing[i].normalize_spec() == Ok::<
                DeviceNormalized,
                TransferError,
            >(#[trigger] devices[i]),
{
    assert(!exists|k: int| is_first_malformed(listing, k));
}

/// Every event is answered by one action.
pub proof fn lemma_run_answers_each_event(
    sync_volume: bool,
    name: Seq<char>,
    phase: TransferPhase,
    events: Seq<TransferEvent>,
)
    ensures
        run_spec(sync_volume, name, phase, events).1.len() == events.len(),
    decreases events.len(),
{
    if events.len() > 0 {
        let first = step_spec(sync_volume, name, phase, events[0]);
        lemma_run_answers_each_event(sync_volume, name, first.0, events.drop_first());
    }
}

/// A finished transfer stays finished: whatever arrives, it asks for no
/// further call and keeps its outcome.
pub proof fn lemma_finished_stays_finished(
    sync_volume: bool,
    name: Seq<char>,
    outcome: Result<(), TransferError>,
    events: Seq<TransferEvent>,
)
    ensures
        run_spec(sync_volume, name, TransferPhase::Finished { outcome }, events).0
            == (TransferPhase::Finished { outcome }),
        run_spec(sync_volume, name, TransferPhase::Finished { outcome }, events).1.len()
            == events.len(),
        forall|k: int|
            0 <= k < events.len() ==> #[trigger] run_spec(
                sync_volume,
                name,
                TransferPhase::Finished { outcome },
                events,
            ).1[k] == (TransferAction::Finish { outcome }),
    decreases events.len(),
{
    if events.len() > 0 {
        lemma_finished_stays_finished(sync_volume, name, outcome, events.drop_first());
    }
}

/// A transfer to a name that no online device bears fails with
/// `DeviceNotFound` as soon as the listing arrives: the only call ever made
/// is the listing itself, and no transfer or volume call follows, whatever
/// arrives later.
pub proof fn lemma_unknown_target_is_not_found(
    sync_volume: bool,
    name: Seq<char>,
    listing: Vec<Device>,
    events: Seq<TransferEvent>,
)
    requires
        events.len() >= 1,
        events[0] == TransferEvent::Devices(listing),
        all_well_formed(listing@),
        forall|i: int| 0 <= i < listing@.len() ==> (#[trigger] listing@[i]).name@ != name,
    ensures
        run_spec(sync_volume, name, TransferPhase::AwaitingDevices, events).0
            == (TransferPhase::Finished { outcome: Err(TransferError::DeviceNotFound) }),
        forall|k: int|
            0 <= k < events.len() ==> #[trigger] run_spec(
                sync_volume,
                name,
                TransferPhase::AwaitingDevices,
                events,
            ).1[k] == (TransferAction::Finish { outcome: Err(TransferError::DeviceNotFound) }),
{
    lemma_well_formed_listing(listing@);
    let devices = normalize_devices_spec(listing@)->Ok_0;
    assert forall|i: int| !is_first_named(devices, name, i) by {
        if 0 <= i < devices.len() {
            assert(listing@[i].normalize_spec()->Ok_0 == devices[i]);
        }
    }
    lemma_finished_stays_finished(
        sync_volume,
        name,
        Err(TransferError::DeviceNotFound),
        events.drop_first(),
    );
}

/// A transfer to the device that is playing already makes no transfer call
/// and no volume call and succeeds: once the listing and the playback state
/// have arrived, every action is `Finish` with `Ok`.
///
/// The target is the first listed device that bears the target name; it is
/// the one that is playing when the two ids are equal.
pub proof fn lemma_target_already_playing(
    sync_volume: bool,
    name: Seq<char>,
    listing: Vec<Device>,
    target: int,
    current: Device,
    events: Seq<TransferEvent>,
)
    requires
        events.len() >= 2,
        events[0] == TransferEvent::Devices(listing),
        events[1] == TransferEvent::Playback(Some(current)),
        all_well_formed(listing@),
        0 <= target < listing@.len(),
        listing@[target].name@ == name,
        forall|j: int| 0 <= j < target ==> (#[trigger] listing@[j]).name@ != name,
        current.normalize_spec() is Ok,
        current.id->0@ == listing@[target].id->0@,
    ensures
        run_spec(sync_volume, name, TransferPhase::AwaitingDevices, events).0
            == (TransferPhase::Finished { outcome: Ok(()) }),
        run_spec(sync_volume, name, TransferPhase::AwaitingDevices, events).1[0]
            == TransferAction::FetchPlayback,
        forall|k: int|
            1 <= k < events.len() ==> #[trigger] run_spec(
                sync_volume,
                name,
                TransferPhase::AwaitingDevices,
                events,
            ).1[k] == (TransferAction::Finish { outcome: Ok(()) }),
{
    lemma_well_formed_listing(listing@);
    let devices = normalize_devices_spec(listing@)->Ok_0;
    assert(is_first_named(devices, name, target)) by {
        assert(listing@[target].normalize_spec()->Ok_0 == devices[target]);
        assert forall|j: int| 0 <= j < target implies (#[trigger] devices[j]).name@ != name by {
            assert(listing@[j].normalize_spec()->Ok_0 == devices[j]);
        }
    }
    lemma_first_named_unique(devices, name, target);
    let first = step_spec(sync_volume, name, TransferPhase::AwaitingDevices, events[0]);
    assert(first.0 == (TransferPhase::AwaitingPlayback { target_id: devices[target].id }));
    let rest = events.drop_first();
    assert(rest[0] == events[1]);
    let second = step_spec(sync_volume, name, first.0, rest[0]);
    assert(second == finish_spec(Ok(())));
    lemma_finished_stays_finished(sync_volume, name, Ok(()), rest.drop_first());
    let tail = run_spec(sync_volume, name, second.0, rest.drop_first());
    let after_first = run_spec(sync_volume, name, first.0, rest);
    assert(after_first.1 == seq![second.1] + tail.1);
    let run = run_spec(sync_volume, name, TransferPhase::AwaitingDevices, events);
    assert(run.1 == seq![first.1] + after_first.1);
}

/// Where no two listed devices share a name and the device that is playing
/// is among them, a transfer to the name of the playing device makes no
/// transfer call and no volume call and succeeds.
pub proof fn lemma_target_named_like_playing(
    sync_volume: bool,
    name: Seq<char>,
    listing: Vec<Device>,
    current: Device,
    events: Seq<TransferEvent>,
)
    requires
        events.len() >= 2,
        events[0] == TransferEvent::Devices(listing),
        events[1] == TransferEvent::Playback(Some(current)),
        all_well_formed(listing@),
        current.normalize_spec() is Ok,
        current.name@ == name,
        exists|i: int|
            0 <= i < listing@.len() && (#[trigger] listing@[i]).id->0@ == current.id->0@
                && listing@[i].name@ == current.name@,
        forall|i: int, j: int|
            0 <= i < j < listing@.len() ==> (#[trigger] listing@[i]).name@
                != (#[trigger] listing@[j]).name@,
    ensures
        run_spec(sync_volume, name, TransferPhase::AwaitingDevices, events).0
            == (TransferPhase::Finished { outcome: Ok(()) }),
        run_spec(sync_volume, name, TransferPhase::AwaitingDevices, events).1[0]
            == TransferAction::FetchPlayback,
        forall|k: int|
            1 <= k < events.len() ==> #[trigger] run_spec(
                sync_volume,
                name,
                TransferPhase::AwaitingDevices,
                events,
            ).1[k] == (TransferAction::Finish { outcome: Ok(()) }),
{
    let target = choose|i: int|
        0 <= i < listing@.len() && (#[trigger] listing@[i]).id->0@ == current.id->0@
            && listing@[i].name@ == current.name@;
    lemma_target_already_playing(sync_volume, name, listing, target, current, events);
}

/// The volume is set only when a poll shows the target playing at the
/// source's volume, and only to a volume that the service takes: the
/// source's own, where that is one.
pub proof fn lemma_volume_set_within_range(
    sync_volume: bool,
    name: Seq<char>,
    phase: TransferPhase,
    event: TransferEvent,
)
    ensures
        step_spec(sync_volume, name, phase, event).1 matches TransferAction::SetVolume { percent }
            ==> ({
            &&& percent <= MAX_VOLUME_PERCENT
            &&& phase matches TransferPhase::Polling { source_volume, .. }
            &&& percent == clamp_percent_spec(source_volume)
            &&& reports(name, source_volume, event, true)
        }),
{
}

/// Counting the calls of a run whose first action is known.
proof fn lemma_count_calls_front(first: TransferAction, rest: Seq<TransferAction>, kind: CallKind)
    ensures
        count_calls(seq![first] + rest, kind) == count_calls(rest, kind) + if is_call(first, kind) {
            1nat
        } else {
            0nat
        },
    decreases rest.len(),
{
    let all = seq![first] + rest;
    if rest.len() == 0 {
        assert(all.drop_last() =~= Seq::<TransferAction>::empty());
        assert(count_calls(all.drop_last(), kind) == 0);
    } else {
        assert(all.drop_last() =~= seq![first] + rest.drop_last());
        lemma_count_calls_front(first, rest.drop_last(), kind);
    }
}

/// From any phase, a run asks for no more calls of a kind than the phase
/// leaves open.
pub proof fn lemma_calls_within_what_is_left(
    sync_volume: bool,
    name: Seq<char>,
    phase: TransferPhase,
    events: Seq<TransferEvent>,
    kind: CallKind,
)
    ensures
        count_calls(run_spec(sync_volume, name, phase, events).1, kind) <= calls_left(
            sync_volume,
            phase,
            kind,
        ),
    decreases events.len(),
{
    if events.len() > 0 {
        let first = step_spec(sync_volume, name, phase, events[0]);
        let rest = run_spec(sync_volume, name, first.0, events.drop_first());
        lemma_calls_within_what_is_left(sync_volume, name, first.0, events.drop_first(), kind);
        lemma_count_calls_front(first.1, rest.1, kind);
        assert(calls_left(sync_volume, first.0, kind) + (if is_call(first.1, kind) {
            1nat
        } else {
            0nat
        }) <= calls_left(sync_volume, phase, kind));
    }
}

/// Whatever the service answers, one transfer of playback makes at most one
/// transfer call, polls at most ten times and sets the volume at most once;
/// without volume synchronization it neither polls nor sets the volume.
pub proof fn lemma_calls_are_bounded(
    sync_volume: bool,
    name: Seq<char>,
    events: Seq<TransferEvent>,
)
    ensures
        count_calls(
            run_spec(sync_volume, name, TransferPhase::AwaitingDevices, events).1,
            CallKind::Transfer,
        ) <= 1,
        count_calls(
            run_spec(sync_volume, name, TransferPhase::AwaitingDevices, events).1,
            CallKind::Poll,
        ) <= MAX_CONVERGENCE_ATTEMPTS,
        count_calls(
            run_spec(sync_volume, name, TransferPhase::AwaitingDevices, events).1,
            CallKind::VolumeSet,
        ) <= 1,
        !sync_volume ==> count_calls(
            run_spec(sync_volume, name, TransferPhase::AwaitingDevices, events).1,
            CallKind::Poll,
        ) == 0 && count_calls(
            run_spec(sync_volume, name, TransferPhase::AwaitingDevices, events).1,
            CallKind::VolumeSet,
        ) == 0,
{
    let start = TransferPhase::AwaitingDevices;
    lemma_calls_within_what_is_left(sync_volume, name, start, events, CallKind::Transfer);
    lemma_calls_within_what_is_left(sync_volume, name, start, events, CallKind::Poll);
    lemma_calls_within_what_is_left(sync_volume, name, start, events, CallKind::VolumeSet);
}

/// The action that asks for one more poll.
pub open spec fn poll_again() -> TransferAction {
    TransferAction::SleepThenFetchPlayback { delay_millis: CONVERGENCE_DELAY_MILLIS }
}

/// Whether an event is a playback state whose device is well formed and
/// shows, or does not show, that the transfer has arrived.
pub open spec fn reports(
    name: Seq<char>,
    source_volume: u8,
    event: TransferEvent,
    converged: bool,
) -> bool {
    &&& event matches TransferEvent::Playback(Some(device))
    &&& device.normalize_spec() matches Ok(polled)
    &&& has_converged(name, source_volume, polled) == converged
}

/// While the polled device has not arrived and attempts are left, every poll
/// is answered by another poll: after `polls` such answers to poll number
/// `attempt`, poll number `attempt + polls` is under way.
pub proof fn lemma_unconverged_polls_go_on(
    sync_volume: bool,
    name: Seq<char>,
    source_volume: u8,
    attempt: u8,
    polls: nat,
    events: Seq<TransferEvent>,
)
    requires
        polls <= events.len(),
        attempt + polls <= MAX_CONVERGENCE_ATTEMPTS,
        forall|k: int| 0 <= k < polls ==> reports(name, source_volume, #[trigger] events[k], false),
    ensures
        ({
            let run = run_spec(
                sync_volume,
                name,
                TransferPhase::Polling { source_volume, attempt },
                events,
            );
            let later = run_spec(
                sync_volume,
                name,
                TransferPhase::Polling { source_volume, attempt: (attempt + polls) as u8 },
                events.skip(polls as int),
            );
            &&& run.0 == later.0
            &&& run.1 == Seq::new(polls, |k: int| poll_again()) + later.1
        }),
    decreases polls,
{
    let phase = TransferPhase::Polling { source_volume, attempt };
    let run = run_spec(sync_volume, name, phase, events);
    if polls == 0 {
        assert(events.skip(0) =~= events);
        assert(run.1 =~= Seq::new(0nat, |k: int| poll_again()) + run.1);
    } else {
        assert(reports(name, source_volume, events[0], false));
        let first = step_spec(sync_volume, name, phase, events[0]);
        assert(first.0 == (TransferPhase::Polling { source_volume, attempt: (attempt + 1) as u8 }));
        assert(first.1 == poll_again());
        let rest = events.drop_first();
        assert forall|k: int| 0 <= k < polls - 1 implies reports(
            name,
            source_volume,
            #[trigger] rest[k],
            false,
        ) by {
            assert(rest[k] == events[k + 1]);
        }
        lemma_unconverged_polls_go_on(
            sync_volume,
            name,
            source_volume,
            (attempt + 1) as u8,
            (polls - 1) as nat,
            rest,
        );
        assert(rest.skip(polls - 1) =~= events.skip(polls as int));
        let later = run_spec(
            sync_volume,
            name,
            TransferPhase::Polling { source_volume, attempt: (attempt + polls) as u8 },
            events.skip(polls as int),
        );
        assert(run.1 =~= Seq::new(polls, |k: int| poll_again()) + later.1);
    }
}

/// Where the target is first seen playing at the source's volume on poll
/// number `attempt`, exactly `attempt` polls are made, then the volume is set
/// once, to the source's volume, and the transfer succeeds.
pub proof fn lemma_converges_on_attempt(
    name: Seq<char>,
    source_volume: u8,
    attempt: nat,
    events: Seq<TransferEvent>,
)
    requires
        1 <= attempt <= MAX_CONVERGENCE_ATTEMPTS,
        events.len() == attempt + 2,
        events[0] == TransferEvent::Completed,
        forall|k: int| 1 <= k < attempt ==> reports(name, source_volume, #[trigger] events[k], false),
        reports(name, source_volume, events[attempt as int], true),
        events[attempt as int + 1] == TransferEvent::Completed,
    ensures
        ({
            let run = run_spec(
                true,
                name,
                TransferPhase::AwaitingTransfer { source_volume },
                events,
            );
            &&& run.0 == (TransferPhase::Finished { outcome: Ok(()) })
            &&& run.1.len() == attempt + 2
            &&& forall|k: int| 0 <= k < attempt ==> #[trigger] run.1[k] == poll_again()
            &&& run.1[attempt as int] == (TransferAction::SetVolume {
                percent: clamp_percent_spec(source_volume),
            })
            &&& run.1[attempt as int + 1] == (TransferAction::Finish { outcome: Ok(()) })
        }),
{
    let start = TransferPhase::AwaitingTransfer { source_volume };
    let run = run_spec(true, name, start, events);
    let rest = events.drop_first();
    let polling = run_spec(true, name, TransferPhase::Polling { source_volume, attempt: 1 }, rest);
    assert(run.1 == seq![poll_again()] + polling.1);
    assert forall|k: int| 0 <= k < attempt - 1 implies reports(
        name,
        source_volume,
        #[trigger] rest[k],
        false,
    ) by {
        assert(rest[k] == events[k + 1]);
    }
    lemma_unconverged_polls_go_on(true, name, source_volume, 1, (attempt - 1) as nat, rest);
    let last = rest.skip(attempt - 1);
    assert(last.len() == 2);
    assert(last[0] == events[attempt as int]);
    assert(last[1] == events[attempt as int + 1]);
    let arrived = TransferPhase::Polling { source_volume, attempt: attempt as u8 };
    let end = run_spec(true, name, arrived, last);
    let on_arrival = step_spec(true, name, arrived, last[0]);
    assert(on_arrival.0 == TransferPhase::AwaitingVolume);
    let after_arrival = run_spec(true, name, on_arrival.0, last.drop_first());
    assert(last.drop_first()[0] == last[1]);
    let on_volume = step_spec(true, name, on_arrival.0, last.drop_first()[0]);
    let nothing = run_spec(true, name, on_volume.0, last.drop_first().drop_first());
    assert(nothing.1 =~= Seq::<TransferAction>::empty());
    assert(after_arrival.1 =~= seq![on_volume.1]);
    assert(end.1 =~= seq![on_arrival.1, on_volume.1]);
    assert(polling.1 =~= Seq::new((attempt - 1) as nat, |k: int| poll_again()) + end.1);
}

/// Where no poll ever shows the target playing at the source's volume, the
/// tenth poll is the last: the volume is never set, and the transfer ends
/// without an error all the same.
pub proof fn lemma_gives_up_after_last_attempt(
    name: Seq<char>,
    source_volume: u8,
    events: Seq<TransferEvent>,
)
    requires
        events.len() == MAX_CONVERGENCE_ATTEMPTS + 1,
        events[0] == TransferEvent::Completed,
        forall|k: int|
            1 <= k <= MAX_CONVERGENCE_ATTEMPTS ==> reports(
                name,
                source_volume,
                #[trigger] events[k],
                false,
            ),
    ensures
        ({
            let run = run_spec(
                true,
                name,
                TransferPhase::AwaitingTransfer { source_volume },
                events,
            );
            &&& run.0 == (TransferPhase::Finished { outcome: Ok(()) })
            &&& run.1.len() == MAX_CONVERGENCE_ATTEMPTS + 1
            &&& forall|k: int|
                0 <= k < MAX_CONVERGENCE_ATTEMPTS ==> #[trigger] run.1[k] == poll_again()
            &&& run.1[MAX_CONVERGENCE_ATTEMPTS as int] == (TransferAction::Finish {
                outcome: Ok(()),
            })
        }),
{
    let start = TransferPhase::AwaitingTransfer { source_volume };
    let run = run_spec(true, name, start, events);
    let rest = events.drop_first();
    let polling = run_spec(true, name, TransferPhase::Polling { source_volume, attempt: 1 }, rest);
    assert(run.1 == seq![poll_again()] + polling.1);
    assert forall|k: int| 0 <= k < 9 implies reports(name, source_volume, #[trigger] rest[k], false) by {
        assert(rest[k] == events[k + 1]);
    }
    lemma_unconverged_polls_go_on(true, name, source_volume, 1, 9, rest);
    let last = rest.skip(9);
    assert(last.len() == 1);
    assert(last[0] == events[10]);
    let exhausted = TransferPhase::Polling { source_volume, attempt: 10 };
    let end = run_spec(true, name, exhausted, last);
    let on_last = step_spec(true, name, exhausted, last[0]);
    assert(on_last == finish_spec(Ok(())));
    let nothing = run_spec(true, name, on_last.0, last.drop_first());
    assert(nothing.1 =~= Seq::<TransferAction>::empty());
    assert(end.1 =~= seq![on_last.1]);
    assert(polling.1 =~= Seq::new(9nat, |k: int| poll_again()) + end.1);
}

/// The time that the actions ask to wait, in milliseconds, all together.
pub open spec fn total_delay(actions: Seq<TransferAction>) -> nat
    decreases actions.len(),
{
    if actions.len() == 0 {
        0
    } else {
        total_delay(actions.drop_last()) + match actions.last() {
            TransferAction::SleepThenFetchPlayback { delay_millis } => delay_millis as nat,
            _ => 0nat,
        }
    }
}

/// The delay of a run whose first action is known.
proof fn lemma_total_delay_front(first: TransferAction, rest: Seq<TransferAction>)
    ensures
        total_delay(seq![first] + rest) == total_delay(rest) + total_delay(seq![first]),
    decreases rest.len(),
{
    let all = seq![first] + rest;
    if rest.len() == 0 {
        assert(all =~= seq![first]);
    } else {
        assert(all.drop_last() =~= seq![first] + rest.drop_last());
        lemma_total_delay_front(first, rest.drop_last());
    }
}

/// From any phase, a run waits no longer than the polls that the phase
/// leaves open take.
pub proof fn lemma_delay_within_what_is_left(
    sync_volume: bool,
    name: Seq<char>,
    phase: TransferPhase,
    events: Seq<TransferEvent>,
)
    ensures
        total_delay(run_spec(sync_volume, name, phase, events).1) <= CONVERGENCE_DELAY_MILLIS
            * calls_left(sync_volume, phase, CallKind::Poll),
    decreases events.len(),
{
    if events.len() > 0 {
        let first = step_spec(sync_volume, name, phase, events[0]);
        let rest = run_spec(sync_volume, name, first.0, events.drop_first());
        lemma_delay_within_what_is_left(sync_volume, name, first.0, events.drop_first());
        lemma_total_delay_front(first.1, rest.1);
        let single = seq![first.1];
        assert(single.drop_last() =~= Seq::<TransferAction>::empty());
        assert(total_delay(single.drop_last()) == 0);
        assert(single.last() == first.1);
        assert(total_delay(single) == match first.1 {
            TransferAction::SleepThenFetchPlayback { delay_millis } => delay_millis as nat,
            _ => 0nat,
        });
        assert(calls_left(sync_volume, first.0, CallKind::Poll) + (if is_call(
            first.1,
            CallKind::Poll,
        ) {
            1nat
        } else {
            0nat
        }) <= calls_left(sync_volume, phase, CallKind::Poll));
    }
}

/// Whatever the service answers, one transfer of playback waits two seconds
/// at most, all its polls together.
pub proof fn lemma_delay_is_bounded(sync_volume: bool, name: Seq<char>, events: Seq<TransferEvent>)
    ensures
        total_delay(run_spec(sync_volume, name, TransferPhase::AwaitingDevices, events).1) <= 2000,
{
    lemma_delay_within_what_is_left(sync_volume, name, TransferPhase::AwaitingDevices, events);
}

} // verus!
