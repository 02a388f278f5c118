//! Moving a streaming session to a named playback device, and bringing the
//! new device's volume to that of the old one.
//!
//! The streaming service is reached over the network, so the transfer is
//! written as a machine: it names the call to make next, is handed what the
//! call returned, and decides. [`SpotifyWrapper::step`] is that decision;
//! [`step_spec`] says what it is, and the lemmas in [`laws`] state what
//! follows for whole runs.

use vstd::prelude::*;

pub mod laws;

verus! {

/// How often the playback state is polled, at most, after a transfer.
pub const MAX_CONVERGENCE_ATTEMPTS: u8 = 10;

/// Milliseconds to wait before each poll.
pub const CONVERGENCE_DELAY_MILLIS: u64 = 200;

/// The highest volume that the service takes, in percent.
pub const MAX_VOLUME_PERCENT: u8 = 100;

/// Why a transfer did not succeed.
#[derive(Debug, Clone, Copy, PartialEq, Eq, Structural)]
pub enum TransferError {
    /// No online device bears the target name.
    DeviceNotFound,
    /// The service listed a device without an id.
    MissingDeviceId,
    /// The service listed a device without a volume.
    MissingVolumePercent,
    /// The service reports that nothing is playing.
    NoActivePlayback,
    /// A call to the service failed.
    ExternalApi,
    /// The machine was handed something other than the answer to the call it
    /// had asked for.
    OutOfSequence,
}

/// The kinds of device that the service knows.
#[derive(Debug, Clone, Copy, PartialEq, Eq, Structural)]
pub enum DeviceType {
    Computer,
    Tablet,
    Smartphone,
    Speaker,
    Tv,
    Avr,
    Stb,
    AudioDongle,
    GameConsole,
    CastVideo,
    CastAudio,
    Automobile,
    Unknown,
}

/// A device as the service lists it: id and volume may be absent.
#[derive(Debug, PartialEq, Eq)]
pub struct Device {
    pub id: Option<String>,
    pub is_active: bool,
    pub is_private_session: bool,
    pub is_restricted: bool,
    pub name: String,
    pub _type: DeviceType,
    pub volume_percent: Option<u32>,
}

/// A device whose id and volume are known to be present.
#[derive(Debug, PartialEq, Eq)]
pub struct DeviceNormalized {
    pub id: String,
    pub is_active: bool,
    pub is_private_session: bool,
    pub is_restricted: bool,
    pub name: String,
    pub _type: DeviceType,
    pub volume_percent: u8,
}

impl Device {
    /// The device with its mandatory fields unwrapped, or what is missing.
    /// The id is looked at first. The volume is kept modulo 256.
    pub open spec fn normalize_spec(self) -> Result<DeviceNormalized, TransferError> {
        if self.id is None {
            Err(TransferError::MissingDeviceId)
        } else if self.volume_percent is None {
            Err(TransferError::MissingVolumePercent)
        } else {
            Ok(
                DeviceNormalized {
                    id: self.id->0,
                    is_active: self.is_active,
                    is_private_session: self.is_private_session,
                    is_restricted: self.is_restricted,
                    name: self.name,
                    _type: self._type,
                    volume_percent: (self.volume_percent->0 % 256) as u8,
                },
            )
        }
    }

    /// Rejects a listing entry that lacks its id or its volume, and unwraps
    /// both otherwise.
    pub fn normalize(self) -> (normalized: Result<DeviceNormalized, TransferError>)
        ensures
            normalized == self.normalize_spec(),
    {
        let id = match self.id {
            Some(id) => id,
            None => return Err(TransferError::MissingDeviceId),
        };
        let volume: u32 = match self.volume_percent {
            Some(volume) => volume,
            None => return Err(TransferError::MissingVolumePercent),
        };
        Ok(
            DeviceNormalized {
                id,
                is_active: self.is_active,
                is_private_session: self.is_private_session,
                is_restricted: self.is_restricted,
                name: self.name,
                _type: self._type,
                volume_percent: (volume % 256) as u8,
            },
        )
    }

    /// A copy of the entry, equal to it in every field.
    pub fn duplicate(&self) -> (copy: Device)
        ensures
            copy == *self,
    {
        let id = match &self.id {
            Some(id) => Some(id.clone()),
            None => None,
        };
        Device {
            id,
            is_active: self.is_active,
            is_private_session: self.is_private_session,
            is_restricted: self.is_restricted,
            name: self.name.clone(),
            _type: self._type,
            volume_percent: self.volume_percent,
        }
    }
}

/// Whether `i` is the place of the first entry of `devices` that cannot be
/// normalized.
pub open spec fn is_first_malformed(devices: Seq<Device>, i: int) -> bool {
    &&& 0 <= i < devices.len()
    &&& devices[i].normalize_spec() is Err
    &&& forall|j: int| 0 <= j < i ==> (#[trigger] devices[j]).normalize_spec() is Ok
}

/// A listing normalized entry by entry, in order; or, where an entry cannot
/// be normalized, what the first such entry lacks.
pub open spec fn normalize_devices_spec(devices: Seq<Device>) -> Result<
    Seq<DeviceNormalized>,
    TransferError,
> {
    if exists|i: int| is_first_malformed(devices, i) {
        let i = choose|i: int| is_first_malformed(devices, i);
        Err(devices[i].normalize_spec()->Err_0)
    } else {
        Ok(Seq::new(devices.len(), |k: int| devices[k].normalize_spec()->Ok_0))
    }
}

/// Whether `i` is the place of the first device in `devices` that is called
/// `name`, letter for letter.
pub open spec fn is_first_named(devices: Seq<DeviceNormalized>, name: Seq<char>, i: int) -> bool {
    &&& 0 <= i < devices.len()
    &&& devices[i].name@ == name
    &&& forall|j: int| 0 <= j < i ==> (#[trigger] devices[j]).name@ != name
}

/// The place of the first device called `name`, if there is one.
pub open spec fn find_device_spec(devices: Seq<DeviceNormalized>, name: Seq<char>) -> Option<int> {
    if exists|i: int| is_first_named(devices, name, i) {
        Some(choose|i: int| is_first_named(devices, name, i))
    } else {
        None
    }
}

/// There is one first malformed entry at most.
pub proof fn lemma_first_malformed_unique(devices: Seq<Device>, i: int)
    requires
        is_first_malformed(devices, i),
    ensures
        normalize_devices_spec(devices) == Err::<Seq<DeviceNormalized>, TransferError>(
            devices[i].normalize_spec()->Err_0,
        ),
{
    let k = choose|k: int| is_first_malformed(devices, k);
    if k < i {
        assert(devices[k].normalize_spec() is Ok);
    } else if i < k {
        assert(devices[i].normalize_spec() is Ok);
    }
}

/// There is one first device of a given name at most.
pub proof fn lemma_first_named_unique(devices: Seq<DeviceNormalized>, name: Seq<char>, i: int)
    requires
        is_first_named(devices, name, i),
    ensures
        find_device_spec(devices, name) == Some(i),
{
    let k = choose|k: int| is_first_named(devices, name, k);
    if k < i {
        assert(devices[k].name@ != name);
    } else if i < k {
        assert(devices[i].name@ != name);
    }
}

/// Normalizes a whole listing, and fails on the first entry that lacks a
/// mandatory field.
pub fn normalize_devices(devices: &Vec<Device>) -> (normalized: Result<
    Vec<DeviceNormalized>,
    TransferError,
>)
    ensures
        match normalized {
            Ok(list) => normalize_devices_spec(devices@) == Ok::<
                Seq<DeviceNormalized>,
                TransferError,
            >(list@) && list@.len() == devices@.len() && forall|j: int|
                0 <= j < devices@.len() ==> (#[trigger] devices@[j]).normalize_spec() == Ok::<
                    DeviceNormalized,
                    TransferError,
                >(list@[j]),
            Err(e) => normalize_devices_spec(devices@) == Err::<
                Seq<DeviceNormalized>,
                TransferError,
            >(e) && exists|k: int|
                is_first_malformed(devices@, k) && devices@[k].normalize_spec() == Err::<
                    DeviceNormalized,
                    TransferError,
                >(e),
        },
{
    let mut list: Vec<DeviceNormalized> = Vec::new();
    let mut i: usize = 0;
    while i < devices.len()
        invariant
            i <= devices@.len(),
            list@.len() == i,
            forall|j: int|
                0 <= j < i ==> (#[trigger] devices@[j]).normalize_spec() == Ok::<
                    DeviceNormalized,
                    TransferError,
                >(list@[j]),
        decreases devices@.len() - i,
    {
        match devices[i].duplicate().normalize() {
            Ok(device) => {
                list.push(device);
            },
            Err(e) => {
                proof {
                    lemma_first_malformed_unique(devices@, i as int);
                    assert(is_first_malformed(devices@, i as int));
                }
                return Err(e);
            },
        }
        i += 1;
    }
    proof {
        assert(!exists|k: int| is_first_malformed(devices@, k));
        assert(list@ =~= Seq::new(devices@.len(), |k: int| devices@[k].normalize_spec()->Ok_0));
    }
    Ok(list)
}

/// Finds the first device whose name is exactly `name`.
pub fn find_device(devices: &Vec<DeviceNormalized>, name: &String) -> (found: Option<usize>)
    ensures
        match found {
            Some(i) => is_first_named(devices@, name@, i as int) && find_device_spec(
                devices@,
                name@,
            ) == Some(i as int),
            None => find_device_spec(devices@, name@) is None && forall|j: int|
                0 <= j < devices@.len() ==> (#[trigger] devices@[j]).name@ != name@,
        },
{
    let mut i: usize = 0;
    while i < devices.len()
        invariant
            i <= devices@.len(),
            forall|j: int| 0 <= j < i ==> (#[trigger] devices@[j]).name@ != name@,
        decreases devices@.len() - i,
    {
        if devices[i].name == *name {
            proof {
                lemma_first_named_unique(devices@, name@, i as int);
            }
            return Some(i);
        }
        i += 1;
    }
    None
}

/// The call that the machine asks for next.
#[derive(Debug, PartialEq, Eq)]
pub enum TransferAction {
    /// List the devices that are online now.
    ListDevices,
    /// Fetch the current playback state.
    FetchPlayback,
    /// Move playback to the device with this id.
    TransferPlayback { device_id: String },
    /// Wait for the given time, then fetch the current playback state.
    SleepThenFetchPlayback { delay_millis: u64 },
    /// Set the volume of whichever device is playing now.
    SetVolume { percent: u8 },
    /// Make no further call: the transfer has ended with this outcome.
    Finish { outcome: Result<(), TransferError> },
}

/// What a call returned.
#[derive(Debug, PartialEq, Eq)]
pub enum TransferEvent {
    /// The listing of online devices.
    Devices(Vec<Device>),
    /// The device of the current playback state, or `None` where the service
    /// reports no playback.
    Playback(Option<Device>),
    /// A transfer or a volume call went through.
    Completed,
    /// The call failed.
    Failed,
}

/// How far a transfer has come.
#[derive(Debug, PartialEq, Eq)]
pub enum TransferPhase {
    /// No transfer was asked for yet.
    Idle,
    /// The device listing is awaited.
    AwaitingDevices,
    /// The target is resolved, and the playback state is awaited.
    AwaitingPlayback { target_id: String },
    /// The transfer call is under way; the source played at `source_volume`.
    AwaitingTransfer { source_volume: u8 },
    /// Playback was moved, and poll number `attempt` is under way.
    Polling { source_volume: u8, attempt: u8 },
    /// The volume call is under way.
    AwaitingVolume,
    /// The transfer has ended.
    Finished { outcome: Result<(), TransferError> },
}

/// Ending a transfer: the phase and the action that say so.
pub open spec fn finish_spec(outcome: Result<(), TransferError>) -> (TransferPhase, TransferAction) {
    (TransferPhase::Finished { outcome }, TransferAction::Finish { outcome })
}

/// The decision on a device listing: fail where an entry is malformed or
/// where no device bears the target name, else go on to fetch the playback
/// state with the first device of that name as the target.
pub open spec fn resolve_spec(name: Seq<char>, listing: Seq<Device>) -> (
    TransferPhase,
    TransferAction,
) {
    match normalize_devices_spec(listing) {
        Err(e) => finish_spec(Err(e)),
        Ok(devices) => match find_device_spec(devices, name) {
            None => finish_spec(Err(TransferError::DeviceNotFound)),
            Some(i) => (
                TransferPhase::AwaitingPlayback { target_id: devices[i].id },
                TransferAction::FetchPlayback,
            ),
        },
    }
}

/// The decision on the playback state before the transfer: nothing to do
/// where the target is playing already, else transfer to it and remember the
/// source's volume.
pub open spec fn compare_spec(target_id: String, current: Option<Device>) -> (
    TransferPhase,
    TransferAction,
) {
    match current {
        None => finish_spec(Err(TransferError::NoActivePlayback)),
        Some(device) => match device.normalize_spec() {
            Err(e) => finish_spec(Err(e)),
            Ok(source) => if source.id@ == target_id@ {
                finish_spec(Ok(()))
            } else {
                (
                    TransferPhase::AwaitingTransfer { source_volume: source.volume_percent },
                    TransferAction::TransferPlayback { device_id: target_id },
                )
            },
        },
    }
}

/// Whether a polled device shows that the transfer has arrived: it bears the
/// target name and reports the source's volume.
pub open spec fn has_converged(name: Seq<char>, source_volume: u8, polled: DeviceNormalized) -> bool {
    polled.name@ == name && polled.volume_percent == source_volume
}

/// A volume brought into the range that the service takes.
pub open spec fn clamp_percent_spec(percent: u8) -> u8 {
    if percent > MAX_VOLUME_PERCENT {
        MAX_VOLUME_PERCENT
    } else {
        percent
    }
}

/// The decision on a polled playback state: set the volume once the target
/// is seen playing at the source's volume, poll again while attempts are
/// left, and give up without an error after the last. The volume that is
/// set is the source's, and never above what the service takes.
pub open spec fn converge_spec(
    name: Seq<char>,
    source_volume: u8,
    attempt: u8,
    current: Option<Device>,
) -> (TransferPhase, TransferAction) {
    match current {
        None => finish_spec(Err(TransferError::NoActivePlayback)),
        Some(device) => match device.normalize_spec() {
            Err(e) => finish_spec(Err(e)),
            Ok(polled) => if has_converged(name, source_volume, polled) {
                (
                    TransferPhase::AwaitingVolume,
                    TransferAction::SetVolume { percent: clamp_percent_spec(source_volume) },
                )
            } else if attempt < MAX_CONVERGENCE_ATTEMPTS {
                (
                    TransferPhase::Polling { source_volume, attempt: (attempt + 1) as u8 },
                    TransferAction::SleepThenFetchPlayback {
                        delay_millis: CONVERGENCE_DELAY_MILLIS,
                    },
                )
            } else {
                finish_spec(Ok(()))
            },
        },
    }
}

/// One decision of a transfer of playback to the device called `name`: the
/// phase that follows `phase` when `event` arrives, and the call to make next.
///
/// A failed call ends the transfer with `ExternalApi`, whatever the call was.
/// An event that does not answer the pending call ends it with
/// `OutOfSequence`. A finished transfer stays finished.
pub open spec fn step_spec(
    sync_volume: bool,
    name: Seq<char>,
    phase: TransferPhase,
    event: TransferEvent,
) -> (TransferPhase, TransferAction) {
    match phase {
        TransferPhase::Idle => finish_spec(Err(TransferError::OutOfSequence)),
        TransferPhase::Finished { outcome } => finish_spec(outcome),
        TransferPhase::AwaitingDevices => match event {
            TransferEvent::Devices(listing) => resolve_spec(name, listing@),
            TransferEvent::Failed => finish_spec(Err(TransferError::ExternalApi)),
            _ => finish_spec(Err(TransferError::OutOfSequence)),
        },
        TransferPhase::AwaitingPlayback { target_id } => match event {
            TransferEvent::Playback(current) => compare_spec(target_id, current),
            TransferEvent::Failed => finish_spec(Err(TransferError::ExternalApi)),
            _ => finish_spec(Err(TransferError::OutOfSequence)),
        },
        TransferPhase::AwaitingTransfer { source_volume } => match event {
            TransferEvent::Completed => if sync_volume {
                (
                    TransferPhase::Polling { source_volume, attempt: 1 },
                    TransferAction::SleepThenFetchPlayback {
                        delay_millis: CONVERGENCE_DELAY_MILLIS,
                    },
                )
            } else {
                finish_spec(Ok(()))
            },
            TransferEvent::Failed => finish_spec(Err(TransferError::ExternalApi)),
            _ => finish_spec(Err(TransferError::OutOfSequence)),
        },
        TransferPhase::Polling { source_volume, attempt } => match event {
            TransferEvent::Playback(current) => converge_spec(
                name,
                source_volume,
                attempt,
                current,
            ),
            TransferEvent::Failed => finish_spec(Err(TransferError::ExternalApi)),
            _ => finish_spec(Err(TransferError::OutOfSequence)),
        },
        TransferPhase::AwaitingVolume => match event {
            TransferEvent::Completed => finish_spec(Ok(())),
            TransferEvent::Failed => finish_spec(Err(TransferError::ExternalApi)),
            _ => finish_spec(Err(TransferError::OutOfSequence)),
        },
    }
}

/// A transfer as a mathematical value.
pub struct TransferModel {
    pub target_device_name: Seq<char>,
    pub sync_volume: bool,
    pub phase: TransferPhase,
}

/// The library's side of the streaming service: the one transfer that is
/// under way, if any.
#[derive(Debug)]
pub struct SpotifyWrapper {
    target_device_name: String,
    sync_volume: bool,
    phase: TransferPhase,
}

impl View for SpotifyWrapper {
    type V = TransferModel;

    closed spec fn view(&self) -> TransferModel {
        TransferModel {
            target_device_name: self.target_device_name@,
            sync_volume: self.sync_volume,
            phase: self.phase,
        }
    }
}

/// Brings a volume into the range that the service takes.
pub fn clamp_percent(percent: u8) -> (clamped: u8)
    ensures
        clamped == clamp_percent_spec(percent),
        clamped <= MAX_VOLUME_PERCENT,
        percent <= MAX_VOLUME_PERCENT ==> clamped == percent,
{
    if percent > MAX_VOLUME_PERCENT {
        MAX_VOLUME_PERCENT
    } else {
        percent
    }
}

fn finish(outcome: Result<(), TransferError>) -> (ended: (TransferPhase, TransferAction))
    ensures
        ended == finish_spec(outcome),
{
    (TransferPhase::Finished { outcome }, TransferAction::Finish { outcome })
}

fn resolve(name: &String, listing: &Vec<Device>) -> (decision: (TransferPhase, TransferAction))
    ensures
        decision == resolve_spec(name@, listing@),
{
    match normalize_devices(listing) {
        Err(e) => finish(Err(e)),
        Ok(mut devices) => match find_device(&devices, name) {
            None => finish(Err(TransferError::DeviceNotFound)),
            Some(i) => {
                let target = devices.swap_remove(i);
                (TransferPhase::AwaitingPlayback { target_id: target.id }, TransferAction::FetchPlayback)
            },
        },
    }
}

fn compare(target_id: &String, current: Option<Device>) -> (decision: (
    TransferPhase,
    TransferAction,
))
    ensures
        decision == compare_spec(*target_id, current),
{
    match current {
        None => finish(Err(TransferError::NoActivePlayback)),
        Some(device) => match device.normalize() {
            Err(e) => finish(Err(e)),
            Ok(source) => if source.id == *target_id {
                finish(Ok(()))
            } else {
                (
                    TransferPhase::AwaitingTransfer { source_volume: source.volume_percent },
                    TransferAction::TransferPlayback { device_id: target_id.clone() },
                )
            },
        },
    }
}

fn converge(name: &String, source_volume: u8, attempt: u8, current: Option<Device>) -> (decision: (
    TransferPhase,
    TransferAction,
))
    ensures
        decision == converge_spec(name@, source_volume, attempt, current),
{
    match current {
        None => finish(Err(TransferError::NoActivePlayback)),
        Some(device) => match device.normalize() {
            Err(e) => finish(Err(e)),
            Ok(polled) => if polled.name == *name && polled.volume_percent == source_volume {
                (
                    TransferPhase::AwaitingVolume,
                    TransferAction::SetVolume { percent: clamp_percent(source_volume) },
                )
            } else if attempt < MAX_CONVERGENCE_ATTEMPTS {
                (
                    TransferPhase::Polling { source_volume, attempt: attempt + 1 },
                    TransferAction::SleepThenFetchPlayback {
                        delay_millis: CONVERGENCE_DELAY_MILLIS,
                    },
                )
            } else {
                finish(Ok(()))
            },
        },
    }
}

fn decide(sync_volume: bool, name: &String, phase: &TransferPhase, event: TransferEvent) -> (decision:
    (TransferPhase, TransferAction))
    ensures
        decision == step_spec(sync_volume, name@, *phase, event),
{
    match phase {
        TransferPhase::Idle => finish(Err(TransferError::OutOfSequence)),
        TransferPhase::Finished { outcome } => finish(*outcome),
        TransferPhase::AwaitingDevices => match event {
            TransferEvent::Devices(listing) => resolve(name, &listing),
            TransferEvent::Failed => finish(Err(TransferError::ExternalApi)),
            _ => finish(Err(TransferError::OutOfSequence)),
        },
        TransferPhase::AwaitingPlayback { target_id } => match event {
            TransferEvent::Playback(current) => compare(target_id, current),
            TransferEvent::Failed => finish(Err(TransferError::ExternalApi)),
            _ => finish(Err(TransferError::OutOfSequence)),
        },
        TransferPhase::AwaitingTransfer { source_volume } => match event {
            TransferEvent::Completed => if sync_volume {
                (
                    TransferPhase::Polling { source_volume: *source_volume, attempt: 1 },
                    TransferAction::SleepThenFetchPlayback {
                        delay_millis: CONVERGENCE_DELAY_MILLIS,
                    },
                )
            } else {
                finish(Ok(()))
            },
            TransferEvent::Failed => finish(Err(TransferError::ExternalApi)),
            _ => finish(Err(TransferError::OutOfSequence)),
        },
        TransferPhase::Polling { source_volume, attempt } => match event {
            TransferEvent::Playback(current) => converge(name, *source_volume, *attempt, current),
            TransferEvent::Failed => finish(Err(TransferError::ExternalApi)),
            _ => finish(Err(TransferError::OutOfSequence)),
        },
        TransferPhase::AwaitingVolume => match event {
            TransferEvent::Completed => finish(Ok(())),
            TransferEvent::Failed => finish(Err(TransferError::ExternalApi)),
            _ => finish(Err(TransferError::OutOfSequence)),
        },
    }
}

impl SpotifyWrapper {
    /// A wrapper with no transfer under way.
    pub fn new() -> (wrapper: SpotifyWrapper)
        ensures
            wrapper@.phase == TransferPhase::Idle,
            wrapper@.target_device_name == Seq::<char>::empty(),
            !wrapper@.sync_volume,
    {
        SpotifyWrapper {
            target_device_name: String::new(),
            sync_volume: false,
            phase: TransferPhase::Idle,
        }
    }

    /// The permissions that the library's calls need from the user's
    /// account: to change the playback state, to read it, and to read what
    /// was played recently.
    pub fn scopes() -> (scopes: [&'static str; 3])
        ensures
            scopes@ == seq![
                "user-modify-playback-state",
                "user-read-playback-state",
                "user-read-recently-played",
            ],
    {
        ["user-modify-playback-state", "user-read-playback-state", "user-read-recently-played"]
    }

    /// The listing with every entry normalized, as
    /// [`normalize_devices`] gives it.
    pub fn devices(listing: &Vec<Device>) -> (normalized: Result<
        Vec<DeviceNormalized>,
        TransferError,
    >)
        ensures
            match normalized {
                Ok(list) => normalize_devices_spec(listing@) == Ok::<
                    Seq<DeviceNormalized>,
                    TransferError,
                >(list@),
                Err(e) => normalize_devices_spec(listing@) == Err::<
                    Seq<DeviceNormalized>,
                    TransferError,
                >(e),
            },
    {
        normalize_devices(listing)
    }

    /// Begins the transfer of playback to the device called
    /// `target_device_name`, with or without bringing its volume to the
    /// source's. Whatever was under way is forgotten. The first call to make
    /// is to list the devices.
    pub fn transfer_playback(&mut self, target_device_name: String, sync_volume: bool) -> (action:
        TransferAction)
        ensures
            final(self)@.target_device_name == target_device_name@,
            final(self)@.sync_volume == sync_volume,
            final(self)@.phase == TransferPhase::AwaitingDevices,
            action == TransferAction::ListDevices,
    {
        self.target_device_name = target_device_name;
        self.sync_volume = sync_volume;
        self.phase = TransferPhase::AwaitingDevices;
        TransferAction::ListDevices
    }

    /// Takes what the last call returned and decides on the next, as
    /// [`step_spec`] says.
    pub fn step(&mut self, event: TransferEvent) -> (action: TransferAction)
        ensures
            final(self)@.target_device_name == old(self)@.target_device_name,
            final(self)@.sync_volume == old(self)@.sync_volume,
            (final(self)@.phase, action) == step_spec(
                old(self)@.sync_volume,
                old(self)@.target_device_name,
                old(self)@.phase,
                event,
            ),
    {
        let (next, action) = decide(self.sync_volume, &self.target_device_name, &self.phase, event);
        self.phase = next;
        action
    }

    /// The outcome, once the transfer has ended.
    pub fn outcome(&self) -> (outcome: Option<Result<(), TransferError>>)
        ensures
            outcome == match self@.phase {
                TransferPhase::Finished { outcome } => Some(outcome),
                _ => None,
            },
    {
        match &self.phase {
            TransferPhase::Finished { outcome } => Some(*outcome),
            _ => None,
        }
    }

    /// The number of the poll that is under way, if one is.
    pub fn attempt(&self) -> (attempt: Option<u8>)
        ensures
            attempt == match self@.phase {
                TransferPhase::Polling { attempt, .. } => Some(attempt),
                _ => None,
            },
    {
        match &self.phase {
            TransferPhase::Polling { attempt, .. } => Some(*attempt),
            _ => None,
        }
    }
}

} // verus!
