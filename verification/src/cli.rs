//! What a command line asks for, once its words are read.

use vstd::prelude::*;
use vstd::string::*;
use crate::config::SpotifyTransfer;

verus! {

/// The machine that audio is moved to: this one, or the one at the other end
/// of the network.
#[derive(Debug, Clone, Copy, PartialEq, Eq, Structural)]
pub enum SyncAudioTo {
    Remote,
    Local,
}

/// A target that is neither `local` nor `remote`.
#[derive(Debug, Clone, Copy, PartialEq, Eq, Structural)]
pub struct InvalidTarget;

impl InvalidTarget {
    /// What to tell the user.
    pub fn message(&self) -> (text: &'static str)
        ensures
            text@ == "sync-audio-from must be one of 'local' or 'remote'"@,
    {
        "sync-audio-from must be one of 'local' or 'remote'"
    }
}

/// Which way the volume travels when it is synchronized.
#[derive(Debug, Clone, Copy, PartialEq, Eq, Structural)]
pub enum VolumeFlow {
    /// The remote volume is read and applied here.
    RemoteToLocal,
    /// The volume here is read and applied remotely.
    LocalToRemote,
}

impl SyncAudioTo {
    /// The target that a word names: `local` or `remote`, letter for letter.
    pub open spec fn parse_spec(word: Seq<char>) -> Result<SyncAudioTo, InvalidTarget> {
        if word == "local"@ {
            Ok(SyncAudioTo::Local)
        } else if word == "remote"@ {
            Ok(SyncAudioTo::Remote)
        } else {
            Err(InvalidTarget)
        }
    }

    /// Reads a target from the word that names it.
    pub fn from_str(s: &str) -> (target: Result<SyncAudioTo, InvalidTarget>)
        ensures
            target == Self::parse_spec(s@),
    {
        let word = String::from_str(s);
        if word == String::from_str("local") {
            Ok(SyncAudioTo::Local)
        } else if word == String::from_str("remote") {
            Ok(SyncAudioTo::Remote)
        } else {
            Err(InvalidTarget)
        }
    }

    /// The way the volume travels to reach the target: towards it.
    pub fn volume_flow(&self) -> (flow: VolumeFlow)
        ensures
            flow == match *self {
                SyncAudioTo::Local => VolumeFlow::RemoteToLocal,
                SyncAudioTo::Remote => VolumeFlow::LocalToRemote,
            },
    {
        match self {
            SyncAudioTo::Local => VolumeFlow::RemoteToLocal,
            SyncAudioTo::Remote => VolumeFlow::LocalToRemote,
        }
    }

    /// The name of the target's playback device.
    pub fn device_name<'a>(&self, names: &'a SpotifyTransfer) -> (name: &'a String)
        ensures
            *name == match *self {
                SyncAudioTo::Local => names.spotify_name_local,
                SyncAudioTo::Remote => names.spotify_name_remote,
            },
    {
        match self {
            SyncAudioTo::Local => &names.spotify_name_local,
            SyncAudioTo::Remote => &names.spotify_name_remote,
        }
    }
}

/// Whether a transfer was asked to move anything at all.
pub fn transfers_anything(spotify: bool, sync_volume: bool) -> (any: bool)
    ensures
        any == (spotify || sync_volume),
{
    spotify || sync_volume
}

} // verus!
