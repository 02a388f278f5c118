//! The configuration file's contents as plain data.

use vstd::prelude::*;

verus! {

/// Everything the configuration file may hold. Each section is optional: a
/// command fails only when a section that it needs is absent.
#[derive(Debug, PartialEq, Eq)]
pub struct Config {
    pub spotify_creds: Option<SpotifyCreds>,
    pub spotify_transfer: Option<SpotifyTransfer>,
    pub volume_sync: Option<VolumeSync>,
}

/// OAuth credentials for the streaming service.
#[derive(Debug, PartialEq, Eq)]
pub struct SpotifyCreds {
    pub spotify_client_id: String,
    pub spotify_client_secret: String,
    pub spotify_redirect_uri: String,
}

/// Display names of the two machines' playback devices.
#[derive(Debug, PartialEq, Eq)]
pub struct SpotifyTransfer {
    pub spotify_name_remote: String,
    pub spotify_name_local: String,
}

/// Where the other machine's volume server listens.
#[derive(Debug, PartialEq, Eq)]
pub struct VolumeSync {
    pub remote_host: String,
    pub remote_port: u16,
}

/// A section that a command needs and the configuration lacks.
#[derive(Debug, Clone, Copy, PartialEq, Eq, Structural)]
pub enum MissingSection {
    SpotifyCreds,
    SpotifyTransfer,
    VolumeSync,
}

impl Config {
    /// The credentials, where the configuration holds them.
    pub fn require_spotify_creds(&self) -> (section: Result<&SpotifyCreds, MissingSection>)
        ensures
            match section {
                Ok(creds) => self.spotify_creds == Some(*creds),
                Err(e) => self.spotify_creds is None && e == MissingSection::SpotifyCreds,
            },
    {
        match &self.spotify_creds {
            Some(creds) => Ok(creds),
            None => Err(MissingSection::SpotifyCreds),
        }
    }

    /// The device names, where the configuration holds them.
    pub fn require_spotify_transfer(&self) -> (section: Result<&SpotifyTransfer, MissingSection>)
        ensures
            match section {
                Ok(names) => self.spotify_transfer == Some(*names),
                Err(e) => self.spotify_transfer is None && e == MissingSection::SpotifyTransfer,
            },
    {
        match &self.spotify_transfer {
            Some(names) => Ok(names),
            None => Err(MissingSection::SpotifyTransfer),
        }
    }

    /// The remote server's address, where the configuration holds it.
    pub fn require_volume_sync(&self) -> (section: Result<&VolumeSync, MissingSection>)
        ensures
            match section {
                Ok(remote) => self.volume_sync == Some(*remote),
                Err(e) => self.volume_sync is None && e == MissingSection::VolumeSync,
            },
    {
        match &self.volume_sync {
            Some(remote) => Ok(remote),
            None => Err(MissingSection::VolumeSync),
        }
    }

    /// A configuration with every section absent, which suffices to run the
    /// volume server.
    pub fn empty() -> (config: Config)
        ensures
            config.spotify_creds is None,
            config.spotify_transfer is None,
            config.volume_sync is None,
    {
        Config { spotify_creds: None, spotify_transfer: None, volume_sync: None }
    }
}

} // verus!
