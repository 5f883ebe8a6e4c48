//! The process-wide connection state: none, or exactly one active client
//! handle. Every operation reads the handle through here, and one that
//! finds none fails fast with the not-connected error, before any I/O.
use vstd::prelude::*;
use crate::client::GotifyClient;
use crate::errors::GotifyError;

verus! {

/// No connection, or one fully written handle. The caller serializes
/// access (one writer at a time), so readers always see a whole handle.
pub struct ConnectionState {
    client: Option<GotifyClient>,
}

impl ConnectionState {
    /// The current handle, if any.
    pub closed spec fn spec_client(&self) -> Option<GotifyClient> {
        self.client
    }

    /// Starts with no connection.
    pub fn new() -> (r: ConnectionState)
        ensures
            r.spec_client() is None,
    {
        ConnectionState { client: None }
    }

    /// Installs a handle, replacing any previous one wholesale.
    pub fn set_client(&mut self, client: GotifyClient)
        ensures
            final(self).spec_client() == Some(client),
    {
        self.client = Some(client);
    }

    /// Clears the handle on disconnect.
    pub fn clear_client(&mut self)
        ensures
            final(self).spec_client() is None,
    {
        self.client = None;
    }

    /// The active handle, or the not-connected error where there is none.
    pub fn get_client(&self) -> (r: Result<&GotifyClient, GotifyError>)
        ensures
            match r {
                Ok(c) => self.spec_client() == Some(*c),
                Err(e) => self.spec_client() is None && e matches GotifyError::NotConnected,
            },
    {
        match &self.client {
            Some(c) => Ok(c),
            None => Err(GotifyError::NotConnected),
        }
    }

    /// Whether a connection is active.
    pub fn is_connected(&self) -> (r: bool)
        ensures
            r == (self.spec_client() is Some),
    {
        match &self.client {
            Some(_) => true,
            None => false,
        }
    }
}

} // verus!
