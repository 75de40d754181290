//! The credential store: connection profiles by name.

use vstd::prelude::*;
use vstd::hash_map::StringHashMap;
use crate::app::optional_text;

verus! {

/// A connection profile: where to connect and as whom.
pub struct ConnectionOptions {
    pub host: String,
    pub port: u16,
    pub user: String,
    pub db_name: String,
    pub password: Option<String>,
}

/// What a [`ConnectionOptions`] holds.
pub struct ConnectionOptionsView {
    pub host: Seq<char>,
    pub port: u16,
    pub user: Seq<char>,
    pub db_name: Seq<char>,
    pub password: Option<Seq<char>>,
}

impl View for ConnectionOptions {
    type V = ConnectionOptionsView;

    open spec fn view(&self) -> ConnectionOptionsView {
        ConnectionOptionsView {
            host: self.host@,
            port: self.port,
            user: self.user@,
            db_name: self.db_name@,
            password: optional_text(self.password),
        }
    }
}

/// The profiles a user has saved, each under a name of its own.
pub struct CredentialManager {
    pub credentials: StringHashMap<ConnectionOptions>,
}

impl View for CredentialManager {
    type V = Map<Seq<char>, ConnectionOptionsView>;

    open spec fn view(&self) -> Map<Seq<char>, ConnectionOptionsView> {
        self.credentials@.map_values(|options: ConnectionOptions| options@)
    }
}

impl CredentialManager {
    /// A store without profiles.
    pub fn new() -> (manager: CredentialManager)
        ensures
            manager@ == Map::<Seq<char>, ConnectionOptionsView>::empty(),
    {
        let manager = CredentialManager { credentials: StringHashMap::new() };
        assert(manager@ =~= Map::<Seq<char>, ConnectionOptionsView>::empty());
        manager
    }

    /// Saves `options` under `name`, in place of a profile that had that name.
    pub fn add_connection(&mut self, name: String, options: ConnectionOptions)
        ensures
            final(self)@ == old(self)@.insert(name@, options@),
    {
        self.credentials.insert(name, options);
        assert(self@ =~= old(self)@.insert(name@, options@));
    }

    /// The profile saved under `name`, if there is one.
    pub fn get_connection(&self, name: &str) -> (found: Option<&ConnectionOptions>)
        ensures
            match found {
                Some(options) => self@.contains_key(name@) && options@ == self@[name@],
                None => !self@.contains_key(name@),
            },
    {
        self.credentials.get(name)
    }

    /// Removes the profile saved under `name`. Without one nothing changes.
    pub fn remove_connection(&mut self, name: &str)
        ensures
            final(self)@ == old(self)@.remove(name@),
    {
        self.credentials.remove(name);
        assert(self@ =~= old(self)@.remove(name@));
    }
}

} // verus!
