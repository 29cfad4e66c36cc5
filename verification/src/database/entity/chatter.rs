//! Someone who has written to the chat.

use vstd::prelude::*;
use crate::clock::now_millis;

verus! {

#[derive(Debug, PartialEq, Eq)]
pub struct Chatter {
    pub login: String,
    pub name: String,
    /// When the row was made, in milliseconds since the Unix epoch.
    pub created_at: i64,
    pub version: i16,
}

pub struct ChatterView {
    pub login: Seq<char>,
    pub name: Seq<char>,
    pub created_at: i64,
    pub version: i16,
}

impl View for Chatter {
    type V = ChatterView;

    open spec fn view(&self) -> ChatterView {
        ChatterView {
            login: self.login@,
            name: self.name@,
            created_at: self.created_at,
            version: self.version,
        }
    }
}

impl Chatter {
    /// The version of the row layout that new rows are written in.
    pub const CURRENT_VERSION: i16 = 1;

    /// A row made at `created_at`, in the current version.
    pub fn created(login: String, name: String, created_at: i64) -> (row: Self)
        ensures
            row@ == (ChatterView { login: login@, name: name@, created_at, version: 1 }),
    {
        Self { login, name, created_at, version: Chatter::CURRENT_VERSION }
    }

    /// A row made now, in the current version.
    pub fn new(login: String, name: String) -> (row: Self)
        ensures
            row.login@ == login@,
            row.name@ == name@,
            row.version == 1,
    {
        Chatter::created(login, name, now_millis())
    }
}

} // verus!
