//! Trusted keys and the privileges granted to them.

use crate::crypto::key::{PublicKey, PublicKeyView};
use vstd::prelude::*;

verus! {

/// An authorization that a trusted key may hold. A key may hold none, one or
/// both.
#[derive(Clone, Copy, Debug, PartialEq, Eq, Structural)]
pub enum Privilege {
    /// Ordinary actions of the publishing kind.
    Commit,
    /// Changing the set of trusted keys itself.
    Rotate,
}

/// A trust record as a mathematical value.
pub struct TrustRecordView {
    /// The trusted key.
    pub key: PublicKeyView,
    /// Whether the key holds `Privilege::Commit`.
    pub can_commit: bool,
    /// Whether the key holds `Privilege::Rotate`.
    pub can_rotate: bool,
}

impl TrustRecordView {
    /// Whether the record's key holds `privilege`.
    pub open spec fn holds(self, privilege: Privilege) -> bool {
        match privilege {
            Privilege::Commit => self.can_commit,
            Privilege::Rotate => self.can_rotate,
        }
    }

    /// The set of privileges that the record's key holds.
    pub open spec fn privileges(self) -> Set<Privilege> {
        Set::new(|privilege: Privilege| self.holds(privilege))
    }
}

/// The record that a key and the grants of a configuration entry make: a
/// grant that is left out is not given.
pub open spec fn record_of(
    key: PublicKeyView,
    can_commit: Option<bool>,
    can_rotate: Option<bool>,
) -> TrustRecordView {
    TrustRecordView {
        key,
        can_commit: can_commit == Some(true),
        can_rotate: can_rotate == Some(true),
    }
}

/// One trusted key with the privileges granted to it.
#[derive(Clone, Debug, PartialEq, Eq)]
pub struct TrustRecord {
    key: PublicKey,
    can_commit: bool,
    can_rotate: bool,
}

impl View for TrustRecord {
    type V = TrustRecordView;

    closed spec fn view(&self) -> TrustRecordView {
        TrustRecordView {
            key: self.key@,
            can_commit: self.can_commit,
            can_rotate: self.can_rotate,
        }
    }
}

impl TrustRecord {
    /// A record for `key` with the grants given; a grant that is left out is
    /// not given.
    pub fn new(key: PublicKey, can_commit: Option<bool>, can_rotate: Option<bool>) -> (record:
        TrustRecord)
        ensures
            record@ == record_of(key@, can_commit, can_rotate),
            can_commit is None ==> !record@.holds(Privilege::Commit),
            can_rotate is None ==> !record@.holds(Privilege::Rotate),
    {
        let commit = match can_commit {
            Some(granted) => granted,
            None => false,
        };
        let rotate = match can_rotate {
            Some(granted) => granted,
            None => false,
        };
        TrustRecord { key, can_commit: commit, can_rotate: rotate }
    }

    /// The trusted key.
    pub fn key(&self) -> (key: &PublicKey)
        ensures
            key@ == self@.key,
    {
        &self.key
    }

    /// Whether the key holds `privilege`.
    pub fn privileged(&self, privilege: Privilege) -> (held: bool)
        ensures
            held == self@.holds(privilege),
    {
        match privilege {
            Privilege::Commit => self.can_commit,
            Privilege::Rotate => self.can_rotate,
        }
    }

    /// Whether two records hold the same key and the same grants.
    pub fn same_as(&self, other: &TrustRecord) -> (same: bool)
        ensures
            same == (self@ == other@),
    {
        self.can_commit == other.can_commit && self.can_rotate == other.can_rotate
            && self.key.same_as(&other.key)
    }

    /// A record made without grants holds no privilege.
    pub proof fn lemma_no_grant_no_privilege(key: PublicKeyView)
        ensures
            record_of(key, None, None).privileges() == Set::<Privilege>::empty(),
            forall|privilege: Privilege| !record_of(key, None, None).holds(privilege),
    {
        assert(record_of(key, None, None).privileges() =~= Set::<Privilege>::empty());
    }
}

} // verus!
