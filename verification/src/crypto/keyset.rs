//! The set of trusted keys: loading it from configuration entries.

use crate::crypto::key::{armored_key, key_of, PublicKey, PublicKeyView};
use crate::crypto::record::{record_of, Privilege, TrustRecord, TrustRecordView};
use vstd::prelude::*;

verus! {

/// One entry of the trusted-key configuration: the key as text, and the
/// grants, each of which may be left out.
#[derive(Clone, Debug, PartialEq, Eq)]
pub struct KeyEntry {
    /// The ASCII-armoured OpenPGP public key.
    pub key: String,
    /// Whether the key may commit; `None` where the entry does not say.
    pub can_commit: Option<bool>,
    /// Whether the key may rotate; `None` where the entry does not say.
    pub can_rotate: Option<bool>,
}

/// A configuration entry whose key text has been read: `key` is `None` where
/// the text is no key.
#[derive(Clone, Debug, PartialEq, Eq)]
pub struct ParsedEntry {
    /// The key that the entry's text holds, if it holds one.
    pub key: Option<PublicKey>,
    /// Whether the key may commit; `None` where the entry does not say.
    pub can_commit: Option<bool>,
    /// Whether the key may rotate; `None` where the entry does not say.
    pub can_rotate: Option<bool>,
}

/// A parsed entry as a mathematical value.
pub struct ParsedEntryView {
    /// The key that the entry's text holds, if it holds one.
    pub key: Option<PublicKeyView>,
    /// The entry's commit grant.
    pub can_commit: Option<bool>,
    /// The entry's rotate grant.
    pub can_rotate: Option<bool>,
}

impl View for ParsedEntry {
    type V = ParsedEntryView;

    open spec fn view(&self) -> ParsedEntryView {
        ParsedEntryView {
            key: match self.key {
                Some(key) => Some(key@),
                None => None,
            },
            can_commit: self.can_commit,
            can_rotate: self.can_rotate,
        }
    }
}

/// Why a set of trusted keys could not be loaded.
#[derive(Clone, Copy, Debug, PartialEq, Eq, Structural)]
pub enum LoadError {
    /// The key text of an entry is no key. `entry_index` is the number of
    /// the first such entry, the entries being numbered from one.
    InvalidKeyEncoding { entry_index: usize },
}

/// What reading the key text of `entry` gives.
pub open spec fn parsed(entry: KeyEntry) -> ParsedEntryView {
    ParsedEntryView {
        key: match armored_key(entry.key@) {
            Some(parts) => Some(key_of(parts)),
            None => None,
        },
        can_commit: entry.can_commit,
        can_rotate: entry.can_rotate,
    }
}

/// The record that a parsed entry with a key makes.
pub open spec fn record_of_entry(entry: ParsedEntryView) -> TrustRecordView
    recommends
        entry.key is Some,
{
    record_of(entry.key.unwrap(), entry.can_commit, entry.can_rotate)
}

/// Whether every one of `entries` holds a key.
pub open spec fn all_hold_keys(entries: Seq<ParsedEntryView>) -> bool {
    forall|i: int| 0 <= i < entries.len() ==> (#[trigger] entries[i]).key is Some
}

/// Whether the entry at position `index`, counted from zero, is the first of
/// `entries` that holds no key.
pub open spec fn is_first_without_key(entries: Seq<ParsedEntryView>, index: int) -> bool {
    &&& 0 <= index < entries.len()
    &&& entries[index].key is None
    &&& forall|j: int| 0 <= j < index ==> (#[trigger] entries[j]).key is Some
}

/// The records that entries with keys make, one for each entry, in the order
/// of the entries.
pub open spec fn records_of(entries: Seq<ParsedEntryView>) -> Seq<TrustRecordView> {
    Seq::new(entries.len(), |i: int| record_of_entry(entries[i]))
}

/// What loading entries read as `entries` must give: a set with the records
/// of all the entries where every entry holds a key, else the error that
/// names the first entry that holds none by its number, counted from one.
pub open spec fn is_loaded(
    entries: Seq<ParsedEntryView>,
    loaded: Result<Seq<TrustRecordView>, LoadError>,
) -> bool {
    match loaded {
        Ok(records) => all_hold_keys(entries) && records == records_of(entries),
        Err(LoadError::InvalidKeyEncoding { entry_index }) => entry_index >= 1
            && is_first_without_key(entries, entry_index - 1),
    }
}

/// An ordered collection of trust records, in the order in which they were
/// loaded. It may be empty: then nothing verifies.
#[derive(Clone, Debug, PartialEq, Eq)]
pub struct TrustedKeySet {
    records: Vec<TrustRecord>,
}

impl View for TrustedKeySet {
    type V = Seq<TrustRecordView>;

    closed spec fn view(&self) -> Seq<TrustRecordView> {
        Seq::new(self.records@.len(), |i: int| self.records@[i]@)
    }
}

/// The views of parsed entries.
pub open spec fn entry_views(entries: Seq<ParsedEntry>) -> Seq<ParsedEntryView> {
    Seq::new(entries.len(), |i: int| entries[i]@)
}

/// What reading the key text of each of `entries` gives.
pub open spec fn parsed_all(entries: Seq<KeyEntry>) -> Seq<ParsedEntryView> {
    Seq::new(entries.len(), |i: int| parsed(entries[i]))
}

/// Whether the record of every entry that names no grant holds no
/// privilege.
pub open spec fn least_privilege(
    entries: Seq<ParsedEntryView>,
    records: Seq<TrustRecordView>,
) -> bool {
    forall|index: int|
        0 <= index < entries.len() && index < records.len() && (#[trigger] entries[index]).can_commit
            is None && entries[index].can_rotate is None ==> records[index].privileges()
            == Set::<Privilege>::empty()
}

/// Least privilege: in a loaded set, the record of an entry that names no
/// grant holds no privilege.
pub proof fn lemma_entry_without_grants(entries: Seq<ParsedEntryView>, index: int)
    requires
        all_hold_keys(entries),
        0 <= index < entries.len(),
        entries[index].can_commit is None,
        entries[index].can_rotate is None,
    ensures
        records_of(entries)[index].privileges() == Set::<Privilege>::empty(),
        !records_of(entries)[index].holds(Privilege::Commit),
        !records_of(entries)[index].holds(Privilege::Rotate),
{
    assert(records_of(entries)[index].privileges() =~= Set::<Privilege>::empty());
}

impl TrustedKeySet {
    /// Loads a key set from configuration entries. The key text of each entry
    /// is parsed, in order. Where every text is a key, the set holds a record
    /// for each entry, in the order of the entries, with the grants that the
    /// entry gives and no others. The first text that is no key ends the
    /// loading with an error that names its entry by its number, counted
    /// from one, and no set is made.
    pub fn load(entries: &[KeyEntry]) -> (loaded: Result<TrustedKeySet, LoadError>)
        ensures
            is_loaded(
                parsed_all(entries@),
                match loaded {
                    Ok(set) => Ok(set@),
                    Err(error) => Err(error),
                },
            ),
            loaded matches Ok(set) ==> least_privilege(parsed_all(entries@), set@),
    {
        let mut read: Vec<ParsedEntry> = Vec::new();
        let mut i: usize = 0;
        let mut failed = false;
        while i < entries.len() && !failed
            invariant
                i <= entries.len(),
                read@.len() == (if failed { i + 1 } else { i as int }),
                forall|j: int| 0 <= j < read@.len() ==> (#[trigger] read@[j])@ == parsed(entries@[j]),
                forall|j: int| 0 <= j < i ==> (#[trigger] read@[j]).key is Some,
                failed ==> i < entries.len() && read@[i as int].key is None,
            decreases entries.len() - i + (if failed { 0int } else { 1int }),
        {
            let entry = &entries[i];
            let key = PublicKey::from_ascii_armor(entry.key.as_str());
            if key.is_none() {
                failed = true;
            }
            read.push(
                ParsedEntry { key, can_commit: entry.can_commit, can_rotate: entry.can_rotate },
            );
            if !failed {
                i += 1;
            }
        }
        let ghost views = entry_views(read@);
        let ghost whole = parsed_all(entries@);
        assert(forall|j: int| 0 <= j < views.len() ==> views[j] == whole[j]);
        let loaded = Self::from_parsed(read);
        proof {
            match &loaded {
                Ok(_) => {
                    if failed {
                        assert(views[i as int].key is None);
                    }
                    assert(views =~= whole);
                },
                Err(LoadError::InvalidKeyEncoding { entry_index }) => {
                    assert(views[*entry_index - 1].key is None);
                    assert(forall|j: int|
                        0 <= j < *entry_index - 1 ==> (#[trigger] whole[j]) == views[j]);
                },
            }
        }
        loaded
    }

    /// Makes a key set of entries whose key texts have been read. Where every
    /// entry holds a key, the set holds a record for each entry, in the order
    /// of the entries. The first entry that holds none is reported by its
    /// number, counted from one, and no set is made.
    pub fn from_parsed(entries: Vec<ParsedEntry>) -> (loaded: Result<TrustedKeySet, LoadError>)
        ensures
            is_loaded(
                entry_views(entries@),
                match loaded {
                    Ok(set) => Ok(set@),
                    Err(error) => Err(error),
                },
            ),
            loaded matches Ok(set) ==> least_privilege(entry_views(entries@), set@),
    {
        let ghost views = entry_views(entries@);
        let ghost all = entries@;
        let count = entries.len();
        let mut records: Vec<TrustRecord> = Vec::new();
        for entry in it: entries
            invariant
                it.seq() == all,
                all.len() == count,
                views == entry_views(all),
                records@.len() == it.index(),
                forall|j: int| 0 <= j < it.index() ==> (#[trigger] views[j]).key is Some,
                forall|j: int|
                    0 <= j < it.index() ==> (#[trigger] records@[j])@ == record_of_entry(views[j]),
        {
            let ghost i = it.index() as int;
            assert(views[i] == entry@);
            match entry.key {
                None => {
                    return Err(LoadError::InvalidKeyEncoding { entry_index: records.len() + 1 });
                },
                Some(key) => {
                    records.push(TrustRecord::new(key, entry.can_commit, entry.can_rotate));
                },
            }
        }
        let set = TrustedKeySet { records };
        assert(set@ =~= records_of(views));
        assert forall|index: int|
            0 <= index < views.len() && (#[trigger] views[index]).can_commit is None
                && views[index].can_rotate is None implies set@[index].privileges() == Set::<
            Privilege,
        >::empty() by {
            lemma_entry_without_grants(views, index);
        }
        Ok(set)
    }

    /// A set holds no more records than a machine can count.
    pub proof fn lemma_len_is_bounded(&self)
        ensures
            self@.len() <= usize::MAX,
    {
        assert(self.records@.len() == self.records.len());
    }

    /// The number of records in the set.
    pub fn len(&self) -> (len: usize)
        ensures
            len == self@.len(),
    {
        self.records.len()
    }

    /// The record at `index`, in load order, if there is one.
    pub fn get(&self, index: usize) -> (record: Option<&TrustRecord>)
        ensures
            match record {
                Some(r) => index < self@.len() && r@ == self@[index as int],
                None => index >= self@.len(),
            },
    {
        if index < self.records.len() {
            Some(&self.records[index])
        } else {
            None
        }
    }
}

} // verus!
