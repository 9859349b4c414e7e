//! The trust decision: whether a signature over some data was made by a key
//! that the set trusts for an action.
//!
//! The fingerprint that a signature claims only chooses which key is tried
//! first. Whatever it says, every key that holds the privilege is tried until
//! one accepts, so a wrong claim can neither hide a valid signature nor make
//! an invalid one pass.

use crate::crypto::key::{Fingerprint, PublicKey, PublicKeyView};
use crate::crypto::keyset::TrustedKeySet;
use crate::crypto::record::{Privilege, TrustRecordView};
use crate::crypto::scheme::{ed25519_check, ed25519_verdict};
use crate::crypto::sha256::Sha256;
use crate::crypto::signature::{signed_message, Signature, SignatureView};
use vstd::prelude::*;

verus! {

/// The signature scheme could not check the signature against the key of one
/// record at all: the key or the signature is malformed. This is no
/// rejection, and it must never be taken for an acceptance.
#[derive(Clone, Copy, Debug, PartialEq, Eq, Structural)]
pub struct SchemeError {
    /// The index, in load order, of the record under whose key the scheme
    /// could not check.
    pub record_index: usize,
}

/// What the signature scheme says of `signature` over `data` under `key`:
/// `Some(true)` for valid, `Some(false)` for invalid, `None` where it cannot
/// check. The scheme checks the ed25519 signature against the SHA-256 digest
/// of what an OpenPGP signature signs.
pub open spec fn key_verdict(key: PublicKeyView, signature: SignatureView, data: Seq<u8>) -> Option<
    bool,
> {
    ed25519_verdict(
        key.material,
        Sha256::digest_of(signed_message(data, signature.hashed)),
        signature.raw,
    )
}

/// What the signature scheme says of `signature` over `data` under the key
/// of `record`.
pub open spec fn verdict(record: TrustRecordView, signature: SignatureView, data: Seq<u8>) -> Option<
    bool,
> {
    key_verdict(record.key, signature, data)
}

/// Checks `signature` over `data` under one key, whatever fingerprint the
/// signature claims: `Some(true)` where it is valid, `Some(false)` where it
/// is not, `None` where the key or the signature is malformed and the scheme
/// cannot check.
pub fn verify(key: &PublicKey, signature: &Signature, data: &[u8]) -> (outcome: Option<bool>)
    ensures
        outcome == key_verdict(key@, signature@, data@),
{
    let digest = signature.signed_digest(data);
    match ed25519_check(key.material(), digest.as_slice(), signature.raw()) {
        Ok(valid) => Some(valid),
        Err(_) => None,
    }
}

/// Whether `record` holds `privilege` and its key has the fingerprint `hint`.
pub open spec fn hint_matches(record: TrustRecordView, hint: Seq<u8>, privilege: Privilege) -> bool {
    record.holds(privilege) && record.key.fingerprint == hint
}

/// Whether the record at `index` is the first, in load order, that holds
/// `privilege` and whose key has the fingerprint `hint`.
pub open spec fn is_first_match(
    records: Seq<TrustRecordView>,
    hint: Seq<u8>,
    privilege: Privilege,
    index: int,
) -> bool {
    &&& 0 <= index < records.len()
    &&& hint_matches(records[index], hint, privilege)
    &&& forall|j: int| 0 <= j < index ==> !hint_matches(#[trigger] records[j], hint, privilege)
}

/// The index of the record tried on the fast path: the first that holds
/// `privilege` and whose key has the fingerprint `hint`, if there is one.
pub open spec fn matched(records: Seq<TrustRecordView>, hint: Seq<u8>, privilege: Privilege) -> Option<
    int,
> {
    if exists|index: int| is_first_match(records, hint, privilege, index) {
        Some(choose|index: int| is_first_match(records, hint, privilege, index))
    } else {
        None
    }
}

/// Whether the fallback scan tries the record at `index`: it holds
/// `privilege`, and it is not equal to the record tried on the fast path.
pub open spec fn in_fallback(
    records: Seq<TrustRecordView>,
    fast: Option<int>,
    privilege: Privilege,
    index: int,
) -> bool {
    records[index].holds(privilege) && !(fast is Some && records[index] == records[fast.unwrap()])
}

/// The indices below `bound`, rising, of the records that the fallback scan
/// tries.
pub open spec fn fallback_below(
    records: Seq<TrustRecordView>,
    fast: Option<int>,
    privilege: Privilege,
    bound: nat,
) -> Seq<usize>
    decreases bound,
{
    if bound == 0 {
        Seq::empty()
    } else {
        let below = fallback_below(records, fast, privilege, (bound - 1) as nat);
        if in_fallback(records, fast, privilege, bound - 1) {
            below.push((bound - 1) as usize)
        } else {
            below
        }
    }
}

/// The indices of the records against which a signature with the claimed
/// fingerprint `hint` is tried, in the order of trying: the fast-path record
/// if there is one, then the records of the fallback scan in load order.
pub open spec fn attempt_order(
    records: Seq<TrustRecordView>,
    hint: Seq<u8>,
    privilege: Privilege,
) -> Seq<usize> {
    let fast = matched(records, hint, privilege);
    let first = match fast {
        Some(index) => seq![index as usize],
        None => Seq::empty(),
    };
    first + fallback_below(records, fast, privilege, records.len())
}

/// Whether the scheme rejects the signature under each of the first `count`
/// records of `order`.
pub open spec fn rejected_before(
    records: Seq<TrustRecordView>,
    order: Seq<usize>,
    signature: SignatureView,
    data: Seq<u8>,
    count: int,
) -> bool {
    forall|j: int|
        0 <= j < count ==> verdict(records[#[trigger] order[j] as int], signature, data) == Some(
            false,
        )
}

/// Whether trying the records of `order` one after the other stops at
/// position `at`: the scheme rejects under every record before it, and
/// accepts or fails under the record there.
pub open spec fn stops_at(
    records: Seq<TrustRecordView>,
    order: Seq<usize>,
    signature: SignatureView,
    data: Seq<u8>,
    at: int,
) -> bool {
    &&& 0 <= at < order.len()
    &&& rejected_before(records, order, signature, data, at)
    &&& verdict(records[order[at] as int], signature, data) != Some(false)
}

/// The outcome of trying the records of `order` one after the other: the
/// first record under which the scheme does not reject decides; if it
/// rejects under all, the signature is rejected.
pub open spec fn decision_along(
    records: Seq<TrustRecordView>,
    order: Seq<usize>,
    signature: SignatureView,
    data: Seq<u8>,
) -> Result<bool, SchemeError> {
    if exists|at: int| stops_at(records, order, signature, data, at) {
        let at = choose|at: int| stops_at(records, order, signature, data, at);
        match verdict(records[order[at] as int], signature, data) {
            Some(_) => Ok(true),
            None => Err(SchemeError { record_index: order[at] }),
        }
    } else {
        Ok(false)
    }
}

/// The records actually tried along `order`: all up to and including the
/// one that decides, or all of them.
pub open spec fn attempts_along(
    records: Seq<TrustRecordView>,
    order: Seq<usize>,
    signature: SignatureView,
    data: Seq<u8>,
) -> Seq<usize> {
    if exists|at: int| stops_at(records, order, signature, data, at) {
        order.take((choose|at: int| stops_at(records, order, signature, data, at)) + 1)
    } else {
        order
    }
}

/// The trust decision for `signature` over `data` and `privilege`.
pub open spec fn decision(
    records: Seq<TrustRecordView>,
    signature: SignatureView,
    data: Seq<u8>,
    privilege: Privilege,
) -> Result<bool, SchemeError> {
    decision_along(
        records,
        attempt_order(records, signature.fingerprint, privilege),
        signature,
        data,
    )
}

/// The indices of the records that are tried in reaching the decision, in
/// the order of trying.
pub open spec fn attempts(
    records: Seq<TrustRecordView>,
    signature: SignatureView,
    data: Seq<u8>,
    privilege: Privilege,
) -> Seq<usize> {
    attempts_along(
        records,
        attempt_order(records, signature.fingerprint, privilege),
        signature,
        data,
    )
}

/// At most one record is the first match.
proof fn lemma_first_match_unique(
    records: Seq<TrustRecordView>,
    hint: Seq<u8>,
    privilege: Privilege,
    a: int,
    b: int,
)
    requires
        is_first_match(records, hint, privilege, a),
        is_first_match(records, hint, privilege, b),
    ensures
        a == b,
{
    if a < b {
        assert(!hint_matches(records[a], hint, privilege));
    } else if b < a {
        assert(!hint_matches(records[b], hint, privilege));
    }
}

/// Trying along an order stops at one position at most.
proof fn lemma_stop_unique(
    records: Seq<TrustRecordView>,
    order: Seq<usize>,
    signature: SignatureView,
    data: Seq<u8>,
    a: int,
    b: int,
)
    requires
        stops_at(records, order, signature, data, a),
        stops_at(records, order, signature, data, b),
    ensures
        a == b,
{
    if a < b {
        assert(verdict(records[order[a] as int], signature, data) == Some(false));
    } else if b < a {
        assert(verdict(records[order[b] as int], signature, data) == Some(false));
    }
}

/// The fallback scan below a bound holds exactly the indices below the bound
/// of the records that it tries, each once, rising.
proof fn lemma_fallback_members(
    records: Seq<TrustRecordView>,
    fast: Option<int>,
    privilege: Privilege,
    bound: nat,
)
    requires
        bound <= records.len(),
        records.len() <= usize::MAX,
    ensures
        fallback_below(records, fast, privilege, bound).len() <= bound,
        forall|k: int|
            0 <= k < fallback_below(records, fast, privilege, bound).len() ==> {
                let index = #[trigger] fallback_below(records, fast, privilege, bound)[k];
                index < bound && in_fallback(records, fast, privilege, index as int)
            },
        forall|index: int|
            0 <= index < bound && in_fallback(records, fast, privilege, index) ==> fallback_below(
                records,
                fast,
                privilege,
                bound,
            ).contains(index as usize),
    decreases bound,
{
    if bound > 0 {
        let below = fallback_below(records, fast, privilege, (bound - 1) as nat);
        let whole = fallback_below(records, fast, privilege, bound);
        lemma_fallback_members(records, fast, privilege, (bound - 1) as nat);
        assert forall|index: int|
            0 <= index < bound && in_fallback(records, fast, privilege, index) implies whole.contains(
            index as usize,
        ) by {
            if index < bound - 1 {
                assert(below.contains(index as usize));
                let k = choose|k: int| 0 <= k < below.len() && below[k] == index as usize;
                assert(whole[k] == index as usize);
            } else {
                assert(whole[whole.len() - 1] == index as usize);
            }
        }
    }
}

impl TrustedKeySet {
    /// The index of the first record, in load order, that holds `privilege`
    /// and whose key has the fingerprint `hint`, if there is one.
    pub fn matched_record(&self, hint: &Fingerprint, privilege: Privilege) -> (found: Option<usize>)
        ensures
            matched(self@, hint@, privilege) == match found {
                Some(index) => Some(index as int),
                None => None,
            },
    {
        let mut i: usize = 0;
        while i < self.len()
            invariant
                i <= self@.len(),
                forall|j: int| 0 <= j < i ==> !hint_matches(#[trigger] self@[j], hint@, privilege),
            decreases self@.len() - i,
        {
            let record = self.get(i).unwrap();
            if record.privileged(privilege) && record.key().has_fingerprint(hint) {
                proof {
                    assert(is_first_match(self@, hint@, privilege, i as int));
                    let chosen = choose|index: int| is_first_match(self@, hint@, privilege, index);
                    lemma_first_match_unique(self@, hint@, privilege, i as int, chosen);
                }
                return Some(i);
            }
            i += 1;
        }
        None
    }

    /// The indices of the records against which a signature that claims the
    /// fingerprint `hint` is tried for `privilege`, in the order of trying.
    /// Where no record holds the privilege, there is none.
    pub fn attempt_order(&self, hint: &Fingerprint, privilege: Privilege) -> (order: Vec<usize>)
        ensures
            order@ == attempt_order(self@, hint@, privilege),
            forall|k: int| 0 <= k < order@.len() ==> (#[trigger] order@[k]) < self@.len(),
    {
        let fast = self.matched_record(hint, privilege);
        let ghost skip = matched(self@, hint@, privilege);
        let mut order: Vec<usize> = Vec::new();
        if let Some(index) = fast {
            order.push(index);
        }
        let ghost first = order@;
        let mut i: usize = 0;
        while i < self.len()
            invariant
                i <= self@.len(),
                skip == matched(self@, hint@, privilege),
                skip == match fast {
                    Some(index) => Some(index as int),
                    None => None,
                },
                fast matches Some(index) ==> index < self@.len(),
                order@ == first + fallback_below(self@, skip, privilege, i as nat),
                forall|k: int| 0 <= k < order@.len() ==> (#[trigger] order@[k]) < self@.len(),
            decreases self@.len() - i,
        {
            let record = self.get(i).unwrap();
            let skipped = match fast {
                Some(index) => record.same_as(self.get(index).unwrap()),
                None => false,
            };
            if record.privileged(privilege) && !skipped {
                order.push(i);
            }
            i += 1;
            assert(order@ =~= first + fallback_below(self@, skip, privilege, i as nat));
        }
        assert(order@ =~= attempt_order(self@, hint@, privilege));
        order
    }

    /// Decides whether `signature` over `data` was made by a key that holds
    /// `privilege`, and reports which records it tried.
    ///
    /// The records are tried in the order of `attempt_order`. The first under
    /// which the signature scheme accepts gives `Ok(true)`; the first under
    /// which it cannot check gives the error; where it rejects under all of
    /// them, or none holds the privilege, the result is `Ok(false)`. The
    /// second part of the result holds the indices of the records tried, in
    /// order: the scheme is called once for each, and for no other. Where no
    /// record holds the privilege, it is not called at all.
    pub fn verify_traced(&self, data: &[u8], signature: &Signature, privilege: Privilege) -> (outcome: (
        Result<bool, SchemeError>,
        Vec<usize>,
    ))
        ensures
            outcome.0 == decision(self@, signature@, data@, privilege),
            outcome.1@ == attempts(self@, signature@, data@, privilege),
            nobody_privileged(self@, privilege) ==> outcome.0 == Ok::<bool, SchemeError>(false)
                && outcome.1@.len() == 0,
    {
        proof {
            self.lemma_len_is_bounded();
            if nobody_privileged(self@, privilege) {
                lemma_nobody_privileged(self@, signature@, data@, privilege);
            }
        }
        let hint = signature.fingerprint();
        let order = self.attempt_order(&hint, privilege);
        let mut tried: Vec<usize> = Vec::new();
        if order.len() == 0 {
            return (Ok(false), tried);
        }
        let digest = signature.signed_digest(data);
        let mut at: usize = 0;
        while at < order.len()
            invariant
                at <= order@.len(),
                order@ == attempt_order(self@, signature@.fingerprint, privilege),
                forall|k: int| 0 <= k < order@.len() ==> (#[trigger] order@[k]) < self@.len(),
                digest@ == Sha256::digest_of(signed_message(data@, signature@.hashed)),
                rejected_before(self@, order@, signature@, data@, at as int),
                tried@ == order@.take(at as int),
                nobody_privileged(self@, privilege) ==> order@.len() == 0,
            decreases order@.len() - at,
        {
            let index = order[at];
            let record = self.get(index).unwrap();
            tried.push(index);
            assert(tried@ =~= order@.take(at + 1));
            let checked = ed25519_check(record.key().material(), digest.as_slice(), signature.raw());
            match checked {
                Ok(true) => {
                    proof {
                        lemma_stop_decides(self@, order@, signature@, data@, at as int);
                    }
                    return (Ok(true), tried);
                },
                Ok(false) => {},
                Err(_) => {
                    proof {
                        lemma_stop_decides(self@, order@, signature@, data@, at as int);
                    }
                    return (Err(SchemeError { record_index: index }), tried);
                },
            }
            at += 1;
        }
        proof {
            lemma_no_stop_rejects(self@, order@, signature@, data@);
            assert(order@.take(order@.len() as int) =~= order@);
        }
        (Ok(false), tried)
    }

    /// Decides whether `signature` over `data` was made by a key that holds
    /// `privilege`.
    ///
    /// The record whose key has the fingerprint that the signature claims is
    /// tried first, if it holds the privilege; then every other record that
    /// holds it, in load order. The first record under which the signature
    /// scheme does not reject decides: `Ok(true)` where it accepts there, the
    /// error where it cannot check there. Where it rejects under all of them,
    /// or no record holds the privilege, the result is `Ok(false)`.
    ///
    /// So a signature is accepted only where the scheme accepts it under a
    /// record that holds the privilege, and it is rejected exactly where the
    /// scheme rejects it under every such record.
    pub fn verify(&self, data: &[u8], signature: &Signature, privilege: Privilege) -> (outcome:
        Result<bool, SchemeError>)
        ensures
            outcome == decision(self@, signature@, data@, privilege),
            outcome == Ok::<bool, SchemeError>(true) ==> accepted_by_some(
                self@,
                signature@,
                data@,
                privilege,
            ),
            outcome == Ok::<bool, SchemeError>(false) <==> rejected_by_all(
                self@,
                signature@,
                data@,
                privilege,
            ),
            nobody_privileged(self@, privilege) ==> outcome == Ok::<bool, SchemeError>(false),
    {
        proof {
            self.lemma_len_is_bounded();
            lemma_acceptance_is_verified(self@, signature@, data@, privilege);
            lemma_rejection_is_exhaustive(self@, signature@, data@, privilege);
        }
        self.verify_traced(data, signature, privilege).0
    }
}

/// Where trying stops at a position, the record there decides, and the
/// records up to it are those tried.
proof fn lemma_stop_decides(
    records: Seq<TrustRecordView>,
    order: Seq<usize>,
    signature: SignatureView,
    data: Seq<u8>,
    at: int,
)
    requires
        stops_at(records, order, signature, data, at),
    ensures
        decision_along(records, order, signature, data) == match verdict(
            records[order[at] as int],
            signature,
            data,
        ) {
            Some(_) => Ok::<bool, SchemeError>(true),
            None => Err(SchemeError { record_index: order[at] }),
        },
        attempts_along(records, order, signature, data) == order.take(at + 1),
{
    let chosen = choose|at: int| stops_at(records, order, signature, data, at);
    lemma_stop_unique(records, order, signature, data, at, chosen);
}

/// Where the scheme rejects under every record of an order, the signature is
/// rejected, and all the records are tried.
proof fn lemma_no_stop_rejects(
    records: Seq<TrustRecordView>,
    order: Seq<usize>,
    signature: SignatureView,
    data: Seq<u8>,
)
    requires
        rejected_before(records, order, signature, data, order.len() as int),
    ensures
        decision_along(records, order, signature, data) == Ok::<bool, SchemeError>(false),
        attempts_along(records, order, signature, data) == order,
{
    if exists|at: int| stops_at(records, order, signature, data, at) {
        let at = choose|at: int| stops_at(records, order, signature, data, at);
        assert(verdict(records[order[at] as int], signature, data) == Some(false));
    }
}

/// Every record of the attempt order is a record of the set and holds the
/// privilege, and every record of the set that holds the privilege is in the
/// order or equals the fast-path record, which is.
proof fn lemma_order_members(
    records: Seq<TrustRecordView>,
    hint: Seq<u8>,
    privilege: Privilege,
)
    requires
        records.len() <= usize::MAX,
    ensures
        forall|k: int|
            0 <= k < attempt_order(records, hint, privilege).len() ==> {
                let index = #[trigger] attempt_order(records, hint, privilege)[k];
                index < records.len() && records[index as int].holds(privilege)
            },
        forall|index: int|
            0 <= index < records.len() && (#[trigger] records[index]).holds(privilege) ==> exists|
                k: int,
            |
                {
                    &&& 0 <= k < attempt_order(records, hint, privilege).len()
                    &&& records[#[trigger] attempt_order(records, hint, privilege)[k] as int]
                        == records[index]
                },
{
    let fast = matched(records, hint, privilege);
    let order = attempt_order(records, hint, privilege);
    let scan = fallback_below(records, fast, privilege, records.len());
    lemma_fallback_members(records, fast, privilege, records.len());
    let lead: int = if fast is Some {
        1
    } else {
        0
    };
    if fast is Some {
        assert(is_first_match(records, hint, privilege, fast.unwrap()));
        assert(order[0] == fast.unwrap() as usize);
    }
    assert forall|k: int| 0 <= k < order.len() implies {
        let index = #[trigger] order[k];
        index < records.len() && records[index as int].holds(privilege)
    } by {
        if k >= lead {
            assert(order[k] == scan[k - lead]);
        }
    }
    assert forall|index: int|
        0 <= index < records.len() && (#[trigger] records[index]).holds(privilege) implies exists|
        k: int,
    |
        {
            &&& 0 <= k < order.len()
            &&& records[#[trigger] order[k] as int] == records[index]
        } by {
        if in_fallback(records, fast, privilege, index) {
            assert(scan.contains(index as usize));
            let j = choose|j: int| 0 <= j < scan.len() && scan[j] == index as usize;
            assert(order[lead + j] == scan[j]);
            assert(records[order[lead + j] as int] == records[index]);
        } else {
            assert(records[order[0] as int] == records[index]);
        }
    }
}

/// Where the scheme does not reject under some record of an order, trying
/// along the order stops somewhere.
proof fn lemma_some_stop(
    records: Seq<TrustRecordView>,
    order: Seq<usize>,
    signature: SignatureView,
    data: Seq<u8>,
    at: int,
)
    requires
        0 <= at < order.len(),
        verdict(records[order[at] as int], signature, data) != Some(false),
    ensures
        exists|stop: int| stops_at(records, order, signature, data, stop),
    decreases at,
{
    if rejected_before(records, order, signature, data, at) {
        assert(stops_at(records, order, signature, data, at));
    } else {
        let earlier = choose|j: int|
            0 <= j < at && verdict(records[#[trigger] order[j] as int], signature, data) != Some(
                false,
            );
        lemma_some_stop(records, order, signature, data, earlier);
    }
}

/// Whether no record holds the privilege.
pub open spec fn nobody_privileged(records: Seq<TrustRecordView>, privilege: Privilege) -> bool {
    forall|index: int| 0 <= index < records.len() ==> !(#[trigger] records[index]).holds(privilege)
}

/// Whether the scheme accepts the signature under some record that holds
/// the privilege.
pub open spec fn accepted_by_some(
    records: Seq<TrustRecordView>,
    signature: SignatureView,
    data: Seq<u8>,
    privilege: Privilege,
) -> bool {
    exists|index: int|
        0 <= index < records.len() && (#[trigger] records[index]).holds(privilege) && verdict(
            records[index],
            signature,
            data,
        ) == Some(true)
}

/// Whether the scheme rejects the signature under every record that holds
/// the privilege.
pub open spec fn rejected_by_all(
    records: Seq<TrustRecordView>,
    signature: SignatureView,
    data: Seq<u8>,
    privilege: Privilege,
) -> bool {
    forall|index: int|
        0 <= index < records.len() && (#[trigger] records[index]).holds(privilege) ==> verdict(
            records[index],
            signature,
            data,
        ) == Some(false)
}

/// Whether the scheme can check the signature under every record that holds
/// the privilege.
pub open spec fn checkable_by_all(
    records: Seq<TrustRecordView>,
    signature: SignatureView,
    data: Seq<u8>,
    privilege: Privilege,
) -> bool {
    forall|index: int|
        0 <= index < records.len() && (#[trigger] records[index]).holds(privilege) ==> verdict(
            records[index],
            signature,
            data,
        ) is Some
}

/// No acceptance without verification: a signature is accepted only where
/// the scheme accepts it under a record that holds the privilege. A
/// fingerprint alone never makes a signature pass.
pub proof fn lemma_acceptance_is_verified(
    records: Seq<TrustRecordView>,
    signature: SignatureView,
    data: Seq<u8>,
    privilege: Privilege,
)
    requires
        records.len() <= usize::MAX,
    ensures
        decision(records, signature, data, privilege) == Ok::<bool, SchemeError>(true)
            ==> accepted_by_some(records, signature, data, privilege),
{
    let order = attempt_order(records, signature.fingerprint, privilege);
    lemma_order_members(records, signature.fingerprint, privilege);
    if decision(records, signature, data, privilege) == Ok::<bool, SchemeError>(true) {
        let at = choose|at: int| stops_at(records, order, signature, data, at);
        let index = order[at] as int;
        assert(records[index].holds(privilege));
        assert(verdict(records[index], signature, data) == Some(true));
    }
}

/// A signature is rejected exactly where the scheme rejects it under every
/// record that holds the privilege, whatever fingerprint it claims: a wrong
/// claim cannot have a signature rejected that a privileged key made.
pub proof fn lemma_rejection_is_exhaustive(
    records: Seq<TrustRecordView>,
    signature: SignatureView,
    data: Seq<u8>,
    privilege: Privilege,
)
    requires
        records.len() <= usize::MAX,
    ensures
        decision(records, signature, data, privilege) == Ok::<bool, SchemeError>(false)
            <==> rejected_by_all(records, signature, data, privilege),
{
    let order = attempt_order(records, signature.fingerprint, privilege);
    lemma_order_members(records, signature.fingerprint, privilege);
    if rejected_by_all(records, signature, data, privilege) {
        assert forall|j: int| 0 <= j < order.len() implies verdict(
            records[#[trigger] order[j] as int],
            signature,
            data,
        ) == Some(false) by {
            assert(records[order[j] as int].holds(privilege));
        }
        lemma_no_stop_rejects(records, order, signature, data);
    }
    if decision(records, signature, data, privilege) == Ok::<bool, SchemeError>(false) {
        assert(!exists|at: int| stops_at(records, order, signature, data, at));
        assert forall|index: int|
            0 <= index < records.len() && (#[trigger] records[index]).holds(
                privilege,
            ) implies verdict(records[index], signature, data) == Some(false) by {
            let k = choose|k: int|
                0 <= k < order.len() && records[#[trigger] order[k] as int] == records[index];
            if verdict(records[order[k] as int], signature, data) != Some(false) {
                lemma_some_stop(records, order, signature, data, k);
            }
        }
    }
}

/// Where the scheme can check the signature under every record that holds
/// the privilege, the signature is accepted exactly where the scheme accepts
/// it under one of them.
pub proof fn lemma_decision_when_checkable(
    records: Seq<TrustRecordView>,
    signature: SignatureView,
    data: Seq<u8>,
    privilege: Privilege,
)
    requires
        records.len() <= usize::MAX,
        checkable_by_all(records, signature, data, privilege),
    ensures
        decision(records, signature, data, privilege) == Ok::<bool, SchemeError>(
            accepted_by_some(records, signature, data, privilege),
        ),
{
    let order = attempt_order(records, signature.fingerprint, privilege);
    lemma_order_members(records, signature.fingerprint, privilege);
    lemma_rejection_is_exhaustive(records, signature, data, privilege);
    lemma_acceptance_is_verified(records, signature, data, privilege);
    if exists|at: int| stops_at(records, order, signature, data, at) {
        let at = choose|at: int| stops_at(records, order, signature, data, at);
        assert(records[order[at] as int].holds(privilege));
        assert(verdict(records[order[at] as int], signature, data) == Some(true));
    } else {
        assert(rejected_by_all(records, signature, data, privilege));
    }
}

/// The claimed fingerprint does not decide: two signatures that differ in
/// nothing but the fingerprint they claim get the same decision, where the
/// scheme can check them under every record that holds the privilege.
pub proof fn lemma_hint_is_irrelevant(
    records: Seq<TrustRecordView>,
    first: SignatureView,
    second: SignatureView,
    data: Seq<u8>,
    privilege: Privilege,
)
    requires
        records.len() <= usize::MAX,
        first.hashed == second.hashed,
        first.raw == second.raw,
        checkable_by_all(records, first, data, privilege),
    ensures
        decision(records, first, data, privilege) == decision(records, second, data, privilege),
{
    assert(forall|index: int|
        0 <= index < records.len() ==> verdict(#[trigger] records[index], first, data) == verdict(
            records[index],
            second,
            data,
        ));
    lemma_decision_when_checkable(records, first, data, privilege);
    lemma_decision_when_checkable(records, second, data, privilege);
}

/// Whatever fingerprints two signatures claim that differ in nothing else,
/// one is rejected exactly where the other is: a claim can turn an
/// acceptance into an error and back, never into a rejection.
pub proof fn lemma_hint_cannot_reject(
    records: Seq<TrustRecordView>,
    first: SignatureView,
    second: SignatureView,
    data: Seq<u8>,
    privilege: Privilege,
)
    requires
        records.len() <= usize::MAX,
        first.hashed == second.hashed,
        first.raw == second.raw,
    ensures
        decision(records, first, data, privilege) == Ok::<bool, SchemeError>(false) <==> decision(
            records,
            second,
            data,
            privilege,
        ) == Ok::<bool, SchemeError>(false),
{
    assert(forall|index: int|
        0 <= index < records.len() ==> verdict(#[trigger] records[index], first, data) == verdict(
            records[index],
            second,
            data,
        ));
    lemma_rejection_is_exhaustive(records, first, data, privilege);
    lemma_rejection_is_exhaustive(records, second, data, privilege);
}

/// Where no record holds the privilege, no record is tried and the signature
/// is rejected.
pub proof fn lemma_nobody_privileged(
    records: Seq<TrustRecordView>,
    signature: SignatureView,
    data: Seq<u8>,
    privilege: Privilege,
)
    requires
        records.len() <= usize::MAX,
        nobody_privileged(records, privilege),
    ensures
        attempt_order(records, signature.fingerprint, privilege) == Seq::<usize>::empty(),
        attempts(records, signature, data, privilege) == Seq::<usize>::empty(),
        decision(records, signature, data, privilege) == Ok::<bool, SchemeError>(false),
{
    let order = attempt_order(records, signature.fingerprint, privilege);
    lemma_order_members(records, signature.fingerprint, privilege);
    if order.len() > 0 {
        assert(records[order[0] as int].holds(privilege));
    }
    assert(order =~= Seq::<usize>::empty());
    lemma_no_stop_rejects(records, order, signature, data);
}

} // verus!
