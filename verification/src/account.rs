//! Resolved ledger entities the pipeline reads: the paying account with its
//! multi-signature policy, and the stored contracts and contract packages
//! that a deploy's payment or session logic may reference.

use vstd::prelude::*;

verus! {

/// Per-operation signature-weight thresholds of an account.
#[derive(Clone, Copy, Debug, PartialEq, Eq, Structural)]
pub struct ActionThresholds {
    pub deployment: u8,
    pub key_management: u8,
}

/// A resolved ledger account: its associated keys (key, weight) and the
/// thresholds a signer set must meet.
#[derive(Clone, Debug, PartialEq, Eq)]
pub struct Account {
    pub account_hash: u64,
    pub main_purse: u64,
    pub associated_keys: Vec<(u64, u8)>,
    pub action_thresholds: ActionThresholds,
}

/// A stored contract: the set of entry points it exposes.
#[derive(Clone, Debug, PartialEq, Eq)]
pub struct Contract {
    pub entry_points: Vec<u64>,
}

/// A stored contract package: the versions present and enabled in it.
#[derive(Clone, Debug, PartialEq, Eq)]
pub struct ContractPackage {
    pub enabled_versions: Vec<u32>,
}

/// A value read back from global state by a query.
#[derive(Clone, Debug, PartialEq, Eq)]
pub enum StoredValue {
    Account(Account),
    Contract(Contract),
    ContractPackage(ContractPackage),
}

/// An associated-key set is a map: no key occurs twice.
pub open spec fn keys_wf(keys: Seq<(u64, u8)>) -> bool {
    forall|i: int, j: int| 0 <= i < j < keys.len() ==> keys[i].0 != keys[j].0
}

/// The weight an associated-key set gives to `key`, if the key is in it.
pub open spec fn key_weight(keys: Seq<(u64, u8)>, key: u64) -> Option<u8>
    decreases keys.len(),
{
    if keys.len() == 0 {
        None
    } else if keys[0].0 == key {
        Some(keys[0].1)
    } else {
        key_weight(keys.drop_first(), key)
    }
}

impl Account {
    /// A well-formed account: its associated keys form a map.
    pub open spec fn wf(self) -> bool {
        keys_wf(self.associated_keys@)
    }

    /// Creates an account whose only associated key is its own hash with
    /// weight one, and thresholds of one — the default policy of a fresh
    /// account.
    pub fn create(account_hash: u64, main_purse: u64) -> (r: Account)
        ensures
            r.account_hash == account_hash,
            r.main_purse == main_purse,
            r.associated_keys@ =~= seq![(account_hash, 1u8)],
            r.action_thresholds == (ActionThresholds { deployment: 1, key_management: 1 }),
            r.wf(),
    {
        let mut associated_keys: Vec<(u64, u8)> = Vec::new();
        associated_keys.push((account_hash, 1));
        Account {
            account_hash,
            main_purse,
            associated_keys,
            action_thresholds: ActionThresholds { deployment: 1, key_management: 1 },
        }
    }

    /// Looks the key up in the associated-key set and returns its weight.
    pub fn weight_of(&self, key: u64) -> (r: Option<u8>)
        ensures
            r == key_weight(self.associated_keys@, key),
    {
        let mut i: usize = 0;
        proof {
            assert(self.associated_keys@.skip(0) =~= self.associated_keys@);
        }
        while i < self.associated_keys.len()
            invariant
                i <= self.associated_keys@.len(),
                key_weight(self.associated_keys@, key)
                    == key_weight(self.associated_keys@.skip(i as int), key),
            decreases self.associated_keys@.len() - i,
        {
            proof {
                assert(self.associated_keys@.skip(i as int)[0] == self.associated_keys@[i as int]);
                assert(self.associated_keys@.skip(i as int).drop_first()
                    =~= self.associated_keys@.skip(i as int + 1));
            }
            let pair = self.associated_keys[i];
            if pair.0 == key {
                return Some(pair.1);
            }
            i = i + 1;
        }
        proof {
            assert(self.associated_keys@.skip(self.associated_keys@.len() as int) =~= Seq::<(
                u64,
                u8,
            )>::empty());
        }
        None
    }
}

/// Whether a sequence of words contains `x`.
pub open spec fn word_seq_contains(s: Seq<u64>, x: u64) -> bool {
    exists|i: int| 0 <= i < s.len() && s[i] == x
}

/// Whether a word vector contains `x`.
pub fn word_vec_contains(v: &Vec<u64>, x: u64) -> (r: bool)
    ensures
        r == word_seq_contains(v@, x),
{
    let mut i: usize = 0;
    while i < v.len()
        invariant
            i <= v@.len(),
            forall|k: int| 0 <= k < i ==> v@[k] != x,
        decreases v@.len() - i,
    {
        if v[i] == x {
            return true;
        }
        i = i + 1;
    }
    false
}

/// Whether a sequence of versions contains `x`.
pub open spec fn version_seq_contains(s: Seq<u32>, x: u32) -> bool {
    exists|i: int| 0 <= i < s.len() && s[i] == x
}

/// Whether a version vector contains `x`.
pub fn version_vec_contains(v: &Vec<u32>, x: u32) -> (r: bool)
    ensures
        r == version_seq_contains(v@, x),
{
    let mut i: usize = 0;
    while i < v.len()
        invariant
            i <= v@.len(),
            forall|k: int| 0 <= k < i ==> v@[k] != x,
        decreases v@.len() - i,
    {
        if v[i] == x {
            return true;
        }
        i = i + 1;
    }
    false
}

} // verus!
