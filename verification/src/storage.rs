use vstd::prelude::*;

use crate::eth::bytes_equal;
use crate::types::CredentialInfo;

verus! {

/// The persistent state the registration protocol reads and writes: the
/// registered credentials keyed by identifier, the singleton slot naming
/// the active caller, and the account-number counter the replay guard
/// advances. The host injects one such store per transaction and keeps it
/// transactional.
pub struct CredentialStore {
    entries: Vec<(Vec<u8>, CredentialInfo)>,
    caller: Option<String>,
    account_number: u64,
}

/// The key-value map a record list stands for; a later record for the same
/// key supersedes an earlier one.
pub open spec fn records_map(s: Seq<(Vec<u8>, CredentialInfo)>) -> Map<Seq<u8>, CredentialInfo>
    decreases s.len(),
{
    if s.len() == 0 {
        Map::empty()
    } else {
        records_map(s.drop_last()).insert(s.last().0@, s.last().1)
    }
}

/// A record that no later record supersedes gives the map's value at its
/// key.
proof fn lemma_records_map_found(s: Seq<(Vec<u8>, CredentialInfo)>, i: int, k: Seq<u8>)
    requires
        0 <= i < s.len(),
        s[i].0@ == k,
        forall|j: int| i < j < s.len() ==> s[j].0@ != k,
    ensures
        records_map(s).contains_key(k),
        records_map(s)[k] == s[i].1,
    decreases s.len(),
{
    if i == s.len() - 1 {
    } else {
        lemma_records_map_found(s.drop_last(), i, k);
    }
}

/// A key no record carries is absent from the map.
proof fn lemma_records_map_absent(s: Seq<(Vec<u8>, CredentialInfo)>, k: Seq<u8>)
    requires
        forall|j: int| 0 <= j < s.len() ==> s[j].0@ != k,
    ensures
        !records_map(s).contains_key(k),
    decreases s.len(),
{
    if s.len() > 0 {
        lemma_records_map_absent(s.drop_last(), k);
    }
}

/// After a record is persisted, its identifier is present, it looks up to
/// exactly the persisted record, and no other identifier's record moved.
pub proof fn lemma_saved_then_found(
    pre: Map<Seq<u8>, CredentialInfo>,
    id: Seq<u8>,
    info: CredentialInfo,
)
    ensures
        pre.insert(id, info).contains_key(id),
        pre.insert(id, info)[id] == info,
        forall|k: Seq<u8>|
            k != id && pre.contains_key(k) ==> #[trigger] pre.insert(id, info)[k] == pre[k],
{
}

impl CredentialStore {
    /// The registered credentials, as a map from identifier to what was
    /// persisted for it.
    pub closed spec fn creds(&self) -> Map<Seq<u8>, CredentialInfo> {
        records_map(self.entries@)
    }

    /// The active caller slot.
    pub closed spec fn caller_spec(&self) -> Option<String> {
        self.caller
    }

    /// The replay counter.
    pub closed spec fn account_number_spec(&self) -> u64 {
        self.account_number
    }

    /// An empty store: nothing registered, no active caller, counter at
    /// zero.
    pub fn new() -> (r: CredentialStore)
        ensures
            r.creds() == Map::<Seq<u8>, CredentialInfo>::empty(),
            r.caller_spec() is None,
            r.account_number_spec() == 0,
    {
        CredentialStore { entries: Vec::new(), caller: None, account_number: 0 }
    }

    /// Look up the persisted record of a credential identifier.
    pub fn get_credential(&self, id: &[u8]) -> (r: Option<&CredentialInfo>)
        ensures
            (r matches Some(info) ==> self.creds().contains_key(id@) && *info == self.creds()[id@]),
            (r is None ==> !self.creds().contains_key(id@)),
    {
        let n = self.entries.len();
        let mut i: usize = n;
        while i > 0
            invariant
                n == self.entries@.len(),
                i <= n,
                forall|j: int| i <= j < n ==> self.entries@[j].0@ != id@,
            decreases i,
        {
            i = i - 1;
            if bytes_equal(self.entries[i].0.as_slice(), id) {
                proof {
                    lemma_records_map_found(self.entries@, i as int, id@);
                }
                return Some(&self.entries[i].1);
            }
        }
        proof {
            lemma_records_map_absent(self.entries@, id@);
        }
        None
    }

    /// Whether a credential identifier is registered.
    pub fn has_credential(&self, id: &[u8]) -> (r: bool)
        ensures
            r == self.creds().contains_key(id@),
    {
        match self.get_credential(id) {
            Some(_) => true,
            None => false,
        }
    }

    /// Persist a record for a credential identifier, superseding any
    /// earlier record under the same identifier. The caller slot and the
    /// counter are untouched.
    pub fn save_credential(&mut self, id: Vec<u8>, info: CredentialInfo)
        ensures
            final(self).creds() == old(self).creds().insert(id@, info),
            final(self).caller_spec() == old(self).caller_spec(),
            final(self).account_number_spec() == old(self).account_number_spec(),
    {
        let ghost pre = self.entries@;
        self.entries.push((id, info));
        proof {
            assert(self.entries@.drop_last() =~= pre);
        }
    }

    /// The active caller, when one was remembered.
    pub fn get_caller(&self) -> (r: &Option<String>)
        ensures
            *r == self.caller_spec(),
    {
        &self.caller
    }

    /// Remember the active caller. Registered credentials and the counter
    /// are untouched.
    pub fn save_caller(&mut self, sender: String)
        ensures
            final(self).caller_spec() matches Some(s) && s@ == sender@,
            final(self).creds() == old(self).creds(),
            final(self).account_number_spec() == old(self).account_number_spec(),
    {
        self.caller = Some(sender);
    }

    /// The replay counter's current value.
    pub fn get_account_number(&self) -> (r: u64)
        ensures
            r == self.account_number_spec(),
    {
        self.account_number
    }

    /// Advance the replay counter by one. Registered credentials and the
    /// caller slot are untouched.
    pub fn increment_account_number(&mut self)
        requires
            old(self).account_number_spec() < u64::MAX,
        ensures
            final(self).account_number_spec() == old(self).account_number_spec() + 1,
            final(self).creds() == old(self).creds(),
            final(self).caller_spec() == old(self).caller_spec(),
    {
        self.account_number = self.account_number + 1;
    }
}

} // verus!
