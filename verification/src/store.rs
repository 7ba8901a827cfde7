//! Secret persistence: a narrow key/value capability with two
//! implementations, the platform credential store and a deterministic
//! in-memory store.
//!
//! The capability's contract speaks over a map model. The in-memory store
//! provably obeys the model; the platform store reaches real OS state whose
//! behaviour no proof covers, so it reports `obeys_model() == false` and the
//! model-guarded clauses say nothing of it.

use crate::errors::SyncError;
use vstd::prelude::*;

verus! {

/// Key/value secret storage, addressed by service name and entry key.
///
/// `model()` is the store's content as a map; `obeys_model()` says whether
/// the contracts below pin the implementation to that map. Deleting an
/// absent entry succeeds.
pub trait KeyringStore: Sized {
    spec fn obeys_model(&self) -> bool;

    spec fn model(&self) -> Map<(Seq<char>, Seq<char>), Seq<char>>;

    fn get_password(&self, service: &str, key: &str) -> (r: Result<Option<String>, SyncError>)
        ensures
            self.obeys_model() ==> match r {
                Ok(Some(v)) => self.model().contains_key((service@, key@)) && v@ == self.model()[
                    (service@, key@)
                ],
                Ok(None) => !self.model().contains_key((service@, key@)),
                Err(_) => false,
            },
    ;

    fn set_password(&mut self, service: &str, key: &str, password: &str) -> (r: Result<
        (),
        SyncError,
    >)
        ensures
            old(self).obeys_model() ==> final(self).obeys_model(),
            old(self).obeys_model() ==> r is Ok && final(self).model() == old(self).model().insert(
                (service@, key@),
                password@,
            ),
    ;

    fn delete_password(&mut self, service: &str, key: &str) -> (r: Result<(), SyncError>)
        ensures
            old(self).obeys_model() ==> final(self).obeys_model(),
            old(self).obeys_model() ==> r is Ok && final(self).model() == old(self).model().remove(
                (service@, key@),
            ),
    ;
}

/// The (service, key) pair of one stored entry.
pub open spec fn entry_key(e: (String, String, String)) -> (Seq<char>, Seq<char>) {
    (e.0@, e.1@)
}

/// The map holding every entry of `s`, later entries winning.
pub open spec fn entries_model(s: Seq<(String, String, String)>) -> Map<
    (Seq<char>, Seq<char>),
    Seq<char>,
>
    decreases s.len(),
{
    if s.len() == 0 {
        Map::empty()
    } else {
        entries_model(s.drop_last()).insert(entry_key(s.last()), s.last().2@)
    }
}

/// No two entries share a (service, key) pair.
pub open spec fn keys_unique(s: Seq<(String, String, String)>) -> bool {
    forall|i: int, j: int|
        0 <= i < j < s.len() ==> entry_key(#[trigger] s[i]) != entry_key(#[trigger] s[j])
}

proof fn lemma_model_absent(s: Seq<(String, String, String)>, k: (Seq<char>, Seq<char>))
    requires
        forall|i: int| 0 <= i < s.len() ==> entry_key(#[trigger] s[i]) != k,
    ensures
        !entries_model(s).contains_key(k),
    decreases s.len(),
{
    if s.len() > 0 {
        lemma_model_absent(s.drop_last(), k);
    }
}

proof fn lemma_model_lookup(s: Seq<(String, String, String)>, i: int)
    requires
        keys_unique(s),
        0 <= i < s.len(),
    ensures
        entries_model(s).contains_key(entry_key(s[i])),
        entries_model(s)[entry_key(s[i])] == s[i].2@,
    decreases s.len(),
{
    if i == s.len() - 1 {
    } else {
        lemma_model_lookup(s.drop_last(), i);
    }
}

proof fn lemma_remove_unique(s: Seq<(String, String, String)>, i: int)
    requires
        keys_unique(s),
        0 <= i < s.len(),
    ensures
        keys_unique(s.remove(i)),
        entries_model(s.remove(i)) == entries_model(s).remove(entry_key(s[i])),
    decreases s.len(),
{
    let t = s.remove(i);
    assert forall|a: int, b: int| 0 <= a < b < t.len() implies entry_key(#[trigger] t[a])
        != entry_key(#[trigger] t[b]) by {
        let a0 = if a < i {
            a
        } else {
            a + 1
        };
        let b0 = if b < i {
            b
        } else {
            b + 1
        };
        assert(t[a] == s[a0]);
        assert(t[b] == s[b0]);
    }
    if i == s.len() - 1 {
        assert(s.remove(i) =~= s.drop_last());
        assert forall|j: int| 0 <= j < s.drop_last().len() implies entry_key(
            #[trigger] s.drop_last()[j],
        ) != entry_key(s[i]) by {
            assert(s.drop_last()[j] == s[j]);
        }
        lemma_model_absent(s.drop_last(), entry_key(s[i]));
        assert(entries_model(s.drop_last()) =~= entries_model(s).remove(entry_key(s[i])));
    } else {
        lemma_remove_unique(s.drop_last(), i);
        assert(s.remove(i).drop_last() =~= s.drop_last().remove(i));
        assert(s.remove(i).last() == s.last());
        assert(entries_model(s.remove(i)) == entries_model(s.drop_last().remove(i)).insert(
            entry_key(s.last()),
            s.last().2@,
        ));
        assert(entry_key(s[i]) != entry_key(s.last()));
        assert(entries_model(s.drop_last()).remove(entry_key(s[i])).insert(
            entry_key(s.last()),
            s.last().2@,
        ) =~= entries_model(s).remove(entry_key(s[i])));
    }
}

/// Deterministic in-memory secret store.
#[derive(Debug)]
pub struct MockKeyring {
    entries: Vec<(String, String, String)>,
}

impl MockKeyring {
    /// An empty store.
    pub fn new() -> (r: MockKeyring)
        ensures
            r.obeys_model(),
            r.model() == Map::<(Seq<char>, Seq<char>), Seq<char>>::empty(),
    {
        MockKeyring { entries: Vec::new() }
    }

    fn find(&self, service: &str, key: &str) -> (r: Option<usize>)
        ensures
            match r {
                Some(i) => i < self.entries@.len() && entry_key(self.entries@[i as int]) == (
                    service@,
                    key@,
                ),
                None => forall|i: int|
                    0 <= i < self.entries@.len() ==> entry_key(#[trigger] self.entries@[i]) != (
                        service@,
                        key@,
                    ),
            },
    {
        let sv = service.to_owned();
        let kv = key.to_owned();
        let mut i: usize = 0;
        while i < self.entries.len()
            invariant
                i <= self.entries@.len(),
                sv@ == service@,
                kv@ == key@,
                forall|j: int|
                    0 <= j < i ==> entry_key(#[trigger] self.entries@[j]) != (service@, key@),
            decreases self.entries@.len() - i,
        {
            let e = &self.entries[i];
            if e.0 == sv && e.1 == kv {
                return Some(i);
            }
            i = i + 1;
        }
        None
    }
}

impl Default for MockKeyring {
    fn default() -> (r: MockKeyring)
        ensures
            r.obeys_model(),
            r.model() == Map::<(Seq<char>, Seq<char>), Seq<char>>::empty(),
    {
        MockKeyring::new()
    }
}

impl KeyringStore for MockKeyring {
    closed spec fn obeys_model(&self) -> bool {
        keys_unique(self.entries@)
    }

    closed spec fn model(&self) -> Map<(Seq<char>, Seq<char>), Seq<char>> {
        entries_model(self.entries@)
    }

    fn get_password(&self, service: &str, key: &str) -> (r: Result<Option<String>, SyncError>) {
        match self.find(service, key) {
            Some(i) => {
                proof {
                    if self.obeys_model() {
                        lemma_model_lookup(self.entries@, i as int);
                    }
                }
                Ok(Some(self.entries[i].2.clone()))
            },
            None => {
                proof {
                    lemma_model_absent(self.entries@, (service@, key@));
                }
                Ok(None)
            },
        }
    }

    fn set_password(&mut self, service: &str, key: &str, password: &str) -> (r: Result<
        (),
        SyncError,
    >) {
        let entry = (service.to_owned(), key.to_owned(), password.to_owned());
        match self.find(service, key) {
            Some(i) => {
                proof {
                    if self.obeys_model() {
                        lemma_remove_unique(self.entries@, i as int);
                    }
                }
                let ghost pre = self.entries@;
                self.entries.remove(i);
                let ghost mid = self.entries@;
                self.entries.push(entry);
                proof {
                    assert(self.entries@.drop_last() =~= mid);
                    if keys_unique(pre) {
                        assert forall|a: int|
                            0 <= a < mid.len() implies entry_key(#[trigger] mid[a]) != (
                            service@,
                            key@,
                        ) by {
                            let a0 = if a < i {
                                a
                            } else {
                                a + 1
                            };
                            assert(mid[a] == pre[a0]);
                        }
                        assert forall|a: int, b: int|
                            0 <= a < b < self.entries@.len() implies entry_key(
                            #[trigger] self.entries@[a],
                        ) != entry_key(#[trigger] self.entries@[b]) by {
                            if b < self.entries@.len() - 1 {
                                assert(self.entries@[a] == mid[a]);
                                assert(self.entries@[b] == mid[b]);
                            } else {
                                assert(self.entries@[a] == mid[a]);
                            }
                        }
                        assert(entries_model(self.entries@) == entries_model(pre).remove(
                            (service@, key@),
                        ).insert((service@, key@), password@));
                        assert(entries_model(pre).remove((service@, key@)).insert(
                            (service@, key@),
                            password@,
                        ) =~= entries_model(pre).insert((service@, key@), password@));
                    }
                }
                Ok(())
            },
            None => {
                let ghost pre = self.entries@;
                self.entries.push(entry);
                proof {
                    assert(self.entries@.drop_last() =~= pre);
                    if keys_unique(pre) {
                        assert forall|a: int, b: int|
                            0 <= a < b < self.entries@.len() implies entry_key(
                            #[trigger] self.entries@[a],
                        ) != entry_key(#[trigger] self.entries@[b]) by {
                            if b < self.entries@.len() - 1 {
                                assert(self.entries@[a] == pre[a]);
                                assert(self.entries@[b] == pre[b]);
                            } else {
                                assert(self.entries@[a] == pre[a]);
                            }
                        }
                    }
                }
                Ok(())
            },
        }
    }

    fn delete_password(&mut self, service: &str, key: &str) -> (r: Result<(), SyncError>) {
        match self.find(service, key) {
            Some(i) => {
                proof {
                    if self.obeys_model() {
                        lemma_remove_unique(self.entries@, i as int);
                    }
                }
                self.entries.remove(i);
                Ok(())
            },
            None => {
                proof {
                    if self.obeys_model() {
                        lemma_model_absent(self.entries@, (service@, key@));
                        assert(entries_model(self.entries@) =~= entries_model(
                            self.entries@,
                        ).remove((service@, key@)));
                    }
                }
                Ok(())
            },
        }
    }
}

#[verifier::external_type_specification]
#[verifier::external_body]
pub struct ExEntry(keyring::Entry);

/// Relies on `keyring::Entry::new`: builds the credential handle for the
/// service/key pair. The result depends on the platform's credential
/// builder, so nothing is promised of it.
#[verifier::external_body]
fn entry_for(service: &str, key: &str) -> (r: Result<keyring::Entry, String>) {
    match keyring::Entry::new(service, key) {
        Ok(e) => Ok(e),
        Err(err) => Err(format!("{err}")),
    }
}

/// Relies on `keyring::Entry::get_password`: reads the stored secret;
/// `NoEntry` means the entry is absent. The platform store decides the
/// outcome, so nothing is promised of it.
#[verifier::external_body]
fn entry_get_password(e: &keyring::Entry) -> (r: Result<Option<String>, String>) {
    match e.get_password() {
        Ok(p) => Ok(Some(p)),
        Err(keyring::Error::NoEntry) => Ok(None),
        Err(err) => Err(format!("{err}")),
    }
}

/// Relies on `keyring::Entry::set_password`: writes the secret. The platform
/// store decides the outcome, so nothing is promised of it.
#[verifier::external_body]
fn entry_set_password(e: &keyring::Entry, password: &str) -> (r: Result<(), String>) {
    match e.set_password(password) {
        Ok(()) => Ok(()),
        Err(err) => Err(format!("{err}")),
    }
}

/// Relies on `keyring::Entry::delete_credential`: removes the entry;
/// `NoEntry` counts as success so deletion is idempotent. The platform store
/// decides the outcome, so nothing is promised of it.
#[verifier::external_body]
fn entry_delete(e: &keyring::Entry) -> (r: Result<(), String>) {
    match e.delete_credential() {
        Ok(()) => Ok(()),
        Err(keyring::Error::NoEntry) => Ok(()),
        Err(err) => Err(format!("{err}")),
    }
}

/// The platform credential store. Its content is OS state outside any proof,
/// so it does not claim the map model.
#[derive(Debug)]
pub struct SystemKeyring;

impl KeyringStore for SystemKeyring {
    open spec fn obeys_model(&self) -> bool {
        false
    }

    open spec fn model(&self) -> Map<(Seq<char>, Seq<char>), Seq<char>> {
        Map::empty()
    }

    fn get_password(&self, service: &str, key: &str) -> (r: Result<Option<String>, SyncError>) {
        match entry_for(service, key) {
            Ok(e) => match entry_get_password(&e) {
                Ok(v) => Ok(v),
                Err(m) => Err(SyncError::Keyring(m)),
            },
            Err(m) => Err(SyncError::Keyring(m)),
        }
    }

    fn set_password(&mut self, service: &str, key: &str, password: &str) -> (r: Result<
        (),
        SyncError,
    >) {
        match entry_for(service, key) {
            Ok(e) => match entry_set_password(&e, password) {
                Ok(()) => Ok(()),
                Err(m) => Err(SyncError::Keyring(m)),
            },
            Err(m) => Err(SyncError::Keyring(m)),
        }
    }

    fn delete_password(&mut self, service: &str, key: &str) -> (r: Result<(), SyncError>) {
        match entry_for(service, key) {
            Ok(e) => match entry_delete(&e) {
                Ok(()) => Ok(()),
                Err(m) => Err(SyncError::Keyring(m)),
            },
            Err(m) => Err(SyncError::Keyring(m)),
        }
    }
}

} // verus!
