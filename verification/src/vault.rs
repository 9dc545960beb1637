//! The credential vault: a store of named string secrets, each encrypted at
//! rest, together with the master-key decision that keeps exactly one
//! 256-bit key per installation.
use vstd::prelude::*;

verus! {

use vstd::utf8::encode_utf8;
use vstd::utf8::encode_utf8_decode_utf8;
use crate::crypto::StorageError;
use crate::crypto::b64_of;
use crate::crypto::sealed_envelope;
use crate::crypto::seal_limit;
use crate::crypto::encrypt_value;
use crate::crypto::decrypt_value;
use crate::crypto::b64_encode;
use crate::crypto::random_bytes;
use crate::strutil::str_eq;

/// What to do about the master key after reading its stored entry: keep the
/// stored key, or generate a fresh one because nothing usable is stored.
pub enum KeyDecision {
    UseStored(Vec<u8>),
    Regenerate,
}

/// Decides the master key from the stored text entry: the stored key is
/// kept exactly when the entry decodes from base64 to exactly 32 bytes;
/// anything else (no entry, undecodable text, wrong length) asks for a
/// fresh key, under which all previously encrypted secrets become
/// unreadable.
pub fn decide_master_key(stored: Option<&str>) -> (r: KeyDecision)
    ensures
        stored is None ==> r is Regenerate,
        r matches KeyDecision::UseStored(k) ==> (stored matches Some(s) && s@ == b64_of(k@))
            && k@.len() == 32,
        forall|b: Seq<u8>|
            (stored matches Some(s) && s@ == #[trigger] b64_of(b) && b.len() == 32) ==> (
            r matches KeyDecision::UseStored(k) && k@ == b),
{
    match stored {
        None => KeyDecision::Regenerate,
        Some(s) => {
            match crate::crypto::b64_decode(s) {
                Some(k) => {
                    if k.len() == 32 {
                        KeyDecision::UseStored(k)
                    } else {
                        KeyDecision::Regenerate
                    }
                },
                None => KeyDecision::Regenerate,
            }
        },
    }
}

/// Generates a fresh 256-bit master key with its base64 text, ready to be
/// written to the external credential store. `None` reports an entropy
/// failure.
pub fn generate_master_key() -> (r: Option<(Vec<u8>, String)>)
    ensures
        r matches Some(p) ==> p.0@.len() == 32 && p.1@ == b64_of(p.0@),
{
    match random_bytes(32) {
        Some(k) => {
            let text = b64_encode(k.as_slice());
            Some((k, text))
        },
        None => None,
    }
}

/// The encryption-at-rest store of named secrets. Values are held only as
/// encrypted envelopes; the view is the map from names to the plaintexts
/// they decrypt to.
pub struct CredentialStore {
    key: Vec<u8>,
    entries: Vec<(String, String)>,
    model: Ghost<Map<Seq<char>, Seq<char>>>,
    nonces: Ghost<Seq<Seq<u8>>>,
}

impl View for CredentialStore {
    type V = Map<Seq<char>, Seq<char>>;

    closed spec fn view(&self) -> Map<Seq<char>, Seq<char>> {
        self.model@
    }
}

impl CredentialStore {
    /// Well-formedness: the key is 256 bits; names are stored once; the
    /// stored entries are exactly the view's names; and every stored
    /// envelope is the sealing of the view's plaintext under the key, with
    /// the nonce that was drawn for it.
    pub closed spec fn wf(&self) -> bool {
        &&& self.key@.len() == 32
        &&& self.nonces@.len() == self.entries@.len()
        &&& forall|i: int, j: int|
            0 <= i < j < self.entries@.len() ==> (#[trigger] self.entries@[i]).0@ != (
            #[trigger] self.entries@[j]).0@
        &&& forall|i: int|
            0 <= i < self.entries@.len() ==> self.model@.contains_key(
                (#[trigger] self.entries@[i]).0@,
            )
        &&& forall|name: Seq<char>|
            self.model@.contains_key(name) ==> exists|i: int|
                0 <= i < self.entries@.len() && (#[trigger] self.entries@[i]).0@ == name
        &&& forall|i: int|
            0 <= i < self.entries@.len() ==> sealed_envelope(
                self.key@,
                self.nonces@[i],
                encode_utf8(self.model@[(#[trigger] self.entries@[i]).0@]),
                self.entries@[i].1@,
            )
    }

    /// A new, empty store over a 256-bit key.
    pub fn new(key: Vec<u8>) -> (r: Self)
        requires
            key@.len() == 32,
        ensures
            r.wf(),
            r@ == Map::<Seq<char>, Seq<char>>::empty(),
    {
        let r = CredentialStore {
            key,
            entries: Vec::new(),
            model: Ghost(Map::empty()),
            nonces: Ghost(Seq::empty()),
        };
        proof {
            assert(forall|name: Seq<char>| !r.model@.contains_key(name));
        }
        r
    }

    fn position_of(&self, name: &str) -> (r: Option<usize>)
        ensures
            r matches Some(i) ==> i < self.entries@.len() && self.entries@[i as int].0@ == name@,
            r is None ==> forall|i: int|
                0 <= i < self.entries@.len() ==> (#[trigger] self.entries@[i]).0@ != name@,
    {
        let n = self.entries.len();
        let mut i: usize = 0;
        while i < n
            invariant
                0 <= i <= n,
                n == self.entries@.len(),
                forall|j: int| 0 <= j < i ==> (#[trigger] self.entries@[j]).0@ != name@,
            decreases n - i,
        {
            if str_eq(self.entries[i].0.as_str(), name) {
                return Some(i);
            }
            i += 1;
        }
        None
    }

    fn remove_named(&mut self, name: &str)
        requires
            old(self).wf(),
        ensures
            final(self).wf(),
            final(self)@ == old(self)@.remove(name@),
            final(self).key == old(self).key,
    {
        let ghost pre = self.entries@;
        match self.position_of(name) {
            Some(i) => {
                self.entries.remove(i);
                proof {
                    self.model@ = self.model@.remove(name@);
                    self.nonces@ = self.nonces@.remove(i as int);
                }
                proof {
                    let m = self.model@;
                    let es = self.entries@;
                    assert(es =~= pre.remove(i as int));
                    assert forall|k: int| 0 <= k < es.len() implies m.contains_key(
                        (#[trigger] es[k]).0@,
                    ) by {
                        let k0: int = if k < i {
                            k
                        } else {
                            k + 1
                        };
                        assert(es[k] == pre[k0]);
                        assert(pre[k0].0@ != pre[i as int].0@);
                    }
                    assert forall|nm: Seq<char>| m.contains_key(nm) implies exists|k: int|
                        0 <= k < es.len() && (#[trigger] es[k]).0@ == nm by {
                        let k = choose|k: int| 0 <= k < pre.len() && (#[trigger] pre[k]).0@ == nm;
                        assert(nm != name@);
                        assert(k != i);
                        if k < i {
                            assert(es[k] == pre[k]);
                        } else {
                            assert(es[k - 1] == pre[k]);
                        }
                    }
                    assert forall|k: int| 0 <= k < es.len() implies sealed_envelope(
                        self.key@,
                        self.nonces@[k],
                        encode_utf8(m[(#[trigger] es[k]).0@]),
                        es[k].1@,
                    ) by {
                        let k0: int = if k < i {
                            k
                        } else {
                            k + 1
                        };
                        assert(old(self).entries@[k0] == pre[k0]);
                        assert(es[k] == pre[k0]);
                        assert(self.nonces@[k] == old(self).nonces@[k0]);
                        assert(pre[k0].0@ != name@);
                        assert(m[es[k].0@] == old(self)@[es[k].0@]);
                        assert(sealed_envelope(
                            old(self).key@,
                            old(self).nonces@[k0],
                            encode_utf8(old(self)@[old(self).entries@[k0].0@]),
                            old(self).entries@[k0].1@,
                        ));
                    }
                }
            },
            None => {
                proof {
                    assert(!self@.contains_key(name@));
                    assert(self.model@.remove(name@) =~= self.model@);
                    self.model@ = self.model@.remove(name@);
                }
            },
        }
    }

    /// Stores a secret under a name, encrypting it; an existing value for
    /// that name is overwritten (last write wins). On failure the store is
    /// unchanged.
    pub fn store(&mut self, name: &str, value: &str) -> (r: Result<(), StorageError>)
        requires
            old(self).wf(),
            encode_utf8(value@).len() <= seal_limit(),
        ensures
            final(self).wf(),
            r is Ok ==> final(self)@ == old(self)@.insert(name@, value@),
            r matches Err(e) ==> e matches StorageError::EncryptionError(_) && final(self)@ == old(
                self,
            )@,
    {
        let env = match encrypt_value(self.key.as_slice(), value) {
            Ok(env) => env,
            Err(e) => {
                return Err(e);
            },
        };
        self.remove_named(name);
        let ghost midstore = *self;
        let ghost mid = self.model@;
        let ghost pre = self.entries@;
        self.entries.push((String::from_str(name), env));
        proof {
            let n = choose|n: Seq<u8>| sealed_envelope(old(self).key@, n, encode_utf8(value@), env@);
            self.model@ = self.model@.insert(name@, value@);
            self.nonces@ = self.nonces@.push(n);
        }
        proof {
            let m = self.model@;
            let es = self.entries@;
            assert(es.len() == pre.len() + 1);
            assert(es[es.len() - 1].0@ == name@ && es[es.len() - 1].1@ == env@);
            assert(forall|i: int| 0 <= i < pre.len() ==> es[i] == #[trigger] pre[i]);
            // No surviving entry carries the stored name: each entry name is
            // in the post-delete view, which no longer holds it.
            assert(!mid.contains_key(name@));
            assert forall|i: int| 0 <= i < pre.len() implies (#[trigger] pre[i]).0@ != name@ by {
                assert(mid.contains_key(pre[i].0@));
            }
            assert forall|i: int, j: int|
                0 <= i < j < es.len() implies (#[trigger] es[i]).0@ != (#[trigger] es[j]).0@ by {
                if j < pre.len() {
                    assert(pre[i].0@ != pre[j].0@);
                }
            }
            assert forall|i: int| 0 <= i < es.len() implies m.contains_key(
                (#[trigger] es[i]).0@,
            ) by {
                if i < pre.len() {
                    assert(mid.contains_key(pre[i].0@));
                }
            }
            assert forall|nm: Seq<char>| m.contains_key(nm) implies exists|i: int|
                0 <= i < es.len() && (#[trigger] es[i]).0@ == nm by {
                if nm == name@ {
                    assert(es[es.len() - 1].0@ == nm);
                } else {
                    assert(mid.contains_key(nm));
                    let i = choose|i: int| 0 <= i < pre.len() && (#[trigger] pre[i]).0@ == nm;
                    assert(es[i].0@ == nm);
                }
            }
            assert forall|i: int| 0 <= i < es.len() implies sealed_envelope(
                self.key@,
                self.nonces@[i],
                encode_utf8(m[(#[trigger] es[i]).0@]),
                es[i].1@,
            ) by {
                if i < pre.len() {
                    assert(es[i] == pre[i]);
                    assert(es[i].0@ != name@);
                    assert(m[es[i].0@] == mid[es[i].0@]);
                    assert(midstore.wf());
                    assert(es[i] == midstore.entries@[i]);
                    assert(self.nonces@[i] == midstore.nonces@[i]);
                    assert(sealed_envelope(
                        midstore.key@,
                        midstore.nonces@[i],
                        encode_utf8(mid[midstore.entries@[i].0@]),
                        midstore.entries@[i].1@,
                    ));
                } else {
                    assert(es[i].0@ == name@ && es[i].1@ == env@);
                    assert(m[name@] == value@);
                }
            }
            assert(self.model@ =~= old(self)@.insert(name@, value@));
        }
        Ok(())
    }

    /// Retrieves and decrypts the secret stored under a name; `None` when
    /// no entry exists. On a well-formed store, retrieval cannot fail and
    /// returns exactly the stored plaintext.
    pub fn retrieve(&self, name: &str) -> (r: Result<Option<String>, StorageError>)
        requires
            self.wf(),
        ensures
            r is Ok,
            r matches Ok(o) ==> (o is Some <==> self@.contains_key(name@)),
            r matches Ok(o) ==> (o matches Some(v) ==> v@ == self@[name@]),
    {
        match self.position_of(name) {
            None => Ok(None),
            Some(i) => {
                proof {
                    assert(self.entries@[i as int].0@ == name@);
                    assert(self@.contains_key(name@));
                    assert(sealed_envelope(
                        self.key@,
                        self.nonces@[i as int],
                        encode_utf8(self@[name@]),
                        self.entries@[i as int].1@,
                    ));
                    encode_utf8_decode_utf8(self@[name@]);
                }
                match decrypt_value(self.key.as_slice(), self.entries[i].1.as_str()) {
                    Ok(p) => Ok(Some(p)),
                    Err(e) => {
                        proof {
                            assert(false);
                        }
                        Err(e)
                    },
                }
            },
        }
    }

    /// Deletes the secret stored under a name; deleting a name that was
    /// never stored succeeds and changes nothing (idempotent delete).
    pub fn delete(&mut self, name: &str) -> (r: Result<(), StorageError>)
        requires
            old(self).wf(),
        ensures
            final(self).wf(),
            r is Ok,
            final(self)@ == old(self)@.remove(name@),
    {
        self.remove_named(name);
        Ok(())
    }
}

/// Vault law: storing then retrieving a name yields the stored secret;
/// after a delete the name reads back as absent; a delete of a name never
/// stored leaves the store as it was. Stated over the store's map view,
/// which `store`, `retrieve` and `delete` are specified against.
pub proof fn lemma_vault_round_trip(
    m: Map<Seq<char>, Seq<char>>,
    name: Seq<char>,
    value: Seq<char>,
)
    ensures
        m.insert(name, value).contains_key(name),
        m.insert(name, value)[name] == value,
        !m.insert(name, value).remove(name).contains_key(name),
        !m.contains_key(name) ==> m.remove(name) == m,
{
    if !m.contains_key(name) {
        assert(m.remove(name) =~= m);
    }
}

} // verus!
