//! The owner's project settings: owner name, base64 master key, and the
//! recipient list with their passphrases.

use vstd::prelude::*;

use crate::encoding::{b64_decode_of, b64_of};
use crate::error::Error;
use crate::masterkey::{master_key_decode_spec, MasterKey};
use crate::seqs::{lemma_filter_take_step, lemma_take_all};
use crate::sodium::MASTER_KEY_SIZE;

verus! {

/// One recipient: a name and the passphrase generated for them.
#[derive(Debug)]
pub struct KinRecipient {
    /// The recipient's name.
    pub name: String,
    /// The recipient's randomly generated passphrase.
    pub passphrase: String,
}

impl KinRecipient {
    /// An exact copy of this recipient.
    pub fn duplicate(&self) -> (r: KinRecipient)
        ensures
            r == *self,
    {
        KinRecipient { name: self.name.clone(), passphrase: self.passphrase.clone() }
    }
}

/// The predicate selecting recipients with exactly the given name.
pub open spec fn matches_name(name: Seq<char>) -> spec_fn(KinRecipient) -> bool {
    |x: KinRecipient| x.name@ == name
}

/// The predicate selecting recipients with any other name.
pub open spec fn differs_name(name: Seq<char>) -> spec_fn(KinRecipient) -> bool {
    |x: KinRecipient| x.name@ != name
}

/// The project settings persisted in the owner's configuration file.
/// Created once by `init`; read by `compile`; never copied into a package.
pub struct KinSettings {
    owner: String,
    master_key: String,
    /// The recipients the owner will hand backups to.
    pub recipients: Vec<KinRecipient>,
}

impl KinSettings {
    /// The owner's name.
    pub closed spec fn owner_view(&self) -> Seq<char> {
        self.owner@
    }

    /// The base64-encoded master key.
    pub closed spec fn master_key_view(&self) -> Seq<char> {
        self.master_key@
    }

    /// The recipient list.
    pub closed spec fn recipients_view(&self) -> Seq<KinRecipient> {
        self.recipients@
    }

    /// Fresh settings: the given owner and recipients, and a newly
    /// generated random master key, stored base64-encoded and
    /// guaranteed to decode back to its 32 key bytes.
    pub fn new(owner: &String, recipients: Vec<KinRecipient>) -> (r: KinSettings)
        ensures
            r.owner_view() == owner@,
            r.recipients_view() == recipients@,
            exists|k: Seq<u8>|
                k.len() == MASTER_KEY_SIZE && r.master_key_view() == b64_of(k) && b64_decode_of(
                    r.master_key_view(),
                ) == Some(k),
    {
        let key = MasterKey::new();
        let encoded = key.encode_base64();
        let r = KinSettings { owner: owner.clone(), master_key: encoded, recipients };
        proof {
            assert(r.master_key_view() == b64_of(key@) && key@.len() == MASTER_KEY_SIZE
                && b64_decode_of(r.master_key_view()) == Some(key@));
        }
        r
    }

    /// Settings rebuilt from persisted parts (the configuration file).
    pub fn from_parts(owner: String, master_key: String, recipients: Vec<KinRecipient>) -> (r:
        KinSettings)
        ensures
            r.owner_view() == owner@,
            r.master_key_view() == master_key@,
            r.recipients_view() == recipients@,
    {
        KinSettings { owner, master_key, recipients }
    }

    /// The owner's name.
    pub fn owner(&self) -> (r: &String)
        ensures
            r@ == self.owner_view(),
    {
        &self.owner
    }

    /// The base64-encoded master key, as persisted.
    pub fn master_key_base64(&self) -> (r: &String)
        ensures
            r@ == self.master_key_view(),
    {
        &self.master_key
    }

    /// The single recipient with the given name: `RecipientNotFound`
    /// when none matches, `RecipientAmbiguous` when several do.
    pub fn get_recipient(&self, name: &String) -> (r: Result<&KinRecipient, Error>)
        ensures
            match r {
                Ok(rec) => {
                    &&& self.recipients_view().filter(matches_name(name@)).len() == 1
                    &&& rec.name@ == name@
                    &&& self.recipients_view().contains(*rec)
                },
                Err(e) => {
                    ||| (e == Error::RecipientNotFound && self.recipients_view().filter(
                        matches_name(name@),
                    ).len() == 0)
                    ||| (e == Error::RecipientAmbiguous && self.recipients_view().filter(
                        matches_name(name@),
                    ).len() >= 2)
                },
            },
    {
        let n = self.recipients.len();
        let mut i: usize = 0;
        let mut count: usize = 0;
        let mut found: usize = 0;
        while i < n
            invariant
                i <= n,
                n == self.recipients_view().len(),
                count == self.recipients_view().take(i as int).filter(matches_name(name@)).len(),
                count <= i,
                count > 0 ==> found < i && self.recipients_view()[found as int].name@ == name@,
            decreases n - i,
        {
            proof {
                lemma_filter_take_step(self.recipients_view(), matches_name(name@), i as int);
            }
            if self.recipients[i].name == *name {
                if count == 0 {
                    found = i;
                }
                count = count + 1;
            }
            i = i + 1;
        }
        proof {
            lemma_take_all(self.recipients_view());
        }
        if count == 0 {
            Err(Error::RecipientNotFound)
        } else if count > 1 {
            Err(Error::RecipientAmbiguous)
        } else {
            let rec = &self.recipients[found];
            proof {
                assert(self.recipients_view().contains(*rec)) by {
                    assert(self.recipients_view()[found as int] == *rec);
                }
            }
            Ok(rec)
        }
    }

    /// The recipients other than the named one — the peers whose
    /// passphrases will guard the wrapped keys of a package compiled
    /// for that recipient. The name must resolve to exactly one
    /// recipient first; the peer list may be empty.
    pub fn get_peers(&self, name: &String) -> (r: Result<Vec<KinRecipient>, Error>)
        ensures
            match r {
                Ok(v) => {
                    &&& self.recipients_view().filter(matches_name(name@)).len() == 1
                    &&& v@ == self.recipients_view().filter(differs_name(name@))
                },
                Err(e) => {
                    ||| (e == Error::RecipientNotFound && self.recipients_view().filter(
                        matches_name(name@),
                    ).len() == 0)
                    ||| (e == Error::RecipientAmbiguous && self.recipients_view().filter(
                        matches_name(name@),
                    ).len() >= 2)
                },
            },
    {
        match self.get_recipient(name) {
            Ok(_) => (),
            Err(e) => {
                return Err(e);
            },
        }
        let n = self.recipients.len();
        let mut others: Vec<KinRecipient> = Vec::new();
        let mut i: usize = 0;
        while i < n
            invariant
                i <= n,
                n == self.recipients_view().len(),
                others@ == self.recipients_view().take(i as int).filter(differs_name(name@)),
            decreases n - i,
        {
            proof {
                lemma_filter_take_step(self.recipients_view(), differs_name(name@), i as int);
            }
            if !(self.recipients[i].name == *name) {
                others.push(self.recipients[i].duplicate());
            }
            i = i + 1;
        }
        proof {
            lemma_take_all(self.recipients_view());
        }
        Ok(others)
    }

    /// Decode the master key from its persisted base64 form, surfacing
    /// base64 and length errors.
    pub fn master_key(&self) -> (r: Result<MasterKey, Error>)
        ensures
            match r {
                Ok(k) => k.wf() && master_key_decode_spec(self.master_key_view())
                    == Result::<Seq<u8>, Error>::Ok(k@),
                Err(e) => master_key_decode_spec(self.master_key_view())
                    == Result::<Seq<u8>, Error>::Err(e),
            },
    {
        MasterKey::decode_base64(&self.master_key)
    }
}

} // verus!
