//! The recipient directory: a read-only resolution of a public username to
//! the recipient's messaging public key and preferred relay endpoints.

use vstd::prelude::*;

use crate::text::str_eq;

verus! {

/// One registered recipient: a unique public username, the messaging
/// public key, and the ordered relay endpoints to attempt delivery through.
#[derive(Clone, Debug)]
pub struct RecipientContact {
    pub name: String,
    pub pubkey: String,
    pub relays: Vec<String>,
}

/// The mathematical content of a contact.
pub struct ContactV {
    pub name: Seq<char>,
    pub pubkey: Seq<char>,
    pub relays: Seq<Seq<char>>,
}

impl View for RecipientContact {
    type V = ContactV;

    open spec fn view(&self) -> ContactV {
        ContactV {
            name: self.name@,
            pubkey: self.pubkey@,
            relays: Seq::new(self.relays@.len(), |i: int| self.relays@[i]@),
        }
    }
}

/// The first contact registered under `name`, if any.
pub open spec fn lookup(entries: Seq<ContactV>, name: Seq<char>) -> Option<ContactV>
    decreases entries.len(),
{
    if entries.len() == 0 {
        None
    } else if entries[0].name == name {
        Some(entries[0])
    } else {
        lookup(entries.drop_first(), name)
    }
}

/// Why a registration is refused.
#[derive(PartialEq, Eq, Structural, Clone, Copy, Debug)]
pub enum DirectoryError {
    /// The username is already registered.
    NameTaken,
}

/// The directory of registered recipients. Registration keeps usernames
/// unique; resolution returns the contact registered under a name.
pub struct RecipientDirectory {
    entries: Vec<RecipientContact>,
}

impl View for RecipientDirectory {
    type V = Seq<ContactV>;

    closed spec fn view(&self) -> Seq<ContactV> {
        Seq::new(self.entries@.len(), |i: int| self.entries@[i]@)
    }
}

impl RecipientDirectory {
    /// An empty directory.
    pub fn new() -> (r: Self)
        ensures
            r@ == Seq::<ContactV>::empty(),
    {
        let d = RecipientDirectory { entries: Vec::new() };
        proof {
            assert(d@ =~= Seq::<ContactV>::empty());
        }
        d
    }

    /// Registers a contact under its username; refused if the name is
    /// already registered, so each name resolves to at most one contact.
    pub fn register(&mut self, contact: RecipientContact) -> (r: Result<(), DirectoryError>)
        ensures
            lookup(old(self)@, contact@.name) is None ==> r is Ok && final(self)@ == old(
                self,
            )@.push(contact@),
            lookup(old(self)@, contact@.name) is Some ==> (r matches Err(DirectoryError::NameTaken)
                && final(self)@ == old(self)@),
    {
        if self.resolve(contact.name.as_str()).is_some() {
            return Err(DirectoryError::NameTaken);
        }
        self.entries.push(contact);
        proof {
            assert(self@ =~= old(self)@.push(contact@));
        }
        Ok(())
    }

    /// Resolves a username to the contact registered under it.
    pub fn resolve(&self, name: &str) -> (r: Option<&RecipientContact>)
        ensures
            match r {
                Some(c) => lookup(self@, name@) == Some(c@),
                None => lookup(self@, name@) is None,
            },
    {
        let n = self.entries.len();
        let mut i: usize = 0;
        proof {
            assert(self@.skip(0) =~= self@);
        }
        while i < n
            invariant
                n == self.entries@.len(),
                i <= n,
                lookup(self@, name@) == lookup(self@.skip(i as int), name@),
            decreases n - i,
        {
            proof {
                assert(self@.skip(i as int)[0] == self@[i as int]);
            }
            if str_eq(self.entries[i].name.as_str(), name) {
                return Some(&self.entries[i]);
            }
            proof {
                assert(self@.skip(i as int).drop_first() =~= self@.skip(i as int + 1));
            }
            i = i + 1;
        }
        proof {
            assert(self@.skip(n as int) =~= Seq::<ContactV>::empty());
        }
        None
    }
}

} // verus!
