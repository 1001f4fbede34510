//! The user's login credentials, as held in memory and as stored.

use vstd::prelude::*;
use vstd::string::*;
use vstd::utf8::*;
use crate::obfuscation::{decrypt, encrypt, is_byte_text, obfuscated, shift_down, text_as_bytes};

verus! {

/// An email and a password.
#[derive(Clone, Debug, PartialEq, Eq)]
pub struct Credentials {
    pub email: String,
    pub passwd: String,
}

/// A stored password can be revealed.
pub open spec fn revealable(stored: Seq<char>) -> bool {
    is_byte_text(stored) && valid_utf8(shift_down(text_as_bytes(stored)))
}

/// The password that a stored one stands for, where it can be revealed.
pub open spec fn revealed_passwd(stored: Seq<char>) -> Seq<char> {
    decode_utf8(shift_down(text_as_bytes(stored)))
}

impl Credentials {
    /// Empty credentials.
    pub fn new() -> (r: Credentials)
        ensures
            r.email@ == Seq::<char>::empty(),
            r.passwd@ == Seq::<char>::empty(),
    {
        Credentials { email: String::new(), passwd: String::new() }
    }

    /// Takes over the email and the password of `new_settings`.
    pub fn replace(&mut self, new_settings: &Credentials)
        ensures
            final(self).email == new_settings.email,
            final(self).passwd == new_settings.passwd,
    {
        self.email = new_settings.email.clone();
        self.passwd = new_settings.passwd.clone();
    }

    /// Both the email and the password are non-empty.
    pub fn is_valid(&self) -> (r: bool)
        ensures
            r == (self.email@.len() > 0 && self.passwd@.len() > 0),
    {
        !self.email.as_str().is_empty() && !self.passwd.as_str().is_empty()
    }

    /// The credentials as they are stored: the same email, the password
    /// obfuscated.
    pub fn encrypted(&self) -> (r: Credentials)
        ensures
            r.email@ == self.email@,
            r.passwd@ == obfuscated(self.passwd@),
    {
        Credentials { email: String::from_str(self.email.as_str()), passwd: encrypt(self.passwd.as_str()) }
    }

    /// The credentials that stored ones stand for: the same email, the
    /// password revealed. `None` where the password cannot be revealed.
    pub fn decrypted(&self) -> (r: Option<Credentials>)
        ensures
            r is Some <==> revealable(self.passwd@),
            r matches Some(c) ==> c.email@ == self.email@ && c.passwd@ == revealed_passwd(self.passwd@),
    {
        match decrypt(self.passwd.as_str()) {
            Some(passwd) => Some(Credentials { email: String::from_str(self.email.as_str()), passwd }),
            None => None,
        }
    }

    /// The credentials to start with, from what was read from storage:
    /// the revealed stored credentials, or empty credentials where nothing
    /// could be read or the password cannot be revealed. Missing credentials
    /// are no failure.
    pub fn restore(stored: Option<Credentials>) -> (r: Credentials)
        ensures
            match stored {
                Some(c) if revealable(c.passwd@) => r.email@ == c.email@
                    && r.passwd@ == revealed_passwd(c.passwd@),
                _ => r.email@.len() == 0 && r.passwd@.len() == 0,
            },
    {
        match stored {
            Some(c) => match c.decrypted() {
                Some(d) => d,
                None => Credentials::new(),
            },
            None => Credentials::new(),
        }
    }
}

/// Credentials read back from their stored form are the credentials:
/// any password can be stored and revealed.
pub proof fn lemma_stored_credentials_restore(passwd: Seq<char>)
    ensures
        revealable(obfuscated(passwd)),
        revealed_passwd(obfuscated(passwd)) == passwd,
{
    crate::obfuscation::lemma_obfuscation_round_trip(passwd);
}

} // verus!
