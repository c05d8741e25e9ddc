//! User accounts and their passwords.
//!
//! The `password` field of a `User` holds the plaintext only between the
//! moment the record is filled in and the call that prepares it for storage
//! (`create`, `update` or `hash_password`); a stored record holds a verifier.

use vstd::prelude::*;
use vstd::utf8::encode_utf8;
use crate::codec::{hash_spec, hash_with_salt, is_verifier_of, verify, verify_spec};
use crate::error::CredentialError;
use crate::kdf::{is_encoding_with, random_salt, well_framed, KdfFault, MAX_INPUT_LENGTH};

verus! {

/// An account. `email` is the identifier under which its owner logs in.
pub struct User {
    pub id: i32,
    pub firstname: String,
    pub lastname: String,
    pub email: String,
    pub password: String,
}

/// An account as the contracts see it.
pub ghost struct UserView {
    pub id: int,
    pub firstname: Seq<char>,
    pub lastname: Seq<char>,
    pub email: Seq<char>,
    pub password: Seq<char>,
}

impl View for User {
    type V = UserView;

    open spec fn view(&self) -> UserView {
        UserView {
            id: self.id as int,
            firstname: self.firstname@,
            lastname: self.lastname@,
            email: self.email@,
            password: self.password@,
        }
    }
}

impl UserView {
    /// The bytes that are hashed or checked when `password` holds a
    /// plaintext: its UTF-8 encoding.
    pub open spec fn plaintext(self) -> Seq<u8> {
        encode_utf8(self.password)
    }

    /// The same account with another `password` field.
    pub open spec fn with_password(self, password: Seq<char>) -> UserView {
        UserView { password, ..self }
    }

    /// The same account under another `id`.
    pub open spec fn with_id(self, id: int) -> UserView {
        UserView { id, ..self }
    }
}

/// What `hash_password` and its callers leave behind: on success the record
/// `after` differs from `before` in its password alone, which is a fresh
/// verifier of the plaintext that `before` held; hashing fails on a plaintext
/// of more than `MAX_INPUT_LENGTH` bytes and on no other.
pub open spec fn password_hashed(before: UserView, after: UserView) -> bool {
    &&& before.plaintext().len() <= MAX_INPUT_LENGTH
    &&& after == before.with_password(after.password)
    &&& is_verifier_of(after.password, before.plaintext())
    &&& well_framed(after.password)
    &&& verify_spec(after.password, before.plaintext()) matches Ok(true)
}

/// The plaintext of `before` is too long to be hashed, and `e` says so.
pub open spec fn password_refused(before: UserView, e: CredentialError) -> bool {
    &&& before.plaintext().len() > MAX_INPUT_LENGTH
    &&& e == CredentialError::Hashing(KdfFault::PasswordTooLong)
}

/// `index` is the place of the first account in `accounts` whose email is
/// `identifier`.
pub open spec fn is_first_match(accounts: Seq<User>, identifier: Seq<char>, index: int) -> bool {
    &&& 0 <= index < accounts.len()
    &&& accounts[index]@.email == identifier
    &&& forall|j: int| 0 <= j < index ==> (#[trigger] accounts[j])@.email != identifier
}

/// Some account in `accounts` has the email `identifier`.
pub open spec fn has_account(accounts: Seq<User>, identifier: Seq<char>) -> bool {
    exists|i: int| 0 <= i < accounts.len() && (#[trigger] accounts[i])@.email == identifier
}

/// The place of the account that `identifier` names: the first whose email
/// is `identifier`, if there is one.
pub open spec fn find_spec(accounts: Seq<User>, identifier: Seq<char>) -> Option<int> {
    if has_account(accounts, identifier) {
        Some(choose|i: int| is_first_match(accounts, identifier, i))
    } else {
        None
    }
}

/// The answer to a login: denied where no account has the identifier, else
/// what checking the plaintext against that account's verifier gives.
pub open spec fn login_spec(
    accounts: Seq<User>,
    identifier: Seq<char>,
    plaintext: Seq<u8>,
) -> Result<bool, CredentialError> {
    match find_spec(accounts, identifier) {
        Some(index) => verify_spec(accounts[index]@.password, plaintext),
        None => Ok(false),
    }
}

/// At most one place is that of the first match, and `find_spec` names it.
pub proof fn lemma_first_match_is_found(accounts: Seq<User>, identifier: Seq<char>, index: int)
    requires
        is_first_match(accounts, identifier, index),
    ensures
        find_spec(accounts, identifier) == Some(index),
{
    let chosen = choose|i: int| is_first_match(accounts, identifier, i);
    assert(is_first_match(accounts, identifier, chosen));
    if chosen < index {
        assert(accounts[chosen]@.email != identifier);
    } else if index < chosen {
        assert(accounts[index]@.email != identifier);
    }
}

impl User {
    /// Replaces the plaintext in `password` by its verifier under the given
    /// salt. On an error the record is left as it was.
    pub fn hash_password_with_salt(&mut self, salt: &[u8]) -> (r: Result<(), CredentialError>)
        ensures
            match hash_spec(old(self)@.plaintext(), salt@) {
                Ok(verifier) => {
                    &&& r is Ok
                    &&& final(self)@ == old(self)@.with_password(verifier)
                    &&& well_framed(verifier)
                    &&& verify_spec(verifier, old(self)@.plaintext()) matches Ok(true)
                },
                Err(e) => r matches Err(refusal) && refusal == e && *final(self) == *old(self),
            },
    {
        match hash_with_salt(self.password.as_str().as_bytes(), salt) {
            Ok(verifier) => {
                self.password = verifier;
                Ok(())
            },
            Err(e) => Err(e),
        }
    }

    /// Replaces the plaintext in `password` by a verifier of it, made with a
    /// salt drawn anew. On an error the record is left as it was.
    pub fn hash_password(&mut self) -> (r: Result<(), CredentialError>)
        ensures
            match r {
                Ok(_) => password_hashed(old(self)@, final(self)@),
                Err(e) => password_refused(old(self)@, e) && *final(self) == *old(self),
            },
    {
        let salt = random_salt();
        let ghost before = self@;
        let r = self.hash_password_with_salt(salt.as_slice());
        proof {
            if r is Ok {
                assert(is_encoding_with(self@.password, before.plaintext(), salt@));
            }
        }
        r
    }

    /// Checks a plaintext against the verifier that this record holds.
    pub fn verify_password(&self, password: &[u8]) -> (r: Result<bool, CredentialError>)
        ensures
            r == verify_spec(self@.password, password@),
            !well_framed(self@.password) ==> r matches Err(
                CredentialError::Verification(KdfFault::Malformed),
            ),
    {
        verify(self.password.as_str(), password)
    }

    /// Prepares a new account for storage: the record that comes back holds
    /// a verifier in place of the plaintext, and is otherwise `user`.
    pub fn create(user: User) -> (r: Result<User, CredentialError>)
        ensures
            match r {
                Ok(stored) => password_hashed(user@, stored@),
                Err(e) => password_refused(user@, e),
            },
    {
        let mut user = user;
        match user.hash_password() {
            Ok(_) => Ok(user),
            Err(e) => Err(e),
        }
    }

    /// Prepares the record that replaces the account `id`: it carries that
    /// `id`, a verifier in place of the plaintext, and is otherwise `user`.
    pub fn update(id: i32, user: User) -> (r: Result<User, CredentialError>)
        ensures
            match r {
                Ok(stored) => password_hashed(user@.with_id(id as int), stored@),
                Err(e) => password_refused(user@, e),
            },
    {
        let mut user = user;
        user.id = id;
        match user.hash_password() {
            Ok(_) => Ok(user),
            Err(e) => Err(e),
        }
    }

    /// Finds the account that `identifier` names: the first in `accounts`
    /// whose email is `identifier`, letter for letter.
    pub fn find_by_identifier(accounts: &Vec<User>, identifier: &String) -> (r: Option<usize>)
        ensures
            match r {
                Some(index) => is_first_match(accounts@, identifier@, index as int),
                None => !has_account(accounts@, identifier@),
            },
            r matches Some(index) ==> find_spec(accounts@, identifier@) == Some(index as int),
            r is None ==> find_spec(accounts@, identifier@) is None,
    {
        let mut i: usize = 0;
        while i < accounts.len()
            invariant
                i <= accounts.len(),
                forall|j: int| 0 <= j < i ==> (#[trigger] accounts@[j])@.email != identifier@,
            decreases accounts.len() - i,
        {
            if accounts[i].email == *identifier {
                proof {
                    lemma_first_match_is_found(accounts@, identifier@, i as int);
                }
                return Some(i);
            }
            i += 1;
        }
        None
    }

    /// Answers a login with an email and a plaintext password against the
    /// accounts given.
    ///
    /// An identifier that no account has is denied with `Ok(false)`, as a
    /// wrong password is. An error says that the stored verifier of the
    /// account could not be used; a verifier without the field structure is
    /// always answered so.
    pub fn login(accounts: &Vec<User>, username: String, password: String) -> (r: Result<
        bool,
        CredentialError,
    >)
        ensures
            r == login_spec(accounts@, username@, encode_utf8(password@)),
            forall|index: int|
                #[trigger] is_first_match(accounts@, username@, index) && !well_framed(
                    accounts@[index]@.password,
                ) ==> r matches Err(CredentialError::Verification(KdfFault::Malformed)),
    {
        match User::find_by_identifier(accounts, &username) {
            Some(index) => accounts[index].verify_password(password.as_str().as_bytes()),
            None => Ok(false),
        }
    }
}

/// A login under an identifier that some account has is answered by checking
/// the plaintext against the verifier of the first such account.
pub proof fn lemma_first_match_decides_login(
    accounts: Seq<User>,
    identifier: Seq<char>,
    plaintext: Seq<u8>,
    index: int,
)
    requires
        is_first_match(accounts, identifier, index),
    ensures
        login_spec(accounts, identifier, plaintext) == verify_spec(
            accounts[index]@.password,
            plaintext,
        ),
{
    lemma_first_match_is_found(accounts, identifier, index);
}

/// A login under an identifier that no account has is denied, and is no
/// error.
pub proof fn lemma_unknown_identifier_is_denied(
    accounts: Seq<User>,
    identifier: Seq<char>,
    plaintext: Seq<u8>,
)
    requires
        !has_account(accounts, identifier),
    ensures
        login_spec(accounts, identifier, plaintext) matches Ok(false),
{
}

/// A login is granted only where an account has the identifier and the
/// plaintext verifies against the verifier of the first such account.
pub proof fn lemma_granted_login_has_account(
    accounts: Seq<User>,
    identifier: Seq<char>,
    plaintext: Seq<u8>,
)
    requires
        login_spec(accounts, identifier, plaintext) matches Ok(true),
    ensures
        has_account(accounts, identifier),
        exists|i: int|
            #[trigger] is_first_match(accounts, identifier, i) && verify_spec(
                accounts[i]@.password,
                plaintext,
            ) matches Ok(true),
{
    lemma_first_match_exists(accounts, identifier);
    let index = choose|i: int| is_first_match(accounts, identifier, i);
    assert(is_first_match(accounts, identifier, index));
}

/// Where some account has the identifier, one of them is the first.
proof fn lemma_first_match_exists(accounts: Seq<User>, identifier: Seq<char>)
    requires
        has_account(accounts, identifier),
    ensures
        exists|i: int| is_first_match(accounts, identifier, i),
{
    let witness = choose|i: int|
        0 <= i < accounts.len() && (#[trigger] accounts[i])@.email == identifier;
    lemma_first_match_before(accounts, identifier, witness);
}

/// Where the account at `bound` has the identifier, the first match lies at
/// `bound` or before it.
proof fn lemma_first_match_before(accounts: Seq<User>, identifier: Seq<char>, bound: int)
    requires
        0 <= bound < accounts.len(),
        accounts[bound]@.email == identifier,
    ensures
        exists|i: int| 0 <= i <= bound && is_first_match(accounts, identifier, i),
    decreases bound,
{
    if exists|j: int| 0 <= j < bound && (#[trigger] accounts[j])@.email == identifier {
        let j = choose|j: int| 0 <= j < bound && (#[trigger] accounts[j])@.email == identifier;
        lemma_first_match_before(accounts, identifier, j);
        let i = choose|i: int| 0 <= i <= j && is_first_match(accounts, identifier, i);
        assert(0 <= i <= bound && is_first_match(accounts, identifier, i));
    } else {
        assert(is_first_match(accounts, identifier, bound));
    }
}

} // verus!
