//! In-memory model of the accounts store.
//!
//! The running system keeps accounts in an external database reached through
//! a find-by-email / find-by-id / create interface; the database's unique
//! constraint on the email column is the final authority on conflicts.  This
//! module models that interface as a value with the same three operations,
//! so that the authentication and registration rules over it are proved.

use vstd::prelude::*;

verus! {

/// One account row.  The password hash is absent for accounts created
/// through an identity provider.
pub struct Account {
    pub id: u128,
    pub email: String,
    pub password_hash: Option<String>,
    pub name: String,
    pub avatar: Option<String>,
}

/// The data handed to the store when creating an account.
pub struct CreateUserData {
    pub email: String,
    pub password: String,
    pub name: String,
}

/// The store's refusal to create a second account with an email it already
/// holds: the unique constraint on the email column.
#[derive(Debug)]
pub enum CreateUserError {
    UniqueViolation,
}

/// The first account in `s` holding `email`.
pub open spec fn account_by_email(s: Seq<Account>, email: Seq<char>) -> Option<Account>
    decreases s.len(),
{
    if s.len() == 0 {
        None
    } else if s[0].email@ == email {
        Some(s[0])
    } else {
        account_by_email(s.drop_first(), email)
    }
}

/// In-memory model of the accounts store.
pub struct AccountsStore {
    accounts: Vec<Account>,
}

impl AccountsStore {
    /// What the store holds under `email`.
    pub closed spec fn spec_by_email(self, email: Seq<char>) -> Option<Account> {
        account_by_email(self.accounts@, email)
    }

    /// What the store holds under `id`.
    pub closed spec fn spec_by_id(self, id: u128) -> Option<Account> {
        if 0 <= id < self.accounts@.len() {
            Some(self.accounts@[id as int])
        } else {
            None
        }
    }

    /// How many accounts the store holds.
    pub closed spec fn spec_len(self) -> nat {
        self.accounts@.len()
    }

    /// Emails are unique, and each account's identifier is its position.
    pub closed spec fn wf(self) -> bool {
        &&& forall|i: int, j: int|
            0 <= i < j < self.accounts@.len() ==> #[trigger] self.accounts@[i].email@
                != #[trigger] self.accounts@[j].email@
        &&& forall|i: int|
            0 <= i < self.accounts@.len() ==> (#[trigger] self.accounts@[i].id) == i as u128
    }

    /// An empty store.
    pub fn new() -> (s: Self)
        ensures
            s.wf(),
            s.spec_len() == 0,
            forall|e: Seq<char>| s.spec_by_email(e) is None,
    {
        let s = AccountsStore { accounts: Vec::new() };
        proof {
            assert forall|e: Seq<char>| s.spec_by_email(e) is None by {
                assert(s.accounts@.len() == 0);
            }
        }
        s
    }

    /// The account holding `email`, if any: the found account carries
    /// exactly the queried email.
    pub fn find_user_by_email(&self, email: &String) -> (r: Option<&Account>)
        ensures
            match r {
                Some(a) => self.spec_by_email(email@) == Some(*a) && a.email@ == email@,
                None => self.spec_by_email(email@) is None,
            },
    {
        let mut i: usize = 0;
        while i < self.accounts.len()
            invariant
                i <= self.accounts@.len(),
                forall|j: int| 0 <= j < i ==> #[trigger] self.accounts@[j].email@ != email@,
            decreases self.accounts@.len() - i,
        {
            if self.accounts[i].email == *email {
                proof {
                    lemma_account_at(self.accounts@, i as int, email@);
                }
                return Some(&self.accounts[i]);
            }
            i = i + 1;
        }
        proof {
            lemma_account_absent(self.accounts@, email@);
        }
        None
    }

    /// The account with identifier `id`, if any: the found account carries
    /// exactly the queried identifier.
    pub fn find_user_by_id(&self, id: u128) -> (r: Option<&Account>)
        requires
            self.wf(),
        ensures
            match r {
                Some(a) => self.spec_by_id(id) == Some(*a) && a.id == id,
                None => self.spec_by_id(id) is None,
            },
    {
        if id < self.accounts.len() as u128 {
            Some(&self.accounts[id as usize])
        } else {
            None
        }
    }

    /// Create an account, or refuse if the email is already held.  A fresh
    /// account gets the next identifier, the given email and name, and the
    /// given string as its stored password hash.
    pub fn create_user(&mut self, user_data: CreateUserData) -> (r: Result<u128, CreateUserError>)
        requires
            old(self).wf(),
        ensures
            final(self).wf(),
            match r {
                Ok(id) => {
                    &&& old(self).spec_by_email(user_data.email@) is None
                    &&& old(self).spec_by_id(id) is None
                    &&& final(self).spec_len() == old(self).spec_len() + 1
                    &&& final(self).spec_by_email(user_data.email@) matches Some(a) && (a.id == id
                        && a.email@ == user_data.email@ && (a.password_hash matches Some(h) && h@
                        == user_data.password@) && a.name@ == user_data.name@)
                    &&& final(self).spec_by_id(id) == final(self).spec_by_email(user_data.email@)
                    &&& forall|e: Seq<char>|
                        e != user_data.email@ ==> #[trigger] final(self).spec_by_email(e) == old(
                            self,
                        ).spec_by_email(e)
                    &&& forall|i: u128|
                        i != id ==> #[trigger] final(self).spec_by_id(i) == old(self).spec_by_id(i)
                },
                Err(e) => {
                    &&& e is UniqueViolation
                    &&& old(self).spec_by_email(user_data.email@) is Some
                    &&& *final(self) == *old(self)
                },
            },
    {
        if self.find_user_by_email(&user_data.email).is_some() {
            return Err(CreateUserError::UniqueViolation);
        }
        let id = self.accounts.len() as u128;
        let account = Account {
            id,
            email: user_data.email,
            password_hash: Some(user_data.password),
            name: user_data.name,
            avatar: None,
        };
        let ghost pre = self.accounts@;
        let ghost gemail = account.email@;
        proof {
            lemma_account_absent(pre, gemail);
        }
        self.accounts.push(account);
        proof {
            let s = self.accounts@;
            let e = s.last();
            assert(s =~= pre.push(e));
            lemma_account_push(pre, e);
            assert forall|k: Seq<char>| k != gemail implies #[trigger] self.spec_by_email(k)
                == account_by_email(pre, k) by {
                assert(account_by_email(s, k) == account_by_email(pre.push(e), k));
            }
            assert forall|a: int, b: int| 0 <= a < b < s.len() implies #[trigger] s[a].email@
                != #[trigger] s[b].email@ by {
                if b < pre.len() {
                    assert(pre[a].email@ != pre[b].email@);
                } else {
                    assert(s[b] == e);
                    assert(pre[a].email@ != gemail);
                }
            }
        }
        Ok(id)
    }
}

/// An email is not found exactly when no account holds it.
proof fn lemma_account_absent(s: Seq<Account>, email: Seq<char>)
    ensures
        (account_by_email(s, email) is None) <==> (forall|j: int|
            0 <= j < s.len() ==> #[trigger] s[j].email@ != email),
    decreases s.len(),
{
    if s.len() > 0 {
        lemma_account_absent(s.drop_first(), email);
        if s[0].email@ == email {
        } else {
            if forall|j: int| 0 <= j < s.len() ==> #[trigger] s[j].email@ != email {
                assert forall|j: int|
                    0 <= j < s.drop_first().len() implies #[trigger] s.drop_first()[j].email@
                        != email by {
                    assert(s.drop_first()[j] == s[j + 1]);
                }
            } else {
                let j = choose|j: int| 0 <= j < s.len() && #[trigger] s[j].email@ == email;
                assert(s.drop_first()[j - 1] == s[j]);
                assert(!(account_by_email(s.drop_first(), email) is None));
            }
        }
    }
}

/// If every account before position `i` misses `email` and the account at
/// `i` holds it, the find resolves to that account.
proof fn lemma_account_at(s: Seq<Account>, i: int, email: Seq<char>)
    requires
        0 <= i < s.len(),
        s[i].email@ == email,
        forall|j: int| 0 <= j < i ==> #[trigger] s[j].email@ != email,
    ensures
        account_by_email(s, email) == Some(s[i]),
    decreases i,
{
    if i > 0 {
        assert forall|j: int| 0 <= j < i - 1 implies #[trigger] s.drop_first()[j].email@
            != email by {
            assert(s.drop_first()[j] == s[j + 1]);
        }
        assert(s.drop_first()[i - 1] == s[i]);
        lemma_account_at(s.drop_first(), i - 1, email);
    }
}

/// Appending an account binds its email only where it was absent and leaves
/// every other email's association in place.
proof fn lemma_account_push(s: Seq<Account>, e: Account)
    ensures
        account_by_email(s.push(e), e.email@) == if account_by_email(s, e.email@) is Some {
            account_by_email(s, e.email@)
        } else {
            Some(e)
        },
        forall|k: Seq<char>|
            k != e.email@ ==> #[trigger] account_by_email(s.push(e), k) == account_by_email(s, k),
    decreases s.len(),
{
    if s.len() == 0 {
        assert(s.push(e)[0] == e);
        assert(s.push(e).drop_first() =~= Seq::<Account>::empty());
        assert forall|k: Seq<char>| k != e.email@ implies #[trigger] account_by_email(s.push(e), k)
            == account_by_email(s, k) by {
            assert(account_by_email(s.push(e), k) == account_by_email(Seq::<Account>::empty(), k));
        }
    } else {
        assert(s.push(e)[0] == s[0]);
        assert(s.push(e).drop_first() =~= s.drop_first().push(e));
        lemma_account_push(s.drop_first(), e);
        assert forall|k: Seq<char>| k != e.email@ implies #[trigger] account_by_email(s.push(e), k)
            == account_by_email(s, k) by {
            if s[0].email@ != k {
                assert(account_by_email(s.push(e), k) == account_by_email(
                    s.drop_first().push(e),
                    k,
                ));
                assert(account_by_email(s, k) == account_by_email(s.drop_first(), k));
            }
        }
        if s[0].email@ != e.email@ {
            assert(account_by_email(s.push(e), e.email@) == account_by_email(
                s.drop_first().push(e),
                e.email@,
            ));
        }
    }
}

} // verus!
