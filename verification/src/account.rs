//! Account records and the mathematical model of an ordered account store.

use vstd::prelude::*;
use vstd::string::StringExecFns;
use crate::error::GitShiftError;

verus! {

/// One configured identity.
#[derive(Debug)]
pub struct Account {
    /// Primary key of the account; compared case-sensitively.
    pub name: String,
    /// Location of the account's private key file.
    pub ssh_key_path: String,
    /// Comment embedded in the public key.
    pub email: String,
    /// Full encoded public key text, comment included.
    pub public_key: String,
}

/// What an [`Account`] is, as plain character sequences.
pub struct AccountView {
    pub name: Seq<char>,
    pub ssh_key_path: Seq<char>,
    pub email: Seq<char>,
    pub public_key: Seq<char>,
}

impl View for Account {
    type V = AccountView;

    open spec fn view(&self) -> AccountView {
        AccountView {
            name: self.name@,
            ssh_key_path: self.ssh_key_path@,
            email: self.email@,
            public_key: self.public_key@,
        }
    }
}

impl Clone for Account {
    fn clone(&self) -> (res: Account)
        ensures
            res@ == self@,
    {
        Account {
            name: self.name.clone(),
            ssh_key_path: self.ssh_key_path.clone(),
            email: self.email.clone(),
            public_key: self.public_key.clone(),
        }
    }
}

/// The store as a sequence of account views, in insertion order.
pub open spec fn store_view(accounts: Seq<Account>) -> Seq<AccountView> {
    Seq::new(accounts.len(), |i: int| accounts[i]@)
}

/// The names of the store, in order.
pub open spec fn names_of(store: Seq<AccountView>) -> Seq<Seq<char>> {
    Seq::new(store.len(), |i: int| store[i].name)
}

/// The views of a vector of strings, in order.
pub open spec fn strings_view(v: Seq<String>) -> Seq<Seq<char>> {
    Seq::new(v.len(), |i: int| v[i]@)
}

/// Some account of the store carries `name`.
pub open spec fn has_name(store: Seq<AccountView>, name: Seq<char>) -> bool {
    exists|i: int| 0 <= i < store.len() && #[trigger] store[i].name == name
}

/// `i` is the position of the first account that carries `name`.
pub open spec fn is_first_match(store: Seq<AccountView>, name: Seq<char>, i: int) -> bool {
    &&& 0 <= i < store.len()
    &&& store[i].name == name
    &&& forall|j: int| 0 <= j < i ==> #[trigger] store[j].name != name
}

/// No two accounts of the store share a name.
pub open spec fn names_distinct(store: Seq<AccountView>) -> bool {
    forall|i: int, j: int|
        0 <= i < j < store.len() ==> #[trigger] store[i].name != #[trigger] store[j].name
}

/// No account of the store carries the empty name.
pub open spec fn names_nonempty(store: Seq<AccountView>) -> bool {
    forall|i: int| 0 <= i < store.len() ==> (#[trigger] store[i]).name.len() > 0
}

/// Position of the first account named `name`, if there is one.
pub fn find_account(accounts: &Vec<Account>, name: &String) -> (r: Option<usize>)
    ensures
        match r {
            Some(i) => is_first_match(store_view(accounts@), name@, i as int),
            None => !has_name(store_view(accounts@), name@),
        },
{
    let mut i: usize = 0;
    while i < accounts.len()
        invariant
            i <= accounts.len(),
            forall|j: int| 0 <= j < i ==> #[trigger] store_view(accounts@)[j].name != name@,
        decreases accounts.len() - i,
    {
        if accounts[i].name == *name {
            return Some(i);
        }
        i += 1;
    }
    None
}

/// The names of the accounts, in store order.
pub fn account_names(accounts: &Vec<Account>) -> (r: Vec<String>)
    ensures
        strings_view(r@) == names_of(store_view(accounts@)),
{
    let mut names: Vec<String> = Vec::new();
    let mut i: usize = 0;
    while i < accounts.len()
        invariant
            i <= accounts.len(),
            names@.len() == i,
            forall|j: int| 0 <= j < i ==> (#[trigger] names@[j])@ == accounts@[j].name@,
        decreases accounts.len() - i,
    {
        names.push(accounts[i].name.clone());
        i += 1;
    }
    assert(strings_view(names@) =~= names_of(store_view(accounts@)));
    names
}

/// The store that a read of the accounts file amounts to. A file that was
/// never written (`None`) is an empty store; a file that the reader could
/// not make accounts of is a corrupt store; otherwise the store holds the
/// accounts as they were read, in their order.
pub fn accounts_from_parsed(parsed: Option<Result<Vec<Account>, serde_json::Error>>) -> (r: Result<
    Vec<Account>,
    GitShiftError,
>)
    ensures
        match parsed {
            None => r matches Ok(accounts) && accounts@.len() == 0,
            Some(Ok(accounts)) => r == Ok::<Vec<Account>, GitShiftError>(accounts),
            Some(Err(_)) => r matches Err(GitShiftError::CorruptStore(what)) && what@
                == "config file"@,
        },
{
    match parsed {
        None => Ok(Vec::new()),
        Some(Ok(accounts)) => Ok(accounts),
        Some(Err(_)) => Err(GitShiftError::CorruptStore(String::from_str("config file"))),
    }
}

} // verus!
