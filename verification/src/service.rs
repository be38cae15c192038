//! The identity engine: the account store and the activation, and the
//! operations that change them.

use vstd::prelude::*;
use vstd::string::StringExecFns;
use crate::account::{
    account_names, find_account, has_name, names_distinct, names_nonempty, names_of, store_view,
    strings_view, Account, AccountView,
};
use crate::error::{GitShiftError, Selector};
use crate::model::{
    active_after_activate, active_after_remove, active_resolves, first_named, is_active,
    lemma_add_activate_preserve, lemma_add_appends, lemma_first_match_unique,
    lemma_remove_preserves, name_is_free, selectable, selects, store_after_add,
};
use crate::state::optional_view;
use crate::sshkey::{
    begins_with, carries_comment, identifier_of, lemma_key_paths_differ, private_key_header,
    private_key_path, KeyAlgorithm, SSHKey,
};

verus! {

/// The accounts file below the configuration directory `dir`.
pub open spec fn config_file_of(dir: Seq<char>) -> Seq<char> {
    dir + "/config.json"@
}

/// The activation file below the configuration directory `dir`.
pub open spec fn state_file_of(dir: Seq<char>) -> Seq<char> {
    dir + "/state.json"@
}

/// The directory of key files below the configuration directory `dir`.
pub open spec fn key_dir_of(dir: Seq<char>) -> Seq<char> {
    dir + "/ssh_keys"@
}

/// The SSH command that makes git use the private key at `key_path`.
pub open spec fn ssh_command_for(key_path: Seq<char>) -> Seq<char> {
    "ssh -i "@ + key_path
}

/// The record that the store keeps of a generated key.
pub open spec fn account_for(name: Seq<char>, email: Seq<char>, key: SSHKey) -> AccountView {
    AccountView {
        name,
        ssh_key_path: private_key_path(key.dir(), key.owner()),
        email,
        public_key: key.public_text(),
    }
}

/// Every account of the store keeps its private key in the file that `dir`
/// has for its name.
pub open spec fn keys_in_dir(store: Seq<AccountView>, dir: Seq<char>) -> bool {
    forall|i: int|
        0 <= i < store.len() ==> (#[trigger] store[i]).ssh_key_path == private_key_path(
            dir,
            store[i].name,
        )
}

/// Where names are distinct and every key is in its place, no two accounts
/// share a private key file.
pub proof fn lemma_key_files_distinct(store: Seq<AccountView>, dir: Seq<char>)
    requires
        names_distinct(store),
        keys_in_dir(store, dir),
    ensures
        forall|i: int, j: int|
            0 <= i < j < store.len() ==> (#[trigger] store[i]).ssh_key_path != (
            #[trigger] store[j]).ssh_key_path,
{
    assert forall|i: int, j: int| 0 <= i < j < store.len() implies (#[trigger] store[i]).ssh_key_path
        != (#[trigger] store[j]).ssh_key_path by {
        assert(store[i].name != store[j].name);
        lemma_key_paths_differ(dir, store[i].name, store[j].name);
    }
}

/// The accounts file below `config_dir`.
pub fn config_file_path(config_dir: &str) -> (r: String)
    ensures
        r@ == config_file_of(config_dir@),
{
    String::from_str(config_dir).concat("/config.json")
}

/// The activation file below `config_dir`.
pub fn state_file_path(config_dir: &str) -> (r: String)
    ensures
        r@ == state_file_of(config_dir@),
{
    String::from_str(config_dir).concat("/state.json")
}

/// The directory of key files below `config_dir`.
pub fn key_dir_path(config_dir: &str) -> (r: String)
    ensures
        r@ == key_dir_of(config_dir@),
{
    String::from_str(config_dir).concat("/ssh_keys")
}

/// What git is to be run with: the repository to clone, and the SSH command
/// to hand over in `GIT_SSH_COMMAND`.
#[derive(Debug)]
pub struct GitInvocation {
    pub repo_url: String,
    pub ssh_command: String,
}

/// An account together with whether it is the active one.
#[derive(Debug)]
pub struct AccountInfo {
    pub account: Account,
    pub is_active: bool,
}

/// The outcome of a removal.
#[derive(Debug)]
pub struct Removal {
    /// Where the account stood in the store, counted from zero.
    pub index: usize,
    /// The record that left the store.
    pub account: Account,
    /// The account was the active one, and the activation is now empty.
    pub cleared_active: bool,
}

/// The engine's state for one invocation: where its files are, the
/// accounts in insertion order, and the active account's name, if any.
pub struct GitShift {
    config_path: String,
    state_path: String,
    ssh_key_dir: String,
    accounts: Vec<Account>,
    active: Option<String>,
}

impl GitShift {
    /// The accounts, in insertion order.
    pub closed spec fn store(&self) -> Seq<AccountView> {
        store_view(self.accounts@)
    }

    /// The name of the active account, if any.
    pub closed spec fn active_name(&self) -> Option<Seq<char>> {
        optional_view(self.active)
    }

    /// The accounts file.
    pub closed spec fn config_file(&self) -> Seq<char> {
        self.config_path@
    }

    /// The activation file.
    pub closed spec fn state_file(&self) -> Seq<char> {
        self.state_path@
    }

    /// The directory of key files.
    pub closed spec fn key_dir(&self) -> Seq<char> {
        self.ssh_key_dir@
    }

    /// The files are where they were.
    pub open spec fn same_files(&self, other: &GitShift) -> bool {
        &&& self.config_file() == other.config_file()
        &&& self.state_file() == other.state_file()
        &&& self.key_dir() == other.key_dir()
    }

    /// No two accounts share a name.
    pub open spec fn distinct(&self) -> bool {
        names_distinct(self.store())
    }

    /// No account carries the empty name.
    pub open spec fn named(&self) -> bool {
        names_nonempty(self.store())
    }

    /// The activation names an account of the store, or nothing.
    pub open spec fn resolves(&self) -> bool {
        active_resolves(self.store(), self.active_name())
    }

    /// Every account keeps its private key in the engine's key directory,
    /// in the file for its name.
    pub open spec fn keys_in_place(&self) -> bool {
        keys_in_dir(self.store(), self.key_dir())
    }

    /// An engine over the files below `config_dir`, holding the accounts and
    /// the activation as they were read.
    pub fn new(config_dir: &str, accounts: Vec<Account>, active: Option<String>) -> (r: GitShift)
        ensures
            r.config_file() == config_file_of(config_dir@),
            r.state_file() == state_file_of(config_dir@),
            r.key_dir() == key_dir_of(config_dir@),
            r.store() == store_view(accounts@),
            r.active_name() == optional_view(active),
    {
        GitShift {
            config_path: config_file_path(config_dir),
            state_path: state_file_path(config_dir),
            ssh_key_dir: key_dir_path(config_dir),
            accounts,
            active,
        }
    }

    /// The accounts file.
    pub fn config_path(&self) -> (r: &String)
        ensures
            r@ == self.config_file(),
    {
        &self.config_path
    }

    /// The activation file.
    pub fn state_path(&self) -> (r: &String)
        ensures
            r@ == self.state_file(),
    {
        &self.state_path
    }

    /// The directory of key files.
    pub fn ssh_key_dir(&self) -> (r: &String)
        ensures
            r@ == self.key_dir(),
    {
        &self.ssh_key_dir
    }

    /// The accounts, in insertion order, for the caller that persists them.
    pub fn accounts(&self) -> (r: &Vec<Account>)
        ensures
            store_view(r@) == self.store(),
    {
        &self.accounts
    }

    /// The name of the active account, if any, for the caller that
    /// persists it.
    pub fn active(&self) -> (r: &Option<String>)
        ensures
            self.active_name() == optional_view(*r),
    {
        &self.active
    }

    /// The names of all accounts, in insertion order.
    pub fn list_accounts(&self) -> (r: Vec<String>)
        ensures
            strings_view(r@) == names_of(self.store()),
    {
        account_names(&self.accounts)
    }

    /// Makes `account_name` the active account. An unknown name is refused
    /// and changes nothing.
    pub fn activate_account(&mut self, account_name: &str) -> (r: Result<(), GitShiftError>)
        ensures
            final(self).same_files(old(self)),
            final(self).store() == old(self).store(),
            final(self).active_name() == active_after_activate(
                old(self).store(),
                old(self).active_name(),
                account_name@,
            ),
            has_name(old(self).store(), account_name@) ==> r is Ok,
            !has_name(old(self).store(), account_name@) ==> *final(self) == *old(self) && (
            r matches Err(GitShiftError::NotFound(Selector::Name(n))) && n@ == account_name@),
            old(self).distinct() ==> final(self).distinct(),
            old(self).named() ==> final(self).named(),
            old(self).resolves() ==> final(self).resolves(),
            old(self).keys_in_place() ==> final(self).keys_in_place(),
    {
        let name = String::from_str(account_name);
        match find_account(&self.accounts, &name) {
            None => Err(GitShiftError::NotFound(Selector::Name(name))),
            Some(_) => {
                self.active = Some(name);
                Ok(())
            },
        }
    }

    /// Leaves no account active.
    pub fn clear_active(&mut self)
        ensures
            final(self).same_files(old(self)),
            final(self).store() == old(self).store(),
            final(self).active_name() == None::<Seq<char>>,
            final(self).resolves(),
            old(self).keys_in_place() ==> final(self).keys_in_place(),
    {
        self.active = None;
    }

    /// What `git clone` of `repo_url` is to be run with under the active
    /// account. Fails if no account is active, or if the active name is not
    /// in the store.
    pub fn clone_repo(&self, repo_url: &str) -> (r: Result<GitInvocation, GitShiftError>)
        ensures
            match self.active_name() {
                None => r matches Err(GitShiftError::NoActiveAccount),
                Some(name) => if has_name(self.store(), name) {
                    r matches Ok(invocation) && invocation.repo_url@ == repo_url@
                        && invocation.ssh_command@ == ssh_command_for(
                        first_named(self.store(), name).ssh_key_path,
                    )
                } else {
                    r matches Err(GitShiftError::DanglingActiveAccount(n)) && n@ == name
                },
            },
    {
        match &self.active {
            None => Err(GitShiftError::NoActiveAccount),
            Some(name) => match find_account(&self.accounts, name) {
                None => Err(GitShiftError::DanglingActiveAccount(name.clone())),
                Some(i) => {
                    proof {
                        lemma_first_match_unique(self.store(), name@, i as int);
                    }
                    Ok(
                        GitInvocation {
                            repo_url: String::from_str(repo_url),
                            ssh_command: String::from_str("ssh -i ").concat(
                                self.accounts[i].ssh_key_path.as_str(),
                            ),
                        },
                    )
                },
            },
        }
    }

    /// The first account named `account_name`, and whether it is the
    /// active one.
    pub fn get_account_info(&self, account_name: &str) -> (r: Result<AccountInfo, GitShiftError>)
        ensures
            has_name(self.store(), account_name@) ==> (r matches Ok(info) && info.account@
                == first_named(self.store(), account_name@) && info.is_active == is_active(
                self.active_name(),
                account_name@,
            )),
            !has_name(self.store(), account_name@) ==> (r matches Err(
                GitShiftError::NotFound(Selector::Name(n)),
            ) && n@ == account_name@),
    {
        let name = String::from_str(account_name);
        match find_account(&self.accounts, &name) {
            None => Err(GitShiftError::NotFound(Selector::Name(name))),
            Some(i) => {
                proof {
                    lemma_first_match_unique(self.store(), account_name@, i as int);
                }
                let is_active = match &self.active {
                    Some(active) => *active == name,
                    None => false,
                };
                Ok(AccountInfo { account: self.accounts[i].clone(), is_active })
            },
        }
    }

    /// The position, counted from zero, of the account that `selector`
    /// picks.
    pub fn resolve(&self, selector: &Selector) -> (r: Result<usize, GitShiftError>)
        ensures
            match r {
                Ok(i) => selects(self.store(), selector@, i as int),
                Err(e) => !selectable(self.store(), selector@) && (e matches GitShiftError::NotFound(
                    s,
                ) && s@ == selector@),
            },
    {
        match selector {
            Selector::Position(p) => {
                if 1 <= *p && *p <= self.accounts.len() {
                    Ok(*p - 1)
                } else {
                    Err(GitShiftError::NotFound(selector.clone()))
                }
            },
            Selector::Name(name) => match find_account(&self.accounts, name) {
                Some(i) => Ok(i),
                None => Err(GitShiftError::NotFound(selector.clone())),
            },
        }
    }

    /// Takes the account that `selector` picks out of the store, and clears
    /// the activation if that account was the active one. A selector that
    /// picks nothing is refused and changes nothing.
    pub fn remove_account(&mut self, selector: &Selector) -> (r: Result<Removal, GitShiftError>)
        ensures
            final(self).same_files(old(self)),
            match r {
                Ok(removed) => {
                    let i = removed.index as int;
                    &&& selects(old(self).store(), selector@, i)
                    &&& removed.account@ == old(self).store()[i]
                    &&& removed.cleared_active == is_active(
                        old(self).active_name(),
                        old(self).store()[i].name,
                    )
                    &&& final(self).store() == old(self).store().remove(i)
                    &&& final(self).active_name() == active_after_remove(
                        old(self).store(),
                        old(self).active_name(),
                        i,
                    )
                },
                Err(e) => {
                    &&& !selectable(old(self).store(), selector@)
                    &&& e matches GitShiftError::NotFound(s) && s@ == selector@
                    &&& *final(self) == *old(self)
                },
            },
            old(self).distinct() ==> final(self).distinct(),
            old(self).named() ==> final(self).named(),
            old(self).resolves() ==> final(self).resolves(),
            old(self).keys_in_place() ==> final(self).keys_in_place(),
    {
        match self.resolve(selector) {
            Err(e) => Err(e),
            Ok(index) => {
                proof {
                    lemma_remove_preserves(self.store(), self.active_name(), index as int);
                }
                let account = self.accounts.remove(index);
                let cleared_active = match &self.active {
                    Some(active) => *active == account.name,
                    None => false,
                };
                if cleared_active {
                    self.active = None;
                }
                assert(self.store() =~= old(self).store().remove(index as int));
                Ok(Removal { index, account, cleared_active })
            },
        }
    }

    /// Takes the account that `selector` picks out of the store once its
    /// private key file is gone: `deleted` is the outcome of deleting it. A
    /// failed deletion aborts the removal: nothing changes, and the failure
    /// is handed on as an I/O failure. After a deletion that went through
    /// this is [`GitShift::remove_account`].
    pub fn finish_removal(&mut self, selector: &Selector, deleted: Result<(), String>) -> (r:
        Result<Removal, GitShiftError>)
        ensures
            final(self).same_files(old(self)),
            match deleted {
                Err(detail) => *final(self) == *old(self) && (r matches Err(
                    GitShiftError::Io(d),
                ) && d@ == detail@),
                Ok(_) => match r {
                    Ok(removed) => {
                        let i = removed.index as int;
                        &&& selects(old(self).store(), selector@, i)
                        &&& removed.account@ == old(self).store()[i]
                        &&& removed.cleared_active == is_active(
                            old(self).active_name(),
                            old(self).store()[i].name,
                        )
                        &&& final(self).store() == old(self).store().remove(i)
                        &&& final(self).active_name() == active_after_remove(
                            old(self).store(),
                            old(self).active_name(),
                            i,
                        )
                    },
                    Err(e) => {
                        &&& !selectable(old(self).store(), selector@)
                        &&& e matches GitShiftError::NotFound(s) && s@ == selector@
                        &&& *final(self) == *old(self)
                    },
                },
            },
            old(self).distinct() ==> final(self).distinct(),
            old(self).named() ==> final(self).named(),
            old(self).resolves() ==> final(self).resolves(),
            old(self).keys_in_place() ==> final(self).keys_in_place(),
    {
        match deleted {
            Err(detail) => Err(GitShiftError::Io(detail)),
            Ok(_) => self.remove_account(selector),
        }
    }

    /// Whether an account may be added under `name`: not under the empty
    /// name, and not under a name that is taken.
    pub fn check_new_name(&self, name: &str) -> (r: Result<(), GitShiftError>)
        ensures
            name@.len() == 0 ==> r matches Err(GitShiftError::InvalidName),
            name@.len() > 0 && has_name(self.store(), name@) ==> (r matches Err(
                GitShiftError::DuplicateAccount(n),
            ) && n@ == name@),
            name_is_free(self.store(), name@) ==> r is Ok,
    {
        let owned_name = String::from_str(name);
        if name.unicode_len() == 0 {
            return Err(GitShiftError::InvalidName);
        }
        match find_account(&self.accounts, &owned_name) {
            Some(_) => Err(GitShiftError::DuplicateAccount(owned_name)),
            None => Ok(()),
        }
    }

    /// Records the account `name` with `key` once the key's files are on
    /// disk: `written` is the outcome of writing them. The empty name and a
    /// name that is taken are refused, and a failed write is handed on as an
    /// I/O failure; in all three cases nothing changes. Otherwise the
    /// account is appended with the key's private key file and public key,
    /// and handed back.
    pub fn record_key(
        &mut self,
        name: &str,
        email: &str,
        key: &SSHKey,
        written: Result<(), String>,
    ) -> (r: Result<Account, GitShiftError>)
        ensures
            final(self).same_files(old(self)),
            final(self).active_name() == old(self).active_name(),
            name@.len() == 0 ==> r matches Err(GitShiftError::InvalidName),
            name@.len() > 0 && has_name(old(self).store(), name@) ==> (r matches Err(
                GitShiftError::DuplicateAccount(n),
            ) && n@ == name@),
            name_is_free(old(self).store(), name@) ==> match written {
                Ok(_) => r matches Ok(account) && account@ == account_for(name@, email@, *key),
                Err(detail) => r matches Err(GitShiftError::Io(d)) && d@ == detail@,
            },
            r is Ok ==> final(self).store() == old(self).store().push(
                account_for(name@, email@, *key),
            ),
            r is Err ==> *final(self) == *old(self),
            final(self).store() == if written is Ok {
                store_after_add(old(self).store(), account_for(name@, email@, *key))
            } else {
                old(self).store()
            },
            old(self).distinct() ==> final(self).distinct(),
            old(self).named() ==> final(self).named(),
            old(self).resolves() ==> final(self).resolves(),
            old(self).keys_in_place() && key.dir() == old(self).key_dir() && key.owner() == name@
                ==> final(self).keys_in_place(),
    {
        match self.check_new_name(name) {
            Err(e) => Err(e),
            Ok(_) => match written {
                Err(detail) => Err(GitShiftError::Io(detail)),
                Ok(_) => {
                    proof {
                        let account = account_for(name@, email@, *key);
                        lemma_add_appends(self.store(), account);
                        if active_resolves(self.store(), self.active_name()) {
                            lemma_add_activate_preserve(
                                self.store(),
                                self.active_name(),
                                account,
                                name@,
                            );
                        }
                    }
                    let (private_path, _) = key.save_keypair();
                    let account = Account {
                        name: String::from_str(name),
                        ssh_key_path: private_path,
                        email: String::from_str(email),
                        public_key: key.public_key().clone(),
                    };
                    self.accounts.push(account.clone());
                    assert(self.store() =~= old(self).store().push(
                        account_for(name@, email@, *key),
                    ));
                    Ok(account)
                },
            },
        }
    }

    /// Begins the addition of an account `name`: generates a key of
    /// `algorithm` whose public half carries `email` as its comment, for the
    /// engine's key directory. The empty name and a name that is taken are
    /// refused before any key is generated. Nothing is recorded here: the
    /// caller writes the key's files and hands the outcome to
    /// [`GitShift::record_key`]. The key is random: the contract says what
    /// holds of every key that comes back.
    pub fn add_account(&self, name: &str, email: &str, algorithm: KeyAlgorithm) -> (r: Result<
        SSHKey,
        GitShiftError,
    >)
        ensures
            name@.len() == 0 ==> r matches Err(GitShiftError::InvalidName),
            name@.len() > 0 && has_name(self.store(), name@) ==> (r matches Err(
                GitShiftError::DuplicateAccount(n),
            ) && n@ == name@),
            name_is_free(self.store(), name@) ==> match r {
                Ok(key) => {
                    &&& key.kind() == algorithm
                    &&& begins_with(key.public_text(), identifier_of(algorithm) + " "@)
                    &&& carries_comment(key.public_text(), email@)
                    &&& begins_with(key.secret(), private_key_header())
                    &&& key.dir() == self.key_dir()
                    &&& key.owner() == name@
                },
                Err(e) => e is KeyGeneration,
            },
    {
        match self.check_new_name(name) {
            Err(e) => Err(e),
            Ok(_) => SSHKey::generate(algorithm, email, self.ssh_key_dir.as_str(), name),
        }
    }
}

} // verus!
