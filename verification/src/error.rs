//! Failures that the engine reports.

use vstd::prelude::*;
use vstd::string::StringExecFns;

verus! {

/// How an account is picked for removal.
#[derive(Debug)]
pub enum Selector {
    /// The position in the listed sequence, counted from one.
    Position(usize),
    /// The account's name.
    Name(String),
}

/// What a [`Selector`] is, as plain values.
pub enum SelectorView {
    Position(int),
    Name(Seq<char>),
}

impl View for Selector {
    type V = SelectorView;

    open spec fn view(&self) -> SelectorView {
        match self {
            Selector::Position(p) => SelectorView::Position(*p as int),
            Selector::Name(n) => SelectorView::Name(n@),
        }
    }
}

impl Clone for Selector {
    fn clone(&self) -> (res: Selector)
        ensures
            res@ == self@,
    {
        match self {
            Selector::Position(p) => Selector::Position(*p),
            Selector::Name(n) => Selector::Name(n.clone()),
        }
    }
}

/// Why no key was generated.
#[derive(Debug)]
pub enum KeyFailure {
    /// The system's entropy source gave no seed.
    Entropy(rand::Error),
    /// The generator refused the algorithm, or failed to encode the key.
    Generator(ssh_key::Error),
    /// The generator handed back a key of another algorithm than the one
    /// asked for.
    WrongAlgorithm,
}

/// A typed failure of an engine operation.
#[derive(Debug)]
pub enum GitShiftError {
    /// An account was to be added under the empty name.
    InvalidName,
    /// An account of that name is already in the store.
    DuplicateAccount(String),
    /// No account matches the name or position.
    NotFound(Selector),
    /// No account has been activated.
    NoActiveAccount,
    /// The active name is not in the store.
    DanglingActiveAccount(String),
    /// A file of the store could not be parsed; the payload says which.
    CorruptStore(String),
    /// No key was generated; the cause is carried along.
    KeyGeneration(KeyFailure),
    /// A file could not be read, written, removed or protected; the payload
    /// describes the failure.
    Io(String),
}

impl GitShiftError {
    /// The message under which the failure is shown.
    pub open spec fn message_text(&self) -> Seq<char> {
        match self {
            GitShiftError::InvalidName => "Account name must not be empty"@,
            GitShiftError::DuplicateAccount(name) => "Account '"@ + name@ + "' already exists"@,
            GitShiftError::NotFound(Selector::Name(name)) => "Account '"@ + name@ + "' not found"@,
            GitShiftError::NotFound(Selector::Position(_)) => "Invalid account number"@,
            GitShiftError::NoActiveAccount => "No active account. Use 'activate' first"@,
            GitShiftError::DanglingActiveAccount(name) => "Active account '"@ + name@
                + "' not found in config"@,
            GitShiftError::CorruptStore(what) => "Failed to parse "@ + what@,
            GitShiftError::KeyGeneration(_) => "Key generation failed"@,
            GitShiftError::Io(detail) => detail@,
        }
    }

    /// The message under which the failure is shown.
    pub fn message(&self) -> (r: String)
        ensures
            r@ == self.message_text(),
    {
        match self {
            GitShiftError::InvalidName => String::from_str("Account name must not be empty"),
            GitShiftError::DuplicateAccount(name) => String::from_str("Account '").concat(
                name.as_str(),
            ).concat("' already exists"),
            GitShiftError::NotFound(Selector::Name(name)) => String::from_str("Account '").concat(
                name.as_str(),
            ).concat("' not found"),
            GitShiftError::NotFound(Selector::Position(_)) => String::from_str(
                "Invalid account number",
            ),
            GitShiftError::NoActiveAccount => String::from_str(
                "No active account. Use 'activate' first",
            ),
            GitShiftError::DanglingActiveAccount(name) => String::from_str(
                "Active account '",
            ).concat(name.as_str()).concat("' not found in config"),
            GitShiftError::CorruptStore(what) => String::from_str("Failed to parse ").concat(
                what.as_str(),
            ),
            GitShiftError::KeyGeneration(_) => String::from_str("Key generation failed"),
            GitShiftError::Io(detail) => detail.clone(),
        }
    }
}

/// The error that the key generator reports.
#[verifier::external_type_specification]
#[verifier::external_body]
pub struct ExKeyError(ssh_key::Error);

/// The error that the entropy source reports.
#[verifier::external_type_specification]
#[verifier::external_body]
pub struct ExEntropyError(rand::Error);

} // verus!
