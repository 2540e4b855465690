//! Credentials: the named secrets held by the vault, and the on-disk record
//! shape they are decoded from.

use vstd::prelude::*;

use crate::clipboard::ClipboardHandle;

verus! {

/// A decoded vault record as it appears on disk: legacy capitalized field
/// names, fixed by format compatibility with existing vault files.
#[allow(non_snake_case)]
pub struct JsonAccount {
    pub Name: String,
    pub Password: String,
}

/// A named credential held by the unlocked vault. Immutable once loaded.
pub struct Account {
    name: String,
    password: String,
}

/// The mathematical content of an `Account`.
pub struct AccountV {
    pub name: Seq<char>,
    pub password: Seq<char>,
}

impl View for Account {
    type V = AccountV;

    closed spec fn view(&self) -> AccountV {
        AccountV { name: self.name@, password: self.password@ }
    }
}

impl Account {
    /// The display name of this credential.
    pub fn name(&self) -> (r: &String)
        ensures
            r@ == self@.name,
    {
        &self.name
    }

    /// The secret this credential guards.
    pub fn password(&self) -> (r: &String)
        ensures
            r@ == self@.password,
    {
        &self.password
    }

    /// Writes this credential's secret through the given clipboard handle,
    /// handing the handle back so ownership continues forward.
    pub fn copy_pass(&self, clip: ClipboardHandle) -> (r: (ClipboardHandle, Result<(), String>))
        ensures
            r.1 is Ok ==> r.0.written() == Some(self@.password),
            r.1 is Err ==> r.0.written() == clip.written(),
    {
        let mut clip = clip;
        let outcome = clip.set_text(self.password.as_str());
        (clip, outcome)
    }
}

impl From<JsonAccount> for Account {
    fn from(value: JsonAccount) -> (r: Account) {
        Account { name: value.Name, password: value.Password }
    }
}

impl vstd::std_specs::convert::FromSpecImpl<JsonAccount> for Account {
    open spec fn obeys_from_spec() -> bool {
        true
    }

    closed spec fn from_spec(value: JsonAccount) -> Account {
        Account { name: value.Name, password: value.Password }
    }
}

/// A record carries over into the credential it becomes: conversion keeps
/// the name and the secret unchanged.
pub proof fn lemma_from_json_account(value: JsonAccount)
    ensures
        (<Account as vstd::std_specs::convert::FromSpec<JsonAccount>>::from_spec(value))@
            == (AccountV { name: value.Name@, password: value.Password@ }),
{
}

} // verus!
