//! The account segment: free-form, any text is accepted.

use vstd::prelude::*;

verus! {

/// The third segment of an identifier. Free-form: any text, including the
/// empty string, is a valid account.
#[derive(Debug, Eq, Hash)]
pub struct Account {
    name: String,
}

impl View for Account {
    type V = Seq<char>;

    closed spec fn view(&self) -> Seq<char> {
        self.name@
    }
}

impl Account {
    /// Wraps `raw` as a account; every string is accepted.
    pub fn new(raw: &str) -> (r: Account)
        ensures
            r@ == raw@,
    {
        Account { name: raw.to_owned() }
    }

    /// The raw text of the account.
    pub fn as_str(&self) -> (r: &str)
        ensures
            r@ == self@,
    {
        self.name.as_str()
    }
}

impl Clone for Account {
    fn clone(&self) -> (r: Account)
        ensures
            r@ == self@,
    {
        Account { name: self.name.clone() }
    }
}

impl PartialEq for Account {
    fn eq(&self, other: &Account) -> bool {
        self.name == other.name
    }
}

impl vstd::std_specs::cmp::PartialEqSpecImpl for Account {
    open spec fn obeys_eq_spec() -> bool {
        true
    }

    open spec fn eq_spec(&self, other: &Account) -> bool {
        self@ == other@
    }
}

impl Default for Account {
    /// The default account is the empty string.
    fn default() -> (r: Account)
        ensures
            r@ == Seq::<char>::empty(),
    {
        Account { name: String::new() }
    }
}

impl core::str::FromStr for Account {
    type Err = crate::errors::ArnError;

    fn from_str(s: &str) -> Result<Account, Self::Err> {
        Ok(Account::new(s))
    }
}

} // verus!
