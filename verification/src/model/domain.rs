//! The domain segment: the first segment of every identifier.

use vstd::prelude::*;

use crate::errors::ArnError;
use crate::text::{domain_valid, find_char_from};

verus! {

/// The first segment of an identifier. Valid when non-empty and free of both
/// the segment separator ':' and the hierarchy separator '/'.
#[derive(Debug, Eq, Hash)]
pub struct Domain {
    name: String,
}

impl View for Domain {
    type V = Seq<char>;

    closed spec fn view(&self) -> Seq<char> {
        self.name@
    }
}

impl Domain {
    /// Validates `raw` as a domain and wraps it.
    pub fn new(raw: &str) -> (r: Result<Domain, ArnError>)
        ensures
            r is Ok <==> domain_valid(raw@),
            r matches Ok(d) ==> d@ == raw@,
            r matches Err(e) ==> (e matches ArnError::ParseFailure(f, m) && f@ == "domain"@
                && m@ == raw@),
    {
        let valid = !raw.is_empty() && find_char_from(raw, 0, ':').is_none() && find_char_from(
            raw,
            0,
            '/',
        ).is_none();
        if valid {
            Ok(Domain { name: raw.to_owned() })
        } else {
            Err(ArnError::ParseFailure("domain", raw.to_owned()))
        }
    }

    /// The raw text of the domain.
    pub fn as_str(&self) -> (r: &str)
        ensures
            r@ == self@,
    {
        self.name.as_str()
    }
}

impl Clone for Domain {
    fn clone(&self) -> (r: Domain)
        ensures
            r@ == self@,
    {
        Domain { name: self.name.clone() }
    }
}

impl PartialEq for Domain {
    fn eq(&self, other: &Domain) -> bool {
        self.name == other.name
    }
}

impl vstd::std_specs::cmp::PartialEqSpecImpl for Domain {
    open spec fn obeys_eq_spec() -> bool {
        true
    }

    open spec fn eq_spec(&self, other: &Domain) -> bool {
        self@ == other@
    }
}

impl Default for Domain {
    /// The fixed default domain.
    fn default() -> (r: Domain)
        ensures
            r@ == "acton"@,
    {
        Domain { name: "acton".to_owned() }
    }
}

impl core::str::FromStr for Domain {
    type Err = ArnError;

    fn from_str(s: &str) -> Result<Domain, ArnError> {
        Domain::new(s)
    }
}

} // verus!
