//! The part segment: one component of the hierarchy path.

use vstd::prelude::*;
use vstd::string::*;

use crate::errors::ArnError;
use crate::text::{find_char_from, part_valid};

verus! {

/// One component of an identifier's hierarchy path. Valid when non-empty,
/// not beginning with ':' and containing no '/'.
#[derive(Debug, Eq, Hash)]
pub struct Part {
    name: String,
}

impl View for Part {
    type V = Seq<char>;

    closed spec fn view(&self) -> Seq<char> {
        self.name@
    }
}

impl Part {
    /// Validates `raw` as a part and wraps it.
    pub fn new(raw: &str) -> (r: Result<Part, ArnError>)
        ensures
            r is Ok <==> part_valid(raw@),
            r matches Ok(p) ==> p@ == raw@,
            r matches Err(e) ==> e matches ArnError::IllegalPartFormat,
    {
        let valid = !raw.is_empty() && raw.get_char(0) != ':' && find_char_from(
            raw,
            0,
            '/',
        ).is_none();
        if valid {
            Ok(Part { name: raw.to_owned() })
        } else {
            Err(ArnError::IllegalPartFormat)
        }
    }

    /// The raw text of the part.
    pub fn as_str(&self) -> (r: &str)
        ensures
            r@ == self@,
    {
        self.name.as_str()
    }
}

impl Clone for Part {
    fn clone(&self) -> (r: Part)
        ensures
            r@ == self@,
    {
        Part { name: self.name.clone() }
    }
}

impl PartialEq for Part {
    fn eq(&self, other: &Part) -> bool {
        self.name == other.name
    }
}

impl vstd::std_specs::cmp::PartialEqSpecImpl for Part {
    open spec fn obeys_eq_spec() -> bool {
        true
    }

    open spec fn eq_spec(&self, other: &Part) -> bool {
        self@ == other@
    }
}

impl core::str::FromStr for Part {
    type Err = ArnError;

    fn from_str(s: &str) -> Result<Part, ArnError> {
        Part::new(s)
    }
}

} // verus!
