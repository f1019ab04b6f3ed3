//! The root segment: a freshly synthesized, type-tagged unique value.

use vstd::prelude::*;

use crate::errors::ArnError;
use crate::idgen::{root_tag, synthesized_from, tag_ok, tagged_id_string, IdType};

verus! {

/// The root segment of an identifier. Synthesis combines the caller's tag —
/// or the fixed default tag for an empty input — with a freshly minted
/// 128-bit value, so two syntheses from the same tag never render equal.
/// The marker type selects the minting strategy. Roots are totally ordered
/// by comparison of their rendered text.
#[derive(Debug, Eq, Hash, PartialOrd, Ord)]
pub struct Root<T: IdType> {
    name: String,
    marker: core::marker::PhantomData<T>,
}

impl<T: IdType> View for Root<T> {
    type V = Seq<char>;

    closed spec fn view(&self) -> Seq<char> {
        self.name@
    }
}

impl<T: IdType> Root<T> {
    /// Synthesizes a root: the stored value is the tag (the raw input, or the
    /// default tag if the input is empty), an underscore, and a fresh
    /// 26-character unique suffix. Fails exactly when a non-empty input is
    /// not an acceptable tag.
    pub fn new(value: &str) -> (r: Result<Root<T>, ArnError>)
        ensures
            r is Ok <==> (value@.len() == 0 || tag_ok(value@)),
            r matches Ok(root) ==> synthesized_from(root_tag(value@), root@),
            r matches Err(e) ==> e matches ArnError::IdGenerationFailure(_),
    {
        if value.is_empty() {
            proof {
                reveal_strlit("acton");
                assert(tag_ok("acton"@));
            }
            let id = T::generate_id("acton");
            match tagged_id_string("acton", id) {
                Ok(s) => Ok(Root { name: s, marker: core::marker::PhantomData }),
                Err(m) => {
                    proof {
                        assert(false);
                    }
                    Err(ArnError::IdGenerationFailure(m))
                },
            }
        } else {
            let id = T::generate_id(value);
            match tagged_id_string(value, id) {
                Ok(s) => Ok(Root { name: s, marker: core::marker::PhantomData }),
                Err(m) => Err(ArnError::IdGenerationFailure(m)),
            }
        }
    }

    /// Wraps already-rendered root text verbatim; no synthesis runs.
    pub fn from_text(s: &str) -> (r: Root<T>)
        ensures
            r@ == s@,
    {
        Root { name: s.to_owned(), marker: core::marker::PhantomData }
    }

    /// The rendered text of the root.
    pub fn as_str(&self) -> (r: &str)
        ensures
            r@ == self@,
    {
        self.name.as_str()
    }

    /// The root as an owned value.
    pub fn into_owned(self) -> (r: Root<T>)
        ensures
            r@ == self@,
    {
        self
    }

    /// The rendered text of the root as an owned string.
    pub fn into_string(self) -> (r: String)
        ensures
            r@ == self@,
    {
        self.name
    }
}

impl<T: IdType> Clone for Root<T> {
    fn clone(&self) -> (r: Root<T>)
        ensures
            r@ == self@,
    {
        Root { name: self.name.clone(), marker: core::marker::PhantomData }
    }
}

impl<T: IdType> PartialEq for Root<T> {
    fn eq(&self, other: &Root<T>) -> bool {
        self.name == other.name
    }
}

impl<T: IdType> vstd::std_specs::cmp::PartialEqSpecImpl for Root<T> {
    open spec fn obeys_eq_spec() -> bool {
        true
    }

    open spec fn eq_spec(&self, other: &Root<T>) -> bool {
        self@ == other@
    }
}

impl<T: IdType> Default for Root<T> {
    /// A fresh root synthesized from the default tag.
    fn default() -> (r: Root<T>)
        ensures
            synthesized_from("acton"@, r@),
    {
        proof {
            reveal_strlit("");
        }
        match Root::<T>::new("") {
            Ok(r) => r,
            Err(_) => {
                proof {
                    assert(false);
                }
                Root { name: String::new(), marker: core::marker::PhantomData }
            },
        }
    }
}

impl<T: IdType> core::str::FromStr for Root<T> {
    type Err = ArnError;

    fn from_str(s: &str) -> Result<Root<T>, ArnError> {
        Ok(Root::from_text(s))
    }
}

} // verus!
