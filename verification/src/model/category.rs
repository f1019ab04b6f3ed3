//! The category segment: free-form, any text is accepted.

use vstd::prelude::*;

verus! {

/// The second segment of an identifier. Free-form: any text, including the
/// empty string, is a valid category.
#[derive(Debug, Eq, Hash)]
pub struct Category {
    name: String,
}

impl View for Category {
    type V = Seq<char>;

    closed spec fn view(&self) -> Seq<char> {
        self.name@
    }
}

impl Category {
    /// Wraps `raw` as a category; every string is accepted.
    pub fn new(raw: &str) -> (r: Category)
        ensures
            r@ == raw@,
    {
        Category { name: raw.to_owned() }
    }

    /// The raw text of the category.
    pub fn as_str(&self) -> (r: &str)
        ensures
            r@ == self@,
    {
        self.name.as_str()
    }
}

impl Clone for Category {
    fn clone(&self) -> (r: Category)
        ensures
            r@ == self@,
    {
        Category { name: self.name.clone() }
    }
}

impl PartialEq for Category {
    fn eq(&self, other: &Category) -> bool {
        self.name == other.name
    }
}

impl vstd::std_specs::cmp::PartialEqSpecImpl for Category {
    open spec fn obeys_eq_spec() -> bool {
        true
    }

    open spec fn eq_spec(&self, other: &Category) -> bool {
        self@ == other@
    }
}

impl Default for Category {
    /// The default category is the empty string.
    fn default() -> (r: Category)
        ensures
            r@ == Seq::<char>::empty(),
    {
        Category { name: String::new() }
    }
}

impl core::str::FromStr for Category {
    type Err = crate::errors::ArnError;

    fn from_str(s: &str) -> Result<Category, Self::Err> {
        Ok(Category::new(s))
    }
}

} // verus!
