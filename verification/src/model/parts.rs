//! The parts segment: the ordered hierarchy path beneath the root.

use vstd::prelude::*;

use crate::model::part::Part;

verus! {

/// The views of a sequence of parts.
pub open spec fn parts_view(v: Seq<Part>) -> Seq<Seq<char>> {
    v.map_values(|p: Part| p@)
}

/// The ordered sequence of parts beneath an identifier's root. Order defines
/// hierarchy depth; the empty sequence means no hierarchy beneath the root.
#[derive(Debug, Eq, Hash)]
pub struct Parts(pub Vec<Part>);

impl View for Parts {
    type V = Seq<Seq<char>>;

    open spec fn view(&self) -> Seq<Seq<char>> {
        parts_view(self.0@)
    }
}

impl Parts {
    /// Wraps an already-validated sequence of parts.
    pub fn new(parts: Vec<Part>) -> (r: Parts)
        ensures
            r@ == parts_view(parts@),
    {
        Parts(parts)
    }

    /// A new sequence with `part` appended; `self` is consumed.
    pub fn add_part(self, part: Part) -> (r: Parts)
        ensures
            r@ == self@.push(part@),
    {
        let ghost old_view = self@;
        let mut v = self.0;
        v.push(part);
        proof {
            assert(parts_view(v@) =~= old_view.push(part@));
        }
        Parts(v)
    }

    /// The number of parts.
    pub fn len(&self) -> (n: usize)
        ensures
            n == self@.len(),
    {
        self.0.len()
    }
}

impl Clone for Parts {
    fn clone(&self) -> (r: Parts)
        ensures
            r@ == self@,
    {
        let v = self.0.clone();
        proof {
            assert forall|i: int| 0 <= i < v@.len() implies v@[i]@ == self.0@[i]@ by {
                assert(cloned::<Part>(self.0[i], v[i]));
            }
            assert(parts_view(v@) =~= parts_view(self.0@));
        }
        Parts(v)
    }
}

impl PartialEq for Parts {
    fn eq(&self, other: &Parts) -> (r: bool)
        ensures
            r == (self@ == other@),
    {
        if self.0.len() != other.0.len() {
            proof {
                assert(self@.len() == self.0@.len());
                assert(other@.len() == other.0@.len());
            }
            return false;
        }
        let n = self.0.len();
        let mut i: usize = 0;
        while i < n
            invariant
                0 <= i <= n,
                n == self.0@.len(),
                n == other.0@.len(),
                forall|j: int| 0 <= j < i ==> self.0@[j]@ == other.0@[j]@,
            decreases n - i,
        {
            if !(self.0[i] == other.0[i]) {
                proof {
                    assert(self@[i as int] == self.0@[i as int]@);
                    assert(other@[i as int] == other.0@[i as int]@);
                }
                return false;
            }
            i = i + 1;
        }
        proof {
            assert(self@ =~= other@);
        }
        true
    }
}

impl vstd::std_specs::cmp::PartialEqSpecImpl for Parts {
    open spec fn obeys_eq_spec() -> bool {
        true
    }

    open spec fn eq_spec(&self, other: &Parts) -> bool {
        self@ == other@
    }
}

impl Default for Parts {
    /// The default hierarchy is empty.
    fn default() -> (r: Parts)
        ensures
            r@ == Seq::<Seq<char>>::empty(),
    {
        let r = Parts(Vec::new());
        proof {
            assert(r@ =~= Seq::<Seq<char>>::empty());
        }
        r
    }
}

} // verus!
