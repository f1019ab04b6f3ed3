//! The identifier aggregates: the full five-segment value types.

use vstd::prelude::*;
use vstd::string::*;

use crate::errors::ArnError;
use crate::idgen::{root_tag, synthesized_from, tag_ok, IdType};
use crate::model::account::Account;
use crate::model::category::Category;
use crate::model::domain::Domain;
use crate::model::part::Part;
use crate::model::parts::Parts;
use crate::model::root::Root;
use crate::text::{domain_valid, ern_text, join_with, lemma_join_snoc, part_valid, ErnView};

verus! {

/// `c` names a resource strictly beneath `p`: same domain, category, account
/// and root, and `p`'s parts are a proper prefix of `c`'s.
pub open spec fn child_of(c: ErnView, p: ErnView) -> bool {
    &&& c.domain == p.domain
    &&& c.category == p.category
    &&& c.account == p.account
    &&& c.root == p.root
    &&& p.parts.len() < c.parts.len()
    &&& c.parts.take(p.parts.len() as int) == p.parts
}

/// Appending one part yields a strict child: the extended identifier is a
/// child of the original, its hierarchy is non-empty, and removing its last
/// part gives the original's hierarchy back — so its parent is the original.
pub proof fn lemma_child_parent(e: ErnView, c: ErnView, p: Seq<char>)
    requires
        c.domain == e.domain,
        c.category == e.category,
        c.account == e.account,
        c.root == e.root,
        c.parts == e.parts.push(p),
    ensures
        child_of(c, e),
        c.parts.len() > 0,
        c.parts.drop_last() == e.parts,
{
    assert(c.parts.take(e.parts.len() as int) =~= e.parts);
    assert(c.parts.drop_last() =~= e.parts);
}

/// Renders the five segments under the given family prefix.
pub(crate) fn render_text(
    prefix: &str,
    domain: &Domain,
    category: &Category,
    account: &Account,
    root: &str,
    parts: &Parts,
) -> (out: String)
    ensures
        out@ == ern_text(prefix@, domain@, category@, account@, root@, parts@),
{
    proof {
        reveal_strlit(":");
        reveal_strlit("/");
    }
    let mut out = prefix.to_owned();
    out.append(domain.as_str());
    out.append(":");
    out.append(category.as_str());
    out.append(":");
    out.append(account.as_str());
    out.append(":");
    out.append(root);
    let ghost head = prefix@ + domain@ + seq![':'] + category@ + seq![':'] + account@ + seq![':']
        + root@;
    proof {
        assert(out@ =~= head);
    }
    let n = parts.0.len();
    if n > 0 {
        out.append("/");
        let ghost ps = parts@;
        let ghost base = out@;
        let mut i: usize = 0;
        while i < n
            invariant
                0 <= i <= n,
                n == parts.0@.len(),
                ps == parts@,
                base == head + seq!['/'],
                i == 0 ==> out@ == base,
                i > 0 ==> out@ == base + join_with(ps.take(i as int), '/'),
                "/"@ == seq!['/'],
            decreases n - i,
        {
            proof {
                assert(ps[i as int] == parts.0@[i as int]@);
            }
            if i > 0 {
                out.append("/");
                out.append(parts.0[i].as_str());
                proof {
                    lemma_join_snoc(ps.take(i + 1), '/');
                    assert(ps.take(i + 1).drop_last() =~= ps.take(i as int));
                    assert(ps.take(i + 1).last() == ps[i as int]);
                    assert(out@ =~= base + join_with(ps.take(i + 1), '/'));
                }
            } else {
                out.append(parts.0[i].as_str());
                proof {
                    assert(ps.take(1).len() == 1);
                    assert(ps.take(1)[0] == ps[0]);
                    assert(join_with(ps.take(1), '/') == ps[0]);
                    assert(out@ =~= base + join_with(ps.take(1), '/'));
                }
            }
            i = i + 1;
        }
        proof {
            assert(ps.take(n as int) =~= ps);
            assert(out@ == ern_text(prefix@, domain@, category@, account@, root@, parts@));
        }
    } else {
        proof {
            assert(parts@.len() == 0);
        }
    }
    out
}

/// An identifier of the "eid" family: domain, category, account, root and
/// hierarchy parts. Immutable: every transformation returns a new value.
#[derive(Debug, Eq, Hash)]
pub struct Eid<T: IdType> {
    pub domain: Domain,
    pub category: Category,
    pub account: Account,
    pub root: Root<T>,
    pub parts: Parts,
}

impl<T: IdType> View for Eid<T> {
    type V = ErnView;

    open spec fn view(&self) -> ErnView {
        ErnView {
            domain: self.domain@,
            category: self.category@,
            account: self.account@,
            root: self.root@,
            parts: self.parts@,
        }
    }
}

impl<T: IdType> Eid<T> {
    /// Aggregates already-validated segments; never fails.
    pub fn new(
        domain: Domain,
        category: Category,
        account: Account,
        root: Root<T>,
        parts: Parts,
    ) -> (r: Eid<T>)
        ensures
            r@.domain == domain@,
            r@.category == category@,
            r@.account == account@,
            r@.root == root@,
            r@.parts == parts@,
    {
        Eid { domain, category, account, root, parts }
    }

    /// A new identifier whose root is synthesized from `root` and whose other
    /// segments are the defaults. Fails exactly when a non-empty `root` is
    /// not an acceptable tag.
    pub fn with_root(root: &str) -> (r: Result<Eid<T>, ArnError>)
        ensures
            r is Ok <==> (root@.len() == 0 || tag_ok(root@)),
            r matches Ok(e) ==> e@.domain == "acton"@ && e@.category == Seq::<char>::empty()
                && e@.account == Seq::<char>::empty() && synthesized_from(
                root_tag(root@),
                e@.root,
            ) && e@.parts == Seq::<Seq<char>>::empty(),
            r matches Err(e) ==> e matches ArnError::IdGenerationFailure(_),
    {
        let root = Root::new(root)?;
        Ok(
            Eid {
                domain: Domain::default(),
                category: Category::default(),
                account: Account::default(),
                root,
                parts: Parts::default(),
            },
        )
    }

    /// A new identifier equal to `self` except for a freshly synthesized
    /// root; `self` is unchanged. Fails exactly when a non-empty `new_root`
    /// is not an acceptable tag.
    pub fn with_new_root(&self, new_root: &str) -> (r: Result<Eid<T>, ArnError>)
        ensures
            r is Ok <==> (new_root@.len() == 0 || tag_ok(new_root@)),
            r matches Ok(e) ==> e@.domain == self@.domain && e@.category == self@.category
                && e@.account == self@.account && synthesized_from(root_tag(new_root@), e@.root)
                && e@.parts == self@.parts,
            r matches Err(e) ==> e matches ArnError::IdGenerationFailure(_),
    {
        let root = Root::new(new_root)?;
        Ok(
            Eid {
                domain: self.domain.clone(),
                category: self.category.clone(),
                account: self.account.clone(),
                root,
                parts: self.parts.clone(),
            },
        )
    }

    /// A new identifier with the given domain and every other segment at its
    /// default. Fails exactly when `domain` is not a valid domain.
    pub fn with_domain(domain: &str) -> (r: Result<Eid<T>, ArnError>)
        ensures
            r is Ok <==> domain_valid(domain@),
            r matches Ok(e) ==> e@.domain == domain@ && e@.category == Seq::<char>::empty()
                && e@.account == Seq::<char>::empty() && synthesized_from("acton"@, e@.root)
                && e@.parts == Seq::<Seq<char>>::empty(),
            r matches Err(e) ==> e matches ArnError::ParseFailure(_, _),
    {
        let domain = Domain::new(domain)?;
        Ok(
            Eid {
                domain,
                category: Category::default(),
                account: Account::default(),
                root: Root::default(),
                parts: Parts::default(),
            },
        )
    }

    /// A new identifier with the given category and every other segment at
    /// its default; never fails.
    pub fn with_category(category: &str) -> (r: Result<Eid<T>, ArnError>)
        ensures
            r matches Ok(e) && e@.category == category@ && e@.domain == "acton"@ && e@.account
                == Seq::<char>::empty() && synthesized_from("acton"@, e@.root) && e@.parts
                == Seq::<Seq<char>>::empty(),
    {
        let category = Category::new(category);
        Ok(
            Eid {
                domain: Domain::default(),
                category,
                account: Account::default(),
                root: Root::default(),
                parts: Parts::default(),
            },
        )
    }

    /// A new identifier with the given account and every other segment at
    /// its default; never fails.
    pub fn with_account(account: &str) -> (r: Result<Eid<T>, ArnError>)
        ensures
            r matches Ok(e) && e@.account == account@ && e@.domain == "acton"@ && e@.category
                == Seq::<char>::empty() && synthesized_from("acton"@, e@.root) && e@.parts
                == Seq::<Seq<char>>::empty(),
    {
        let account = Account::new(account);
        Ok(
            Eid {
                domain: Domain::default(),
                category: Category::default(),
                account,
                root: Root::default(),
                parts: Parts::default(),
            },
        )
    }

    /// A new identifier with `part` appended to the hierarchy; `self` is
    /// unchanged. Fails exactly when `part` is not a valid part.
    pub fn add_part(&self, part: &str) -> (r: Result<Eid<T>, ArnError>)
        ensures
            r is Ok <==> part_valid(part@),
            r matches Ok(e) ==> e@.domain == self@.domain && e@.category == self@.category
                && e@.account == self@.account && e@.root == self@.root && e@.parts
                == self@.parts.push(part@),
            r matches Err(e) ==> e matches ArnError::IllegalPartFormat,
    {
        let part = Part::new(part)?;
        Ok(
            Eid {
                domain: self.domain.clone(),
                category: self.category.clone(),
                account: self.account.clone(),
                root: self.root.clone(),
                parts: self.parts.clone().add_part(part),
            },
        )
    }

    /// A new identifier whose hierarchy is replaced by the given raw parts,
    /// each validated; all are discarded if any one is invalid. `self` is
    /// unchanged.
    pub fn with_parts(&self, parts: Vec<String>) -> (r: Result<Eid<T>, ArnError>)
        ensures
            r is Ok <==> (forall|k: int|
                0 <= k < parts@.len() ==> part_valid(#[trigger] parts@[k]@)),
            r matches Ok(e) ==> e@.domain == self@.domain && e@.category == self@.category
                && e@.account == self@.account && e@.root == self@.root && e@.parts
                == parts.deep_view(),
            r matches Err(e) ==> e matches ArnError::IllegalPartFormat,
    {
        let mut collected: Vec<Part> = Vec::new();
        let n = parts.len();
        let mut i: usize = 0;
        while i < n
            invariant
                0 <= i <= n,
                n == parts@.len(),
                collected@.len() == i,
                forall|k: int| 0 <= k < i ==> part_valid(#[trigger] parts@[k]@),
                forall|k: int| 0 <= k < i ==> collected@[k]@ == parts@[k]@,
            decreases n - i,
        {
            let part = Part::new(parts[i].as_str())?;
            collected.push(part);
            i = i + 1;
        }
        let new_parts = Parts::new(collected);
        proof {
            assert(new_parts@ =~= parts.deep_view());
        }
        Ok(
            Eid {
                domain: self.domain.clone(),
                category: self.category.clone(),
                account: self.account.clone(),
                root: self.root.clone(),
                parts: new_parts,
            },
        )
    }

    /// Whether `self` names a resource strictly beneath `other`.
    pub fn is_child_of(&self, other: &Eid<T>) -> (r: bool)
        ensures
            r == child_of(self@, other@),
    {
        if !(self.domain == other.domain) || !(self.category == other.category) || !(self.account
            == other.account) || !(self.root == other.root) {
            return false;
        }
        let m = other.parts.0.len();
        if m >= self.parts.0.len() {
            proof {
                assert(other@.parts.len() == other.parts.0@.len());
                assert(self@.parts.len() == self.parts.0@.len());
            }
            return false;
        }
        let mut i: usize = 0;
        while i < m
            invariant
                0 <= i <= m,
                m == other.parts.0@.len(),
                m < self.parts.0@.len(),
                forall|j: int| 0 <= j < i ==> self.parts.0@[j]@ == other.parts.0@[j]@,
            decreases m - i,
        {
            if !(self.parts.0[i] == other.parts.0[i]) {
                proof {
                    assert(self@.parts[i as int] == self.parts.0@[i as int]@);
                    assert(other@.parts[i as int] == other.parts.0@[i as int]@);
                    assert(self@.parts.take(m as int)[i as int] != other@.parts[i as int]);
                }
                return false;
            }
            i = i + 1;
        }
        proof {
            assert(self@.parts.take(m as int) =~= other@.parts);
        }
        true
    }

    /// The identifier one level above `self`: the same segments with the last
    /// part removed, or nothing when the hierarchy is already empty.
    pub fn parent(&self) -> (r: Option<Eid<T>>)
        ensures
            r is Some <==> self@.parts.len() > 0,
            r matches Some(p) ==> p@.domain == self@.domain && p@.category == self@.category
                && p@.account == self@.account && p@.root == self@.root && p@.parts
                == self@.parts.drop_last(),
    {
        if self.parts.0.len() == 0 {
            proof {
                assert(self@.parts.len() == self.parts.0@.len());
            }
            None
        } else {
            let cloned = self.parts.clone();
            let mut v = cloned.0;
            let ghost full = v@;
            proof {
                assert(full.len() == cloned@.len());
                assert(self@.parts.len() == self.parts.0@.len());
            }
            v.truncate(v.len() - 1);
            let trimmed = Parts(v);
            proof {
                assert(trimmed@ =~= self@.parts.drop_last());
            }
            Some(
                Eid {
                    domain: self.domain.clone(),
                    category: self.category.clone(),
                    account: self.account.clone(),
                    root: self.root.clone(),
                    parts: trimmed,
                },
            )
        }
    }

    /// The rendered text of the identifier under the "eid:" prefix.
    pub fn to_text(&self) -> (s: String)
        ensures
            s@ == ern_text("eid:"@, self@.domain, self@.category, self@.account, self@.root,
                self@.parts,
            ),
    {
        render_text(
            "eid:",
            &self.domain,
            &self.category,
            &self.account,
            self.root.as_str(),
            &self.parts,
        )
    }
}

impl<T: IdType> core::ops::Add for Eid<T> {
    type Output = Eid<T>;

    /// Concatenation keeps the left identifier's domain, category, account
    /// and root and appends the right identifier's parts to the left's; the
    /// right identifier's other segments are discarded.
    fn add(self, rhs: Eid<T>) -> (r: Eid<T>)
        ensures
            r@.domain == self@.domain,
            r@.category == self@.category,
            r@.account == self@.account,
            r@.root == self@.root,
            r@.parts == self@.parts + rhs@.parts,
    {
        let ghost left = self@.parts;
        let ghost right = rhs@.parts;
        let mut v = self.parts.0;
        let mut w = rhs.parts.0;
        v.append(&mut w);
        let joined = Parts(v);
        proof {
            assert(joined@ =~= left + right);
        }
        Eid {
            domain: self.domain,
            category: self.category,
            account: self.account,
            root: self.root,
            parts: joined,
        }
    }
}

impl<T: IdType> vstd::std_specs::ops::AddSpecImpl for Eid<T> {
    open spec fn obeys_add_spec() -> bool {
        false
    }

    open spec fn add_req(self, rhs: Eid<T>) -> bool {
        true
    }

    open spec fn add_spec(self, rhs: Eid<T>) -> Eid<T> {
        self
    }
}

impl<T: IdType> Clone for Eid<T> {
    fn clone(&self) -> (r: Eid<T>)
        ensures
            r@ == self@,
    {
        Eid {
            domain: self.domain.clone(),
            category: self.category.clone(),
            account: self.account.clone(),
            root: self.root.clone(),
            parts: self.parts.clone(),
        }
    }
}

impl<T: IdType> PartialEq for Eid<T> {
    fn eq(&self, other: &Eid<T>) -> bool {
        self.domain == other.domain && self.category == other.category && self.account
            == other.account && self.root == other.root && self.parts == other.parts
    }
}

impl<T: IdType> vstd::std_specs::cmp::PartialEqSpecImpl for Eid<T> {
    open spec fn obeys_eq_spec() -> bool {
        true
    }

    open spec fn eq_spec(&self, other: &Eid<T>) -> bool {
        self@ == other@
    }
}

impl<T: IdType> Default for Eid<T> {
    /// The aggregate of every segment's default.
    fn default() -> (r: Eid<T>)
        ensures
            r@.domain == "acton"@,
            r@.category == Seq::<char>::empty(),
            r@.account == Seq::<char>::empty(),
            synthesized_from("acton"@, r@.root),
            r@.parts == Seq::<Seq<char>>::empty(),
    {
        Eid {
            domain: Domain::default(),
            category: Category::default(),
            account: Account::default(),
            root: Root::default(),
            parts: Parts::default(),
        }
    }
}

/// An identifier of the "ern" family, as the builder produces and the parser
/// reconstructs it: the same five segments under the "ern:" prefix.
#[derive(Debug, Eq, Hash)]
pub struct Ern<T: IdType> {
    pub domain: Domain,
    pub category: Category,
    pub account: Account,
    pub root: Root<T>,
    pub parts: Parts,
}

impl<T: IdType> View for Ern<T> {
    type V = ErnView;

    open spec fn view(&self) -> ErnView {
        ErnView {
            domain: self.domain@,
            category: self.category@,
            account: self.account@,
            root: self.root@,
            parts: self.parts@,
        }
    }
}

impl<T: IdType> Ern<T> {
    /// Aggregates already-validated segments; never fails.
    pub fn new(
        domain: Domain,
        category: Category,
        account: Account,
        root: Root<T>,
        parts: Parts,
    ) -> (r: Ern<T>)
        ensures
            r@.domain == domain@,
            r@.category == category@,
            r@.account == account@,
            r@.root == root@,
            r@.parts == parts@,
    {
        Ern { domain, category, account, root, parts }
    }

    /// The rendered text of the identifier under the "ern:" prefix.
    pub fn to_text(&self) -> (s: String)
        ensures
            s@ == ern_text("ern:"@, self@.domain, self@.category, self@.account, self@.root,
                self@.parts,
            ),
    {
        render_text(
            "ern:",
            &self.domain,
            &self.category,
            &self.account,
            self.root.as_str(),
            &self.parts,
        )
    }
}

impl<T: IdType> Clone for Ern<T> {
    fn clone(&self) -> (r: Ern<T>)
        ensures
            r@ == self@,
    {
        Ern {
            domain: self.domain.clone(),
            category: self.category.clone(),
            account: self.account.clone(),
            root: self.root.clone(),
            parts: self.parts.clone(),
        }
    }
}

impl<T: IdType> PartialEq for Ern<T> {
    fn eq(&self, other: &Ern<T>) -> bool {
        self.domain == other.domain && self.category == other.category && self.account
            == other.account && self.root == other.root && self.parts == other.parts
    }
}

impl<T: IdType> vstd::std_specs::cmp::PartialEqSpecImpl for Ern<T> {
    open spec fn obeys_eq_spec() -> bool {
        true
    }

    open spec fn eq_spec(&self, other: &Ern<T>) -> bool {
        self@ == other@
    }
}

impl<T: IdType> Default for Ern<T> {
    /// The aggregate of every segment's default.
    fn default() -> (r: Ern<T>)
        ensures
            r@.domain == "acton"@,
            r@.category == Seq::<char>::empty(),
            r@.account == Seq::<char>::empty(),
            synthesized_from("acton"@, r@.root),
            r@.parts == Seq::<Seq<char>>::empty(),
    {
        Ern {
            domain: Domain::default(),
            category: Category::default(),
            account: Account::default(),
            root: Root::default(),
            parts: Parts::default(),
        }
    }
}

} // verus!
