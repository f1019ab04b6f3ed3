//! The type-state builder: identifier segments are accepted only in their
//! required order — domain, category, account, root, then parts — and a
//! finished identifier is only handed out once the root has been supplied.
//! Calls out of order do not compile; the runtime accumulator is the backstop
//! for what the type states cannot express.

use vstd::prelude::*;

use crate::errors::ArnError;
use crate::idgen::{root_tag, synthesized_from, tag_ok, IdType};
use crate::model::{Account, Category, Domain, Ern, Part, Parts, Root};
use crate::text::{domain_valid, part_valid, str_eq};

verus! {

broadcast use vstd::string::group_string_axioms;

/// The abstract state of a builder: which segments have been supplied, and
/// the parts collected so far.
pub ghost struct BuilderModel {
    pub domain: Option<Seq<char>>,
    pub category: Option<Seq<char>>,
    pub account: Option<Seq<char>>,
    pub root: Option<Seq<char>>,
    pub parts: Seq<Seq<char>>,
}

/// An untagged value fills the category slot: the domain is set and the
/// category is not.
pub open spec fn fills_category(m: BuilderModel) -> bool {
    m.domain is Some && m.category is None
}

/// An untagged value fills the account slot: not the category, the category
/// is set and the account is not.
pub open spec fn fills_account(m: BuilderModel) -> bool {
    !fills_category(m) && m.category is Some && m.account is None
}

/// An untagged value fills the root slot: not an earlier slot, the account is
/// set and the root is not.
pub open spec fn fills_root(m: BuilderModel) -> bool {
    !fills_category(m) && !fills_account(m) && m.account is Some && m.root is None
}

/// An untagged value that fills no earlier slot is appended to the parts.
pub open spec fn fills_part(m: BuilderModel) -> bool {
    !fills_category(m) && !fills_account(m) && !fills_root(m)
}

/// The runtime accumulator behind the typed builder: option slots for the
/// four required segments and the collected parts.
pub struct PrivateErnBuilder<T: IdType> {
    domain: Option<Domain>,
    category: Option<Category>,
    account: Option<Account>,
    root: Option<Root<T>>,
    parts: Parts,
}

impl<T: IdType> View for PrivateErnBuilder<T> {
    type V = BuilderModel;

    closed spec fn view(&self) -> BuilderModel {
        BuilderModel {
            domain: match self.domain {
                Some(d) => Some(d@),
                None => None,
            },
            category: match self.category {
                Some(c) => Some(c@),
                None => None,
            },
            account: match self.account {
                Some(a) => Some(a@),
                None => None,
            },
            root: match self.root {
                Some(r) => Some(r@),
                None => None,
            },
            parts: self.parts@,
        }
    }
}

impl<T: IdType> PrivateErnBuilder<T> {
    /// An empty accumulator: no segment supplied, no parts.
    pub fn new() -> (r: PrivateErnBuilder<T>)
        ensures
            r@ == (BuilderModel {
                domain: None,
                category: None,
                account: None,
                root: None,
                parts: Seq::<Seq<char>>::empty(),
            }),
    {
        let r = PrivateErnBuilder {
            domain: None,
            category: None,
            account: None,
            root: None,
            parts: Parts::default(),
        };
        proof {
            assert(r@.parts =~= Seq::<Seq<char>>::empty());
        }
        r
    }

    /// Routes one raw segment into the accumulator. The routing token "ern:"
    /// names the domain; an empty token fills the first open slot in order
    /// category, account, root, else appends a part; the token ":" appends a
    /// part; any other token is rejected.
    pub fn add_part(self, prefix: &'static str, part: &str) -> (r: Result<
        PrivateErnBuilder<T>,
        ArnError,
    >)
        ensures
            prefix@ == "ern:"@ ==> (match r {
                Ok(b) => domain_valid(part@) && b@ == (BuilderModel {
                    domain: Some(part@),
                    ..self@
                }),
                Err(e) => !domain_valid(part@) && (e matches ArnError::ParseFailure(f, _) && f@
                    == "domain"@),
            }),
            prefix@ == ""@ && fills_category(self@) ==> (r matches Ok(b) && b@ == (BuilderModel {
                category: Some(part@),
                ..self@
            })),
            prefix@ == ""@ && fills_account(self@) ==> (r matches Ok(b) && b@ == (BuilderModel {
                account: Some(part@),
                ..self@
            })),
            prefix@ == ""@ && fills_root(self@) ==> (match r {
                Ok(b) => (part@.len() == 0 || tag_ok(part@)) && b@.domain == self@.domain
                    && b@.category == self@.category && b@.account == self@.account && b@.parts
                    == self@.parts && (b@.root matches Some(rv) && synthesized_from(
                    root_tag(part@),
                    rv,
                )),
                Err(e) => !(part@.len() == 0 || tag_ok(part@))
                    && e matches ArnError::IdGenerationFailure(_),
            }),
            (prefix@ == ""@ && fills_part(self@)) || prefix@ == ":"@ ==> (match r {
                Ok(b) => part_valid(part@) && b@ == (BuilderModel {
                    parts: self@.parts.push(part@),
                    ..self@
                }),
                Err(e) => !part_valid(part@) && e matches ArnError::IllegalPartFormat,
            }),
            !(prefix@ == "ern:"@ || prefix@ == ""@ || prefix@ == ":"@) ==> (r matches Err(e)
                && e matches ArnError::InvalidPrefix(p) && p@ == prefix@),
    {
        proof {
            reveal_strlit("ern:");
            reveal_strlit("");
            reveal_strlit(":");
            assert("ern:"@.len() == 4);
            assert(""@.len() == 0);
            assert(":"@.len() == 1);
        }
        if str_eq(prefix, "ern:") {
            let domain = Domain::new(part)?;
            Ok(PrivateErnBuilder { domain: Some(domain), ..self })
        } else if str_eq(prefix, "") {
            if self.domain.is_some() && self.category.is_none() {
                let category = Category::new(part);
                Ok(PrivateErnBuilder { category: Some(category), ..self })
            } else if self.category.is_some() && self.account.is_none() {
                let account = Account::new(part);
                Ok(PrivateErnBuilder { account: Some(account), ..self })
            } else if self.account.is_some() && self.root.is_none() {
                let root = Root::new(part)?;
                Ok(PrivateErnBuilder { root: Some(root), ..self })
            } else {
                let p = Part::new(part)?;
                let parts = self.parts.add_part(p);
                Ok(PrivateErnBuilder { parts, ..self })
            }
        } else if str_eq(prefix, ":") {
            let p = Part::new(part)?;
            let parts = self.parts.add_part(p);
            Ok(PrivateErnBuilder { parts, ..self })
        } else {
            Err(ArnError::InvalidPrefix(prefix.to_owned()))
        }
    }

    /// Finalizes the accumulator. Fails naming the first unset required
    /// segment, checked in the order domain, category, account, root; once
    /// all four are set it yields the aggregate identifier.
    pub fn build(self) -> (r: Result<Ern<T>, ArnError>)
        ensures
            self@.domain is None ==> (r matches Err(e) && e matches ArnError::MissingPart(m) && m@
                == "domain"@),
            self@.domain is Some && self@.category is None ==> (r matches Err(e)
                && e matches ArnError::MissingPart(m) && m@ == "category"@),
            self@.domain is Some && self@.category is Some && self@.account is None ==> (
            r matches Err(e) && e matches ArnError::MissingPart(m) && m@ == "account"@),
            self@.domain is Some && self@.category is Some && self@.account is Some
                && self@.root is None ==> (r matches Err(e) && e matches ArnError::MissingPart(m)
                && m@ == "root"@),
            self@.domain is Some && self@.category is Some && self@.account is Some
                && self@.root is Some ==> (r matches Ok(ern) && (self@.domain matches Some(d)
                && ern@.domain == d) && (self@.category matches Some(c) && ern@.category == c) && (
            self@.account matches Some(a) && ern@.account == a) && (self@.root matches Some(rt)
                && ern@.root == rt) && ern@.parts == self@.parts),
    {
        match self.domain {
            None => Err(ArnError::MissingPart("domain".to_owned())),
            Some(domain) => {
                match self.category {
                    None => Err(ArnError::MissingPart("category".to_owned())),
                    Some(category) => {
                        match self.account {
                            None => Err(ArnError::MissingPart("account".to_owned())),
                            Some(account) => {
                                match self.root {
                                    None => Err(ArnError::MissingPart("root".to_owned())),
                                    Some(root) => {
                                        Ok(Ern::new(domain, category, account, root, self.parts))
                                    },
                                }
                            },
                        }
                    },
                }
            },
        }
    }
}

/// Names a segment kind the typed builder can accept: the state that follows
/// it, and the routing token that carries it into the accumulator.
pub trait ErnComponent {
    type NextState;

    spec fn spec_prefix() -> Seq<char>;

    fn prefix() -> (r: &'static str)
        ensures
            r@ == Self::spec_prefix(),
    ;
}

impl ErnComponent for Domain {
    type NextState = Category;

    open spec fn spec_prefix() -> Seq<char> {
        "ern:"@
    }

    fn prefix() -> (r: &'static str)
        ensures
            r@ == Self::spec_prefix(),
    {
        "ern:"
    }
}

impl ErnComponent for Category {
    type NextState = Account;

    open spec fn spec_prefix() -> Seq<char> {
        ""@
    }

    fn prefix() -> (r: &'static str)
        ensures
            r@ == Self::spec_prefix(),
    {
        ""
    }
}

impl ErnComponent for Account {
    type NextState = Root<crate::idgen::UnixTime>;

    open spec fn spec_prefix() -> Seq<char> {
        ""@
    }

    fn prefix() -> (r: &'static str)
        ensures
            r@ == Self::spec_prefix(),
    {
        ""
    }
}

impl<T: IdType> ErnComponent for Root<T> {
    type NextState = Part;

    open spec fn spec_prefix() -> Seq<char> {
        ""@
    }

    fn prefix() -> (r: &'static str)
        ensures
            r@ == Self::spec_prefix(),
    {
        ""
    }
}

impl ErnComponent for Part {
    type NextState = Parts;

    open spec fn spec_prefix() -> Seq<char> {
        ":"@
    }

    fn prefix() -> (r: &'static str)
        ensures
            r@ == Self::spec_prefix(),
    {
        ":"
    }
}

impl ErnComponent for Parts {
    type NextState = Parts;

    open spec fn spec_prefix() -> Seq<char> {
        ":"@
    }

    fn prefix() -> (r: &'static str)
        ensures
            r@ == Self::spec_prefix(),
    {
        ":"
    }
}

/// The typed builder. The `State` parameter names the segment kind expected
/// next; each state's impl exposes only the transitions legal from it, so a
/// call sequence out of order does not compile.
pub struct ErnBuilder<State, T: IdType> {
    builder: PrivateErnBuilder<T>,
    marker: core::marker::PhantomData<(State, T)>,
}

impl<State, T: IdType> View for ErnBuilder<State, T> {
    type V = BuilderModel;

    closed spec fn view(&self) -> BuilderModel {
        self.builder@
    }
}

impl<T: IdType> ErnBuilder<(), T> {
    /// A fresh builder, expecting the domain first.
    pub fn new() -> (r: ErnBuilder<Domain, T>)
        ensures
            r@ == (BuilderModel {
                domain: None,
                category: None,
                account: None,
                root: None,
                parts: Seq::<Seq<char>>::empty(),
            }),
    {
        ErnBuilder { builder: PrivateErnBuilder::new(), marker: core::marker::PhantomData }
    }
}

impl<Component: ErnComponent, T: IdType> ErnBuilder<Component, T> {
    /// Supplies the next segment and advances to its following state. The
    /// accumulator routes the value by the segment kind's token.
    pub fn with<N>(self, part: &str) -> (r: Result<ErnBuilder<N::NextState, T>, ArnError>) where
        N: ErnComponent<NextState = Component::NextState>

        ensures
            N::spec_prefix() == "ern:"@ ==> (match r {
                Ok(b) => domain_valid(part@) && b@ == (BuilderModel {
                    domain: Some(part@),
                    ..self@
                }),
                Err(e) => !domain_valid(part@) && (e matches ArnError::ParseFailure(f, _) && f@
                    == "domain"@),
            }),
            N::spec_prefix() == ""@ && fills_category(self@) ==> (r matches Ok(b) && b@
                == (BuilderModel { category: Some(part@), ..self@ })),
            N::spec_prefix() == ""@ && fills_account(self@) ==> (r matches Ok(b) && b@
                == (BuilderModel { account: Some(part@), ..self@ })),
            N::spec_prefix() == ""@ && fills_root(self@) ==> (match r {
                Ok(b) => (part@.len() == 0 || tag_ok(part@)) && b@.domain == self@.domain
                    && b@.category == self@.category && b@.account == self@.account && b@.parts
                    == self@.parts && (b@.root matches Some(rv) && synthesized_from(
                    root_tag(part@),
                    rv,
                )),
                Err(e) => !(part@.len() == 0 || tag_ok(part@))
                    && e matches ArnError::IdGenerationFailure(_),
            }),
            (N::spec_prefix() == ""@ && fills_part(self@)) || N::spec_prefix() == ":"@ ==> (match r {
                Ok(b) => part_valid(part@) && b@ == (BuilderModel {
                    parts: self@.parts.push(part@),
                    ..self@
                }),
                Err(e) => !part_valid(part@) && e matches ArnError::IllegalPartFormat,
            }),
            !(N::spec_prefix() == "ern:"@ || N::spec_prefix() == ""@ || N::spec_prefix() == ":"@)
                ==> (r matches Err(e) && e matches ArnError::InvalidPrefix(p) && p@
                == N::spec_prefix()),
    {
        match self.builder.add_part(N::prefix(), part) {
            Ok(b) => Ok(ErnBuilder { builder: b, marker: core::marker::PhantomData }),
            Err(e) => Err(e),
        }
    }
}

impl<T: IdType> ErnBuilder<Part, T> {
    /// Finalizes right after the root was supplied, with no parts added.
    pub fn build(self) -> (r: Result<Ern<T>, ArnError>)
        ensures
            self@.domain is Some && self@.category is Some && self@.account is Some
                && self@.root is Some ==> (r matches Ok(ern) && (self@.domain matches Some(d)
                && ern@.domain == d) && (self@.category matches Some(c) && ern@.category == c) && (
            self@.account matches Some(a) && ern@.account == a) && (self@.root matches Some(rt)
                && ern@.root == rt) && ern@.parts == self@.parts),
            self@.domain is Some && self@.category is Some && self@.account is Some
                && self@.root is None ==> (r matches Err(e) && e matches ArnError::MissingPart(m)
                && m@ == "root"@),
    {
        self.builder.build()
    }
}

impl<T: IdType> ErnBuilder<Parts, T> {
    /// Finalizes after one or more parts were added.
    pub fn build(self) -> (r: Result<Ern<T>, ArnError>)
        ensures
            self@.domain is Some && self@.category is Some && self@.account is Some
                && self@.root is Some ==> (r matches Ok(ern) && (self@.domain matches Some(d)
                && ern@.domain == d) && (self@.category matches Some(c) && ern@.category == c) && (
            self@.account matches Some(a) && ern@.account == a) && (self@.root matches Some(rt)
                && ern@.root == rt) && ern@.parts == self@.parts),
            self@.domain is Some && self@.category is Some && self@.account is Some
                && self@.root is None ==> (r matches Err(e) && e matches ArnError::MissingPart(m)
                && m@ == "root"@),
    {
        self.builder.build()
    }
}

} // verus!
