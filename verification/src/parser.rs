//! The parser: reconstructs a typed identifier from its rendered text,
//! enforcing the same shape and segment rules as the builder. Parsing is
//! all-or-nothing; no partial identifier is ever returned.

use vstd::prelude::*;
use vstd::string::*;

use crate::errors::ArnError;
use crate::idgen::IdType;
use crate::model::{Account, Category, Domain, Ern, Part, Parts, Root};
use crate::model::parts_view;
use crate::text::{
    domain_valid, find_char, find_char_from, lemma_find_char, lemma_find_char_window,
    lemma_find_char_window_none, part_valid, parts_text_valid, spec_parse, spec_split_fields,
    split_on, split_root_parts, text_range,
};

verus! {

/// Parses one rendered identifier string of the "ern" family.
pub struct ErnParser<T: IdType> {
    message: String,
    marker: core::marker::PhantomData<T>,
}

impl<T: IdType> View for ErnParser<T> {
    type V = Seq<char>;

    closed spec fn view(&self) -> Seq<char> {
        self.message@
    }
}

impl<T: IdType> ErnParser<T> {
    /// A parser over the given rendered text.
    pub fn new(message: String) -> (r: ErnParser<T>)
        ensures
            r@ == message@,
    {
        ErnParser { message, marker: core::marker::PhantomData }
    }

    /// Decomposes the text. Succeeds exactly when the text decomposes as
    /// `spec_parse` describes, yielding that identifier; a string without the
    /// prefix or the required fields is an `InvalidFormat` error, an invalid
    /// domain names the domain, and an invalid part is an
    /// `IllegalPartFormat` error.
    pub fn parse(&self) -> (r: Result<Ern<T>, ArnError>)
        ensures
            r is Ok <==> spec_parse(self@) is Some,
            r matches Ok(e) ==> (spec_parse(self@) matches Some(v) && e@.domain == v.domain
                && e@.category == v.category && e@.account == v.account && e@.root == v.root
                && e@.parts == v.parts),
            spec_split_fields(self@) is None ==> (r matches Err(e)
                && e matches ArnError::InvalidFormat),
            spec_split_fields(self@) matches Some(f) && !domain_valid(f.0) ==> (r matches Err(e)
                && (e matches ArnError::ParseFailure(w, _) && w@ == "domain"@)),
            spec_split_fields(self@) matches Some(f) && domain_valid(f.0) && !parts_text_valid(
                split_root_parts(f.3).1,
            ) ==> (r matches Err(e) && e matches ArnError::IllegalPartFormat),
    {
        let s = self.message.as_str();
        let n = s.unicode_len();
        proof {
            reveal_strlit("ern:");
            assert("ern:"@.len() == 4);
        }
        if n <= 4 {
            return Err(ArnError::InvalidFormat);
        }
        if !(s.get_char(0) == 'e' && s.get_char(1) == 'r' && s.get_char(2) == 'n' && s.get_char(3)
            == ':') {
            proof {
                assert(s@.subrange(0, 4) != "ern:"@) by {
                    if s@.subrange(0, 4) == "ern:"@ {
                        assert(s@[0] == "ern:"@[0]);
                        assert(s@[1] == "ern:"@[1]);
                        assert(s@[2] == "ern:"@[2]);
                        assert(s@[3] == "ern:"@[3]);
                    }
                }
            }
            return Err(ArnError::InvalidFormat);
        }
        proof {
            assert(s@.subrange(0, 4) =~= "ern:"@);
        }
        let ghost rest = s@.skip(4);
        let i1 = match find_char_from(s, 4, ':') {
            Some(i) => i,
            None => {
                proof {
                    lemma_find_char_window_none(s@, ':', 4);
                }
                return Err(ArnError::InvalidFormat);
            },
        };
        proof {
            lemma_find_char_window(s@, ':', 4, i1 as int);
            assert(find_char(rest, ':') == Some(i1 - 4));
        }
        let ghost d_txt = s@.subrange(4, i1 as int);
        let ghost r1 = s@.skip(i1 as int + 1);
        proof {
            assert(rest.take(i1 - 4) =~= d_txt);
            assert(rest.skip(i1 - 4 + 1) =~= r1);
        }
        let i2 = match find_char_from(s, i1 + 1, ':') {
            Some(i) => i,
            None => {
                proof {
                    lemma_find_char_window_none(s@, ':', i1 as int + 1);
                }
                return Err(ArnError::InvalidFormat);
            },
        };
        proof {
            lemma_find_char_window(s@, ':', i1 as int + 1, i2 as int);
            assert(find_char(r1, ':') == Some(i2 - i1 - 1));
        }
        let ghost c_txt = s@.subrange(i1 as int + 1, i2 as int);
        let ghost r2 = s@.skip(i2 as int + 1);
        proof {
            assert(r1.take(i2 - i1 - 1) =~= c_txt);
            assert(r1.skip(i2 - i1 - 1 + 1) =~= r2);
        }
        let i3 = match find_char_from(s, i2 + 1, ':') {
            Some(i) => i,
            None => {
                proof {
                    lemma_find_char_window_none(s@, ':', i2 as int + 1);
                }
                return Err(ArnError::InvalidFormat);
            },
        };
        proof {
            lemma_find_char_window(s@, ':', i2 as int + 1, i3 as int);
            assert(find_char(r2, ':') == Some(i3 - i2 - 1));
        }
        let ghost a_txt = s@.subrange(i2 as int + 1, i3 as int);
        let ghost tail = s@.skip(i3 as int + 1);
        proof {
            assert(r2.take(i3 - i2 - 1) =~= a_txt);
            assert(r2.skip(i3 - i2 - 1 + 1) =~= tail);
            assert(spec_split_fields(s@) == Some((d_txt, c_txt, a_txt, tail)));
        }
        let d_str = text_range(s, 4, i1);
        let domain = match Domain::new(d_str.as_str()) {
            Ok(d) => d,
            Err(e) => {
                return Err(e);
            },
        };
        let category = {
            let c_str = text_range(s, i1 + 1, i2);
            Category::new(c_str.as_str())
        };
        let account = {
            let a_str = text_range(s, i2 + 1, i3);
            Account::new(a_str.as_str())
        };
        match find_char_from(s, i3 + 1, '/') {
            None => {
                proof {
                    lemma_find_char_window_none(s@, '/', i3 as int + 1);
                    assert(split_root_parts(tail) == (tail, Seq::<Seq<char>>::empty()));
                }
                let root_str = text_range(s, i3 + 1, n);
                let root: Root<T> = Root::from_text(root_str.as_str());
                let parts = Parts::default();
                let e = Ern::new(domain, category, account, root, parts);
                proof {
                    assert(parts_text_valid(Seq::<Seq<char>>::empty()));
                    assert(spec_parse(self@) matches Some(v) && e@.domain == v.domain && e@.category
                        == v.category && e@.account == v.account && e@.root == v.root && e@.parts
                        == v.parts);
                }
                Ok(e)
            },
            Some(i4) => {
                proof {
                    lemma_find_char_window(s@, '/', i3 as int + 1, i4 as int);
                    assert(find_char(tail, '/') == Some(i4 - i3 - 1));
                    assert(tail.take(i4 - i3 - 1) =~= s@.subrange(i3 as int + 1, i4 as int));
                    assert(tail.skip(i4 - i3 - 1 + 1) =~= s@.skip(i4 as int + 1));
                }
                let root_str = text_range(s, i3 + 1, i4);
                let root: Root<T> = Root::from_text(root_str.as_str());
                let ghost target = split_on(s@.skip(i4 as int + 1), '/');
                proof {
                    assert(split_root_parts(tail) == (s@.subrange(i3 as int + 1, i4 as int), target));
                }
                let mut collected: Vec<Part> = Vec::new();
                let mut cur: usize = i4 + 1;
                loop
                    invariant_except_break
                        target == parts_view(collected@) + split_on(s@.skip(cur as int), '/'),
                    invariant
                        i4 as int + 1 <= cur as int <= n as int,
                        n == s@.len(),
                        domain_valid(d_txt),
                        forall|k: int|
                            0 <= k < collected@.len() ==> part_valid(
                                #[trigger] parts_view(collected@)[k],
                            ),
                        spec_split_fields(self@) == Some((d_txt, c_txt, a_txt, tail)),
                        split_root_parts(tail).1 == target,
                        s@ == self@,
                    ensures
                        target == parts_view(collected@),
                        forall|k: int|
                            0 <= k < collected@.len() ==> part_valid(
                                #[trigger] parts_view(collected@)[k],
                            ),
                        spec_split_fields(self@) == Some((d_txt, c_txt, a_txt, tail)),
                        split_root_parts(tail).1 == target,
                        s@ == self@,
                    decreases n as int - cur as int,
                {
                    let found = find_char_from(s, cur, '/');
                    let last = found.is_none();
                    let piece_end = match found {
                        Some(k) => k,
                        None => n,
                    };
                    proof {
                        match found {
                            Some(k) => {
                                lemma_find_char_window(s@, '/', cur as int, k as int);
                            },
                            None => {
                                lemma_find_char_window_none(s@, '/', cur as int);
                            },
                        }
                    }
                    let ghost piece_txt = s@.subrange(cur as int, piece_end as int);
                    let ghost remainder = split_on(s@.skip(cur as int), '/');
                    proof {
                        if last {
                            assert(remainder == seq![s@.skip(cur as int)]);
                            assert(s@.skip(cur as int) =~= piece_txt);
                        } else {
                            lemma_find_char(s@.skip(cur as int), '/');
                            assert(s@.skip(cur as int).take(piece_end - cur) =~= piece_txt);
                            assert(s@.skip(cur as int).skip(piece_end - cur + 1) =~= s@.skip(
                                piece_end as int + 1,
                            ));
                            assert(remainder == seq![piece_txt] + split_on(
                                s@.skip(piece_end as int + 1),
                                '/',
                            ));
                        }
                        assert(remainder[0] == piece_txt);
                        assert(target[collected@.len() as int] == piece_txt);
                    }
                    let piece = text_range(s, cur, piece_end);
                    let part = match Part::new(piece.as_str()) {
                        Ok(p) => p,
                        Err(e) => {
                            proof {
                                assert(!parts_text_valid(target));
                            }
                            return Err(e);
                        },
                    };
                    let ghost before = collected@;
                    collected.push(part);
                    proof {
                        assert(parts_view(collected@) =~= parts_view(before).push(
                            piece_txt,
                        ));
                    }
                    if last {
                        proof {
                            assert(target =~= parts_view(collected@));
                        }
                        break;
                    }
                    cur = piece_end + 1;
                    proof {
                        assert(target =~= parts_view(collected@) + split_on(
                            s@.skip(cur as int),
                            '/',
                        ));
                    }
                }
                let parts = Parts::new(collected);
                let e = Ern::new(domain, category, account, root, parts);
                proof {
                    assert(parts_text_valid(target));
                    assert(spec_parse(self@) matches Some(v) && e@.domain == v.domain && e@.category
                        == v.category && e@.account == v.account && e@.root == v.root && e@.parts
                        == v.parts);
                }
                Ok(e)
            },
        }
    }
}

} // verus!
