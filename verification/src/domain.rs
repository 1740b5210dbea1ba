//! The validated subscriber address.

use vstd::prelude::*;
use vstd::std_specs::iter::IteratorSpec;

verus! {

broadcast use vstd::string::group_string_axioms;

/// Whether `c` may stand in an address: it is no blank, tab or line break.
pub open spec fn is_address_char(c: char) -> bool {
    c != ' ' && c != '\t' && c != '\n' && c != '\r'
}

/// Whether position `at` holds the only `@` of `s`, with text on both sides.
pub open spec fn splits_at(s: Seq<char>, at: int) -> bool {
    &&& 0 < at < s.len() - 1
    &&& s[at] == '@'
    &&& forall|j: int| 0 <= j < s.len() && j != at ==> #[trigger] s[j] != '@'
}

/// The shape of an address: a local part and a domain, both non-empty,
/// around the one `@`, and no character that `is_address_char` excludes.
pub open spec fn is_address(s: Seq<char>) -> bool {
    &&& forall|i: int| 0 <= i < s.len() ==> is_address_char(#[trigger] s[i])
    &&& exists|at: int| #[trigger] splits_at(s, at)
}

/// An email address that has been checked against `is_address`.
pub struct SubscriberEmail {
    address: String,
}

impl View for SubscriberEmail {
    type V = Seq<char>;

    closed spec fn view(&self) -> Seq<char> {
        self.address@
    }
}

impl SubscriberEmail {
    /// Every value of this type holds a well-formed address.
    #[verifier::type_invariant]
    pub closed spec fn well_formed(&self) -> bool {
        is_address(self.address@)
    }

    /// Accepts the text exactly when it has the shape of an address, and
    /// hands it back otherwise.
    pub fn parse(s: String) -> (result: Result<SubscriberEmail, String>)
        ensures
            is_address(s@) ==> result is Ok && result->Ok_0@ == s@,
            !is_address(s@) ==> result is Err && result->Err_0@ == s@,
    {
        let text = s.as_str();
        let n = text.unicode_len();
        let mut chars = text.chars();
        let mut at: Option<usize> = None;
        let mut i: usize = 0;
        while i < n
            invariant
                n == s@.len(),
                i <= n,
                chars.remaining() == s@.skip(i as int),
                forall|j: int| 0 <= j < i ==> is_address_char(#[trigger] s@[j]),
                at is None ==> forall|j: int| 0 <= j < i ==> #[trigger] s@[j] != '@',
                at matches Some(a) ==> a < i && s@[a as int] == '@' && forall|j: int|
                    0 <= j < i && j != a ==> #[trigger] s@[j] != '@',
            decreases n - i,
        {
            let next = chars.next();
            let c = match next {
                Some(c) => c,
                None => { return Err(s); },
            };
            assert(c == s@[i as int]);
            if c == ' ' || c == '\t' || c == '\n' || c == '\r' {
                return Err(s);
            }
            if c == '@' {
                match at {
                    Some(a) => {
                        proof {
                            assert forall|p: int| !splits_at(s@, p) by {
                                if p == a as int {
                                    assert(s@[i as int] == '@');
                                } else {
                                    assert(s@[a as int] == '@');
                                }
                            }
                        }
                        return Err(s);
                    },
                    None => {
                        at = Some(i);
                    },
                }
            }
            i = i + 1;
        }
        match at {
            Some(a) => {
                if 0 < a && a < n - 1 {
                    assert(splits_at(s@, a as int));
                    Ok(SubscriberEmail { address: s })
                } else {
                    proof {
                        assert forall|p: int| !splits_at(s@, p) by {
                            if p != a as int && 0 <= p < s@.len() {
                                assert(s@[p] != '@');
                            }
                        }
                    }
                    Err(s)
                }
            },
            None => {
                proof {
                    assert forall|p: int| !splits_at(s@, p) by {
                        if 0 <= p < s@.len() {
                            assert(s@[p] != '@');
                        }
                    }
                }
                Err(s)
            },
        }
    }

    /// The address as text.
    pub fn as_str(&self) -> (s: &str)
        ensures
            s@ == self@,
            is_address(s@),
    {
        proof {
            use_type_invariant(self);
        }
        self.address.as_str()
    }
}

} // verus!
