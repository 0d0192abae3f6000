//! Short identifiers, such as the names of oracle feeds.

use vstd::prelude::*;
use vstd::string::StrSliceExecFns;

use crate::table::Key;

verus! {

/// The longest identifier, in characters.
pub const MAX_IDENT_LEN: usize = 32;

/// Whether an identifier may hold `c`: a letter, a digit or an underscore.
pub open spec fn is_ident_char(c: char) -> bool {
    ||| 'a' <= c <= 'z'
    ||| 'A' <= c <= 'Z'
    ||| '0' <= c <= '9'
    ||| c == '_'
}

/// Whether `text` is an identifier.
pub open spec fn is_ident(text: Seq<char>) -> bool {
    &&& text.len() <= MAX_IDENT_LEN
    &&& forall|i: int| 0 <= i < text.len() ==> is_ident_char(#[trigger] text[i])
}

/// An identifier: at most 32 letters, digits and underscores.
#[derive(Debug, PartialEq, Eq)]
pub struct Ident {
    text: String,
}

impl View for Ident {
    type V = Seq<char>;

    closed spec fn view(&self) -> Seq<char> {
        self.text@
    }
}

impl Ident {
    #[verifier::type_invariant]
    spec fn well_formed(self) -> bool {
        is_ident(self.text@)
    }

    /// The identifier spelled `text`, or `None` where no identifier is spelled so.
    pub fn new(text: &str) -> (r: Option<Ident>)
        ensures
            r is Some <==> is_ident(text@),
            r matches Some(ident) ==> ident@ == text@,
    {
        let len: usize = text.unicode_len();
        if len > MAX_IDENT_LEN {
            return None;
        }
        let mut i: usize = 0;
        while i < len
            invariant
                i <= len,
                len == text@.len(),
                forall|j: int| 0 <= j < i ==> is_ident_char(#[trigger] text@[j]),
            decreases len - i,
        {
            let c = text.get_char(i);
            let allowed = ('a' <= c && c <= 'z') || ('A' <= c && c <= 'Z') || ('0' <= c && c <= '9')
                || c == '_';
            if !allowed {
                assert(!is_ident_char(text@[i as int]));
                return None;
            }
            i += 1;
        }
        Some(Ident { text: text.to_owned() })
    }

    /// How the identifier is spelled.
    pub fn as_str(&self) -> (text: &str)
        ensures
            text@ == self@,
            is_ident(text@),
    {
        proof {
            use_type_invariant(self);
        }
        self.text.as_str()
    }
}

impl Clone for Ident {
    fn clone(&self) -> (r: Self)
        ensures
            r == *self,
    {
        proof {
            use_type_invariant(self);
        }
        Ident { text: self.text.clone() }
    }
}

impl Key for Ident {
    fn same(&self, other: &Self) -> (r: bool) {
        self.text.eq(&other.text)
    }
}

/// An identifier is at most 32 characters long, each of them an ASCII letter, a digit or an
/// underscore.
pub proof fn identifiers_are_spelled_plainly(text: Seq<char>)
    ensures
        is_ident(text) <==> text.len() <= 32 && forall|i: int|
            0 <= i < text.len() ==> {
                ||| 'a' <= #[trigger] text[i] <= 'z'
                ||| 'A' <= text[i] <= 'Z'
                ||| '0' <= text[i] <= '9'
                ||| text[i] == '_'
            },
{
    if is_ident(text) {
        assert forall|i: int| 0 <= i < text.len() implies ({
            ||| 'a' <= #[trigger] text[i] <= 'z'
            ||| 'A' <= text[i] <= 'Z'
            ||| '0' <= text[i] <= '9'
            ||| text[i] == '_'
        }) by {
            assert(is_ident_char(text[i]));
        }
    }
}

} // verus!
