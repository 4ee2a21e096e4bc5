//! The adapted component: a banner that owns one immutable message.
use vstd::prelude::*;
use vstd::string::StringExecFns;

verus! {

/// The message enclosed in parentheses: `"(" + s + ")"`.
pub open spec fn parenthesized(s: Seq<char>) -> Seq<char> {
    seq!['('] + s + seq![')']
}

/// The message enclosed in asterisks: `"*" + s + "*"`.
pub open spec fn asterisked(s: Seq<char>) -> Seq<char> {
    seq!['*'] + s + seq!['*']
}

/// A banner holding a message that is fixed at construction.
pub struct Banner {
    message: String,
}

impl View for Banner {
    type V = Seq<char>;

    /// The banner's message.
    closed spec fn view(&self) -> Seq<char> {
        self.message@
    }
}

impl Banner {
    /// Builds a banner holding a copy of `message`; any text is accepted.
    pub fn new(message: &str) -> (b: Banner)
        ensures
            b@ == message@,
    {
        Banner { message: String::from_str(message) }
    }

    /// Renders the message enclosed in parentheses.
    pub fn show_with_paren(&self) -> (r: String)
        ensures
            r@ == parenthesized(self@),
    {
        let mut r = String::from_str("(");
        r.append(self.message.as_str());
        r.append(")");
        proof {
            reveal_strlit("(");
            reveal_strlit(")");
        }
        r
    }

    /// Renders the message enclosed in asterisks.
    pub fn show_with_aster(&self) -> (r: String)
        ensures
            r@ == asterisked(self@),
    {
        let mut r = String::from_str("*");
        r.append(self.message.as_str());
        r.append("*");
        proof {
            reveal_strlit("*");
        }
        r
    }
}

} // verus!
