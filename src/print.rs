//! The `Print` capability interface and the adapter that implements it over a
//! `Banner`.
use vstd::prelude::*;

use crate::banner::{asterisked, parenthesized, Banner};

verus! {

/// A capability with a weak and a strong rendering. Each rendering is a pure
/// function of the implementer's state, given by `weak_text` and `strong_text`.
pub trait Print {
    /// The text that `print_weak` returns.
    spec fn weak_text(&self) -> Seq<char>;

    /// The text that `print_strong` returns.
    spec fn strong_text(&self) -> Seq<char>;

    fn print_weak(&self) -> (r: String)
        ensures
            r@ == self.weak_text(),
    ;

    fn print_strong(&self) -> (r: String)
        ensures
            r@ == self.strong_text(),
    ;
}

/// Adapts a `Banner` to `Print`. It owns the banner and exposes nothing of it
/// but the two renderings of the interface.
pub struct PrintBanner {
    banner: Banner,
}

impl View for PrintBanner {
    type V = Seq<char>;

    /// The message of the owned banner.
    closed spec fn view(&self) -> Seq<char> {
        self.banner@
    }
}

impl PrintBanner {
    /// Takes ownership of `banner`.
    pub fn new(banner: Banner) -> (p: PrintBanner)
        ensures
            p@ == banner@,
    {
        PrintBanner { banner }
    }
}

impl Print for PrintBanner {
    open spec fn weak_text(&self) -> Seq<char> {
        parenthesized(self@)
    }

    open spec fn strong_text(&self) -> Seq<char> {
        asterisked(self@)
    }

    fn print_weak(&self) -> (r: String) {
        self.banner.show_with_paren()
    }

    fn print_strong(&self) -> (r: String) {
        self.banner.show_with_aster()
    }
}

/// For every text `s`, an adapter around a banner built from `s` prints
/// weakly as `"(" + s + ")"`.
pub proof fn lemma_weak_print_of_banner(s: Seq<char>, b: Banner, p: PrintBanner)
    requires
        b@ == s,
        p@ == b@,
    ensures
        p.weak_text() == seq!['('] + s + seq![')'],
{
}

/// For every text `s`, an adapter around a banner built from `s` prints
/// strongly as `"*" + s + "*"`.
pub proof fn lemma_strong_print_of_banner(s: Seq<char>, b: Banner, p: PrintBanner)
    requires
        b@ == s,
        p@ == b@,
    ensures
        p.strong_text() == seq!['*'] + s + seq!['*'],
{
}

/// Printing is idempotent: any two results of `print_weak` on the same
/// printer are equal, and likewise for `print_strong`.
pub proof fn lemma_print_idempotent<P: Print>(p: P, w1: String, w2: String, s1: String, s2: String)
    requires
        w1@ == p.weak_text(),
        w2@ == p.weak_text(),
        s1@ == p.strong_text(),
        s2@ == p.strong_text(),
    ensures
        w1@ == w2@,
        s1@ == s2@,
{
}

} // verus!
