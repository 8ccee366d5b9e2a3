//! Conversion of text-like values into the canonical text that literals hold.
use vstd::prelude::*;

verus! {

/// A value that has a canonical text form.
pub trait ToInternedString: Sized {
    /// The canonical text of this value.
    spec fn interned(self) -> Seq<char>;

    fn to_interned_string(self) -> (r: String)
        ensures
            r@ == self.interned(),
    ;
}

impl ToInternedString for String {
    open spec fn interned(self) -> Seq<char> {
        self@
    }

    fn to_interned_string(self) -> (r: String) {
        self
    }
}

impl<'a> ToInternedString for &'a str {
    open spec fn interned(self) -> Seq<char> {
        self@
    }

    fn to_interned_string(self) -> (r: String) {
        String::from_str(self)
    }
}

} // verus!
