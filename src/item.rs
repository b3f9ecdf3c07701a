use vstd::prelude::*;

verus! {

/// A value that a list can show as one line of text and hand out copies of.
pub trait ListItem: Sized {
    /// The line of text that stands for the item.
    spec fn label(&self) -> Seq<char>;

    /// Renders the item as its line of text.
    fn text(&self) -> (r: String)
        ensures
            r@ == self.label(),
    ;

    /// A copy of the item.
    fn duplicate(&self) -> (r: Self)
        ensures
            r == *self,
    ;
}

impl<'a> ListItem for &'a str {
    open spec fn label(&self) -> Seq<char> {
        (*self)@
    }

    fn text(&self) -> (r: String) {
        (*self).to_owned()
    }

    fn duplicate(&self) -> (r: Self) {
        *self
    }
}

impl ListItem for String {
    open spec fn label(&self) -> Seq<char> {
        self@
    }

    fn text(&self) -> (r: String) {
        self.clone()
    }

    fn duplicate(&self) -> (r: Self) {
        self.clone()
    }
}

} // verus!
