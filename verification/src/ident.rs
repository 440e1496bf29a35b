//! Conversion of names into identifiers.

use crate::ast::Ident;
use vstd::prelude::*;

verus! {

impl Clone for Ident {
    fn clone(&self) -> (ident: Ident)
        ensures
            ident@ == self@,
    {
        Ident { name: self.name.clone() }
    }
}

/// A value that names an identifier.
pub trait ToIdent {
    /// The characters of the identifier that this value names. They are
    /// unspecified for a type that does not say what it names.
    open spec fn ident_name(&self) -> Seq<char> {
        arbitrary()
    }

    /// The identifier that this value names.
    fn to_ident(&self) -> (ident: Ident)
        ensures
            ident@ == self.ident_name(),
    ;
}

impl ToIdent for Ident {
    open spec fn ident_name(&self) -> Seq<char> {
        self@
    }

    fn to_ident(&self) -> (ident: Ident) {
        self.clone()
    }
}

impl<'a> ToIdent for &'a str {
    open spec fn ident_name(&self) -> Seq<char> {
        self@
    }

    fn to_ident(&self) -> (ident: Ident) {
        Ident { name: (*self).to_owned() }
    }
}

impl ToIdent for String {
    open spec fn ident_name(&self) -> Seq<char> {
        self@
    }

    fn to_ident(&self) -> (ident: Ident) {
        Ident { name: self.clone() }
    }
}

impl<'a, T: ToIdent> ToIdent for &'a T {
    open spec fn ident_name(&self) -> Seq<char> {
        (**self).ident_name()
    }

    fn to_ident(&self) -> (ident: Ident) {
        (**self).to_ident()
    }
}

} // verus!
