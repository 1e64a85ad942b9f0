//! Opaque, globally unique shape identifiers.

use vstd::prelude::*;

verus! {

/// Relies on uuid::Uuid::new_v4 and its Display impl: a random version-4
/// UUID in the hyphenated form, which is 36 characters long.
#[verifier::external_body]
fn random_uuid_string() -> (r: String)
    ensures
        r@.len() == 36,
{
    uuid::Uuid::new_v4().to_string()
}

/// The identifier of a shape: a string that never changes once the shape
/// exists.
#[derive(Clone, Debug)]
pub struct Id(pub String);

impl View for Id {
    type V = Seq<char>;

    open spec fn view(&self) -> Seq<char> {
        self.0@
    }
}

impl Id {
    /// An identifier with the given text.
    pub fn new(text: String) -> (r: Id)
        ensures
            r@ == text@,
    {
        Id(text)
    }

    /// A copy of the identifier.
    pub fn copy(&self) -> (r: Id)
        ensures
            r == *self,
    {
        Id(self.0.clone())
    }

    pub fn as_str(&self) -> (r: &str)
        ensures
            r@ == self@,
    {
        self.0.as_str()
    }
}

impl PartialEq for Id {
    fn eq(&self, other: &Id) -> (r: bool) {
        self.0 == other.0
    }
}

impl vstd::std_specs::cmp::PartialEqSpecImpl for Id {
    open spec fn obeys_eq_spec() -> bool {
        true
    }

    open spec fn eq_spec(&self, other: &Id) -> bool {
        self@ == other@
    }
}

impl Eq for Id {
}

impl Default for Id {
    /// A fresh random identifier.
    fn default() -> (r: Id)
        ensures
            r@.len() == 36,
    {
        Id(random_uuid_string())
    }
}

} // verus!
