//! What a client may ask about templates.

use vstd::prelude::*;

verus! {

/// A search for templates by free text.
#[derive(Debug)]
pub struct Query {
    pub query: String,
}

/// A request for the templates of one author.
#[derive(Debug)]
pub struct AuthorQuery {
    pub author: String,
}

/// A request for one template by its identity.
#[derive(Debug)]
pub struct IdQuery {
    pub id: String,
}

/// A request for a preview image of one template.
#[derive(Debug)]
pub struct PreviewQuery {
    pub id: String,
    pub wide: Option<bool>,
}

impl PreviewQuery {
    /// Whether the request is for the desktop image: it is when `wide` is
    /// given and set, and for the mobile image otherwise.
    pub open spec fn is_wide(&self) -> bool {
        self.wide == Some(true)
    }

    /// Whether the mobile image is asked for, which it is unless the
    /// request is explicitly for the wide one.
    pub fn wants_mobile(&self) -> (mobile: bool)
        ensures
            mobile == !self.is_wide(),
    {
        match self.wide {
            Some(wide) => !wide,
            None => true,
        }
    }
}

} // verus!
