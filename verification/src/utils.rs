//! Addresses and locations of served resources.

use vstd::prelude::*;
use vstd::string::*;
use crate::paths::{join2, joined2};

verus! {

/// The public address under which the resource at `path` is served.
pub open spec fn url_of(path: Seq<char>) -> Seq<char> {
    "https://api.site.com/resource/"@ + path
}

/// The public address of the resource at `path`.
pub fn get_url(path: &str) -> (url: String)
    ensures
        url@ == url_of(path@),
{
    String::from_str("https://api.site.com/resource/").concat(path)
}

/// The place of the resource `path` of kind `type_` below the base
/// directory.
pub fn get_resource(type_: &str, path: &str) -> (location: String)
    ensures
        location@ == joined2("base_dir"@, type_@, path@),
{
    join2("base_dir", type_, path)
}

} // verus!
