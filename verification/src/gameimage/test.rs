//! The request that runs the project.
use vstd::prelude::*;
use crate::gameimage::request::in_key_order;
use crate::gameimage::request::Request;
use crate::gameimage::request::RequestView;

verus! {

/// `{"op":"test"}`.
pub open spec fn test_view() -> RequestView {
    RequestView { section: None, op: "test"@ }
}

/// Runs the current project's default file.
pub fn test() -> (r: Request)
    ensures
        in_key_order(r@),
        r@ == test_view(),
{
    Request { section: None, op: String::from_str("test") }
}

} // verus!
