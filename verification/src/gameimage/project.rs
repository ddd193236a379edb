//! Requests on existing projects.
use vstd::prelude::*;
use crate::gameimage::request::in_key_order;
use crate::gameimage::request::LeafView;
use crate::gameimage::request::Request;
use crate::gameimage::request::RequestView;
use crate::gameimage::request::field;
use crate::gameimage::request::section_request;
use crate::gameimage::request::field_keys;
use crate::gameimage::request::lemma_keys_sorted_by_first;
use crate::gameimage::request::section_view;
use crate::gameimage::request::text_leaf;

verus! {

/// `{"op":"project","project":{"name":<name>,"op":<op>}}`.
pub open spec fn project_view(op: Seq<char>, name: Seq<char>) -> RequestView {
    section_view(
        "project"@,
        seq![("name"@, LeafView::Text(name)), ("op"@, LeafView::Text(op))],
        "project"@,
    )
}

fn project_request(op: &str, name: &str) -> (r: Request)
    ensures
        in_key_order(r@),
        r@ == project_view(op@, name@),
{
    let fields = vec![field("name", text_leaf(name)), field("op", text_leaf(op))];
    proof {
        reveal_strlit("name");
        reveal_strlit("op");
        reveal_strlit("project");
        assert(field_keys(fields@) =~= seq!["name"@, "op"@]);
        lemma_keys_sorted_by_first(field_keys(fields@));
        assert("project"@.len() != "op"@.len());
    }
    let r = section_request("project", fields, "project");
    assert(r@.section->0.fields =~= project_view(op@, name@).section->0.fields);
    r
}

/// Makes `str_name` the current project.
pub fn set(str_name: &str) -> (r: Request)
    ensures
        in_key_order(r@),
        r@ == project_view("set"@, str_name@),
{
    project_request("set", str_name)
}

/// Deletes the project `str_name`.
pub fn del(str_name: &str) -> (r: Request)
    ensures
        in_key_order(r@),
        r@ == project_view("del"@, str_name@),
{
    project_request("del", str_name)
}

} // verus!
