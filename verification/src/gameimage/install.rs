//! Requests that install files into, or remove them from, the project.
use vstd::prelude::*;
use crate::gameimage::request::in_key_order;
use crate::gameimage::request::Leaf;
use crate::gameimage::request::LeafView;
use crate::gameimage::request::Request;
use crate::gameimage::request::RequestView;
use crate::gameimage::request::field;
use crate::gameimage::request::section_request;
use crate::gameimage::request::field_keys;
use crate::gameimage::request::lemma_keys_sorted_by_first;
use crate::gameimage::request::section_view;
use crate::gameimage::request::strings_view;
use crate::gameimage::request::text_leaf;

verus! {

/// An `install` request: `{"install":{"args":[..],"op":<op>,"sub_op":<kind>},"op":"install"}`.
pub open spec fn install_view(op: Seq<char>, sub_op: Seq<char>, args: Seq<Seq<char>>) -> RequestView {
    section_view(
        "install"@,
        seq![("args"@, LeafView::List(args)), ("op"@, LeafView::Text(op)), ("sub_op"@, LeafView::Text(sub_op))],
        "install"@,
    )
}

/// Builds an `install` request.
fn install_request(op: &str, sub_op: &str, args: Vec<String>) -> (r: Request)
    ensures
        in_key_order(r@),
        r@ == install_view(op@, sub_op@, strings_view(args@)),
{
    let ghost a = args@;
    let fields = vec![field("args", Leaf::List(args)), field("op", text_leaf(op)), field("sub_op", text_leaf(sub_op))];
    proof {
        reveal_strlit("args");
        reveal_strlit("op");
        reveal_strlit("sub_op");
        reveal_strlit("install");
        assert(field_keys(fields@) =~= seq!["args"@, "op"@, "sub_op"@]);
        lemma_keys_sorted_by_first(field_keys(fields@));
        assert("install"@.len() != "op"@.len());
    }
    let r = section_request("install", fields, "install");
    assert(r@.section->0.fields =~= install_view(op@, sub_op@, strings_view(a)).section->0.fields);
    r
}

/// Installs the icon at `path`.
pub fn icon(path: &str) -> (r: Request)
    ensures
        in_key_order(r@),
        r@ == install_view("install"@, "icon"@, seq![path@]),
{
    let args = vec![String::from_str(path)];
    assert(strings_view(args@) =~= seq![path@]);
    install_request("install", "icon", args)
}

/// Installs files of a kind (`rom`, `core`, `bios`, `keys`, ...).
pub fn install(str_type: &str, vec_path_files: Vec<String>) -> (r: Request)
    ensures
        in_key_order(r@),
        r@ == install_view("install"@, str_type@, strings_view(vec_path_files@)),
{
    install_request("install", str_type, vec_path_files)
}

/// Installs files of a kind from the remote repositories.
pub fn remote(str_type: &str, vec_path_files: Vec<String>) -> (r: Request)
    ensures
        in_key_order(r@),
        r@ == install_view("remote"@, str_type@, strings_view(vec_path_files@)),
{
    install_request("remote", str_type, vec_path_files)
}

/// Removes installed files of a kind.
pub fn remove(str_type: &str, vec_path_files: Vec<String>) -> (r: Request)
    ensures
        in_key_order(r@),
        r@ == install_view("remove"@, str_type@, strings_view(vec_path_files@)),
{
    install_request("remove", str_type, vec_path_files)
}

/// Opens the emulator's own interface to install files.
pub fn gui() -> (r: Request)
    ensures
        in_key_order(r@),
        r@ == install_view("install"@, "gui"@, Seq::<Seq<char>>::empty()),
{
    let args: Vec<String> = Vec::new();
    assert(strings_view(args@) =~= Seq::<Seq<char>>::empty());
    install_request("install", "gui", args)
}

/// Runs winetricks with the given arguments.
pub fn winetricks(vec_path_files: Vec<String>) -> (r: Request)
    ensures
        in_key_order(r@),
        r@ == install_view("install"@, "winetricks"@, strings_view(vec_path_files@)),
{
    install_request("install", "winetricks", vec_path_files)
}

/// Runs wine with the given arguments.
pub fn wine(vec_path_files: Vec<String>) -> (r: Request)
    ensures
        in_key_order(r@),
        r@ == install_view("install"@, "wine"@, strings_view(vec_path_files@)),
{
    install_request("install", "wine", vec_path_files)
}

} // verus!
