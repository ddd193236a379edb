//! Decisions of the compress frame: the compression levels offered, the
//! level used and the backend command line that compresses the project.
use vstd::prelude::*;
use crate::gameimage::request::strings_view;

verus! {

/// The compression levels offered, in menu order.
pub open spec fn level_choices_view() -> Seq<Seq<char>> {
    seq!["0"@, "1"@, "2"@, "3"@, "4"@, "5"@, "6"@, "7"@, "8"@, "9"@, "10"@]
}

/// The compression levels offered in the level menu.
pub fn level_choices() -> (r: Vec<String>)
    ensures
        strings_view(r@) == level_choices_view(),
{
    let r = vec![
        String::from_str("0"),
        String::from_str("1"),
        String::from_str("2"),
        String::from_str("3"),
        String::from_str("4"),
        String::from_str("5"),
        String::from_str("6"),
        String::from_str("7"),
        String::from_str("8"),
        String::from_str("9"),
        String::from_str("10"),
    ];
    assert(strings_view(r@) =~= level_choices_view());
    r
}

/// The level used: the one chosen in the menu, `7` when none is.
pub fn compression_level(choice: Option<String>) -> (r: String)
    ensures
        match choice {
            Some(c) => r@ == c@,
            None => r@ == "7"@,
        },
{
    match choice {
        Some(c) => c,
        None => String::from_str("7"),
    }
}

/// The command line that compresses the current project with the backend
/// at `backend`.
pub fn compress_args(backend: &str) -> (r: Vec<String>)
    ensures
        strings_view(r@) == seq![backend@, "{ \"op\": \"compress\" }"@],
{
    let r = vec![String::from_str(backend), String::from_str("{ \"op\": \"compress\" }")];
    assert(strings_view(r@) =~= seq![backend@, "{ \"op\": \"compress\" }"@]);
    r
}

/// The command line that runs the current project with the backend at
/// `backend`, as the test frame does.
pub fn test_args(backend: &str) -> (r: Vec<String>)
    ensures
        strings_view(r@) == seq![backend@, "test"@],
{
    let r = vec![String::from_str(backend), String::from_str("test")];
    assert(strings_view(r@) =~= seq![backend@, "test"@]);
    r
}

} // verus!
