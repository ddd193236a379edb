//! Decisions of the frames that name things: the package name frame (the
//! file name of the finished image) and the frame that starts a project
//! from its name, platform and image.
use vstd::prelude::*;
use crate::error::WizardError;
use crate::gameimage::request::strings_view;
use crate::path;
use crate::path::path_joined;
use crate::path::path_parent;
use crate::text;
use crate::wizard::name::is_alphanumeric_char;
use crate::wizard::name::word_char;
use crate::wizard::name::dash_char;

verus! {

/// What a character of a typed package name becomes: alphanumerics, `-`
/// and `_` stay, a space becomes `-`, anything else is dropped.
pub open spec fn package_char(c: char) -> Option<char> {
    if is_alphanumeric_char(c) || c == '-' || c == '_' {
        Some(c)
    } else if c == ' ' {
        Some('-')
    } else {
        None
    }
}

/// The sanitised package name.
pub open spec fn package_sanitized(s: Seq<char>) -> Seq<char>
    decreases s.len(),
{
    if s.len() == 0 {
        seq![]
    } else {
        match package_char(s.last()) {
            Some(c) => package_sanitized(s.drop_last()).push(c),
            None => package_sanitized(s.drop_last()),
        }
    }
}

/// The sanitised package name; `None` when nothing of it is left.
pub fn package_name(input: &str) -> (r: Option<String>)
    ensures
        package_sanitized(input@).len() == 0 ==> r is None,
        package_sanitized(input@).len() > 0 ==> (r matches Some(s) && s@ == package_sanitized(input@)),
{
    let v = text::chars_of(input);
    let n = v.len();
    let mut out: Vec<char> = Vec::new();
    let mut i: usize = 0;
    while i < n
        invariant
            n == v@.len(),
            v@ == input@,
            i <= n,
            out@ == package_sanitized(v@.take(i as int)),
        decreases n - i,
    {
        proof {
            assert(v@.take(i + 1).drop_last() =~= v@.take(i as int));
        }
        let c = v[i];
        if text::is_alphanumeric(c) || c == '-' || c == '_' {
            out.push(c);
        } else if c == ' ' {
            out.push('-');
        }
        i = i + 1;
    }
    assert(v@.take(n as int) =~= v@);
    if out.len() == 0 {
        None
    } else {
        Some(text::string_of(out.as_slice()))
    }
}

/// A `-` or space: the characters of a typed package name that become `-`.
pub open spec fn package_dash_like() -> spec_fn(char) -> bool {
    |c: char| c == '-' || c == ' '
}

/// What a sanitised package name holds: only letters, digits, `-` and `_`;
/// every letter, digit and underscore of the typed name stays, in order,
/// with nothing added; and there is one `-` for each `-` and space typed.
pub proof fn law_package_keeps_name_chars(s: Seq<char>)
    ensures
        forall|i: int| 0 <= i < package_sanitized(s).len() ==> is_alphanumeric_char(#[trigger] package_sanitized(s)[i])
            || package_sanitized(s)[i] == '-' || package_sanitized(s)[i] == '_',
        package_sanitized(s).filter(word_char()) == s.filter(word_char()),
        package_sanitized(s).filter(dash_char()).len() == s.filter(package_dash_like()).len(),
    decreases s.len(),
{
    broadcast use Seq::lemma_filter_push;
    reveal(Seq::filter);
    if s.len() > 0 {
        let t = s.drop_last();
        let c = s.last();
        law_package_keeps_name_chars(t);
        assert(t.push(c) =~= s);
        let o = package_sanitized(t);
        match package_char(c) {
            Some(d) => {
                assert(package_sanitized(s) == o.push(d));
                assert forall|i: int| 0 <= i < package_sanitized(s).len() implies is_alphanumeric_char(
                    #[trigger] package_sanitized(s)[i],
                ) || package_sanitized(s)[i] == '-' || package_sanitized(s)[i] == '_' by {
                    if i < o.len() {
                        assert(package_sanitized(s)[i] == o[i]);
                    }
                }
            },
            None => {
                assert(package_sanitized(s) == o);
            },
        }
    }
}

/// Where the image is renamed to: `<name>.flatimage` in the directory that
/// holds the build directory of the source image.
pub open spec fn package_destination(src: Seq<char>, name: Seq<char>) -> Option<Seq<char>> {
    match path_parent(src) {
        Some(build) => match path_parent(build) {
            Some(dir) => Some(path_joined(dir, name + ".flatimage"@)),
            None => None,
        },
        None => None,
    }
}

/// What the finish button of the package name frame moves, as
/// `(source, destination)`: the image `image` of the build directory `dir`
/// to its new name beside the build directory.
pub fn package_next(input: &str, image: Option<&str>, dir: Option<&str>) -> (r: Result<(String, String), WizardError>)
    ensures
        package_sanitized(input@).len() == 0 ==> r == Err::<(String, String), WizardError>(WizardError::EmptyName),
        package_sanitized(input@).len() > 0 && (image is None || dir is None) ==> r == Err::<
            (String, String),
            WizardError,
        >(WizardError::MissingImage),
        package_sanitized(input@).len() > 0 && image is Some && dir is Some ==> {
            let src = path_joined(dir->0@, image->0@);
            match package_destination(src, package_sanitized(input@)) {
                Some(dst) => (r matches Ok(p) && p.0@ == src && p.1@ == dst),
                None => r == Err::<(String, String), WizardError>(WizardError::NoDestination),
            }
        },
{
    let name = match package_name(input) {
        Some(n) => n,
        None => return Err(WizardError::EmptyName),
    };
    let (image, dir) = match (image, dir) {
        (Some(i), Some(d)) => (i, d),
        _ => return Err(WizardError::MissingImage),
    };
    let src = path::join(dir, image);
    let build = match path::parent(src.as_str()) {
        Some(b) => b,
        None => return Err(WizardError::NoDestination),
    };
    let parent = match path::parent(build.as_str()) {
        Some(p) => p,
        None => return Err(WizardError::NoDestination),
    };
    let file = text::concat(name.as_str(), ".flatimage");
    let dst = path::join(parent.as_str(), file.as_str());
    Ok((src, dst))
}

/// The command line that creates a project, from the values entered
/// before: the name, the platform and the image; an error for the first
/// that is missing.
pub fn init_next(name: Option<&str>, platform: Option<&str>, image: Option<&str>) -> (r: Result<Vec<String>, WizardError>)
    ensures
        name is None ==> r == Err::<Vec<String>, WizardError>(WizardError::EmptyName),
        name is Some && platform is None ==> r == Err::<Vec<String>, WizardError>(WizardError::NoPlatform),
        name is Some && platform is Some && image is None ==> r == Err::<Vec<String>, WizardError>(
            WizardError::MissingImage,
        ),
        name is Some && platform is Some && image is Some ==> (r matches Ok(v) && strings_view(v@) == seq![
            "init"@,
            "--dir"@,
            name->0@,
            "--platform"@,
            platform->0@,
            "--image"@,
            image->0@,
        ]),
{
    let name = match name {
        Some(n) => n,
        None => return Err(WizardError::EmptyName),
    };
    let platform = match platform {
        Some(p) => p,
        None => return Err(WizardError::NoPlatform),
    };
    let image = match image {
        Some(i) => i,
        None => return Err(WizardError::MissingImage),
    };
    let v = vec![
        String::from_str("init"),
        String::from_str("--dir"),
        String::from_str(name),
        String::from_str("--platform"),
        String::from_str(platform),
        String::from_str("--image"),
        String::from_str(image),
    ];
    assert(strings_view(v@) =~= seq!["init"@, "--dir"@, name@, "--platform"@, platform@, "--image"@, image@]);
    Ok(v)
}

/// The project directory recorded once a project is created: the name
/// after the build directory and a `/`.
pub fn project_dir_var(dir: &str, name: &str) -> (r: String)
    ensures
        r@ == dir@ + "/"@ + name@,
{
    let mut s = String::from_str(dir);
    s.append("/");
    s.append(name);
    s
}

} // verus!
