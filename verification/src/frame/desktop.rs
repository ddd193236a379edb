//! The desktop frame: packing the chosen projects into the image and
//! setting up its desktop integration.
use vstd::prelude::*;
use crate::error::WizardError;
use crate::gameimage::desktop;
use crate::gameimage::desktop::desktop_view;
use crate::gameimage::desktop::icon_view;
use crate::gameimage::package;
use crate::gameimage::package::package_view;
use crate::gameimage::request::Request;
use crate::gameimage::request::joined;
use crate::gameimage::request::join_parts;
use crate::gameimage::request::strings_view;

verus! {

/// The integration items asked for: a start menu entry brings `entry` and
/// `icon`, a file manager icon brings `mimetype`.
pub open spec fn integration_list(entry: bool, icon: bool) -> Seq<Seq<char>> {
    (if entry { seq!["entry"@, "icon"@] } else { Seq::<Seq<char>>::empty() }) + (if icon {
        seq!["mimetype"@]
    } else {
        Seq::<Seq<char>>::empty()
    })
}

/// The integration items, comma separated.
pub fn integration_items(entry: bool, icon: bool) -> (r: String)
    ensures
        r@ == joined(integration_list(entry, icon)),
{
    let mut items: Vec<String> = Vec::new();
    if entry {
        items.push(String::from_str("entry"));
        items.push(String::from_str("icon"));
    }
    if icon {
        items.push(String::from_str("mimetype"));
    }
    assert(strings_view(items@) =~= integration_list(entry, icon));
    join_parts(&items)
}

/// What the Next button of the desktop frame sends to the backend, in
/// order: the package request, then, when some integration is asked for,
/// the icon and the desktop entry. A missing name or icon is reported
/// first.
pub fn desktop_next(
    str_name: &str,
    path_file_icon: Option<String>,
    projects: Vec<String>,
    is_integrate_entry: bool,
    is_integrate_icon: bool,
) -> (r: Result<Vec<Request>, WizardError>)
    ensures
        str_name@.len() == 0 ==> r == Err::<Vec<Request>, WizardError>(WizardError::EmptyName),
        str_name@.len() > 0 && path_file_icon is None ==> r == Err::<Vec<Request>, WizardError>(
            WizardError::NoIconSelected,
        ),
        str_name@.len() > 0 && path_file_icon is Some ==> (r matches Ok(v) && {
            let items = integration_list(is_integrate_entry, is_integrate_icon);
            &&& v@[0]@ == package_view(str_name@, strings_view(projects@))
            &&& items.len() == 0 ==> v@.len() == 1
            &&& items.len() > 0 ==> v@.len() == 3 && v@[1]@ == icon_view(path_file_icon->0@) && v@[2]@
                == desktop_view(str_name@, joined(items))
        }),
{
    if str_name.is_empty() {
        return Err(WizardError::EmptyName);
    }
    let icon = match path_file_icon {
        Some(p) => p,
        None => return Err(WizardError::NoIconSelected),
    };
    let mut requests: Vec<Request> = Vec::new();
    requests.push(package::package(str_name, projects));
    let items = integration_items(is_integrate_entry, is_integrate_icon);
    if !items.as_str().is_empty() {
        requests.push(desktop::icon(icon.as_str()));
        requests.push(desktop::desktop(str_name, items.as_str()));
    }
    proof {
        let l = integration_list(is_integrate_entry, is_integrate_icon);
        if l.len() > 0 {
            assert(joined(l).len() > 0) by {
                reveal_strlit("mimetype");
                reveal_strlit(",");
                if l.len() == 1 {
                } else if l.len() == 2 {
                    assert(l.drop_last() =~= seq![l[0]]);
                } else {
                    assert(l.drop_last().drop_last() =~= seq![l[0]]);
                }
            }
        }
    }
    Ok(requests)
}

} // verus!
