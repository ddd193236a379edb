//! The list of fetchable layers (`fetch.json` in the build directory).
use vstd::prelude::*;
use crate::error::WizardError;
use crate::kv::StrMap;
use crate::text;

verus! {

/// The layer of an emulator.
pub struct EntryEmulator {
    pub layer: String,
}

/// The wine layers, by distribution name.
pub struct EntryWine {
    pub layer: StrMap,
}

/// The fetch database.
pub struct Entry {
    pub version: String,
    pub rpcs3: EntryEmulator,
    pub pcsx2: EntryEmulator,
    pub retroarch: EntryEmulator,
    pub wine: EntryWine,
}

/// The backend release this wizard works with starts with this text.
pub open spec fn supported_version_prefix() -> Seq<char> {
    "1.5"@
}

/// Checks that the fetch database comes from a supported backend release
/// (its version starts with `1.5`).
pub fn check_version(db_fetch: &Entry) -> (r: Result<(), WizardError>)
    ensures
        supported_version_prefix().is_prefix_of(db_fetch.version@) ==> r is Ok,
        !supported_version_prefix().is_prefix_of(db_fetch.version@) ==> (r matches Err(
            WizardError::VersionMismatch { version },
        ) && version@ == db_fetch.version@),
{
    if !text::starts_with(db_fetch.version.as_str(), "1.5") {
        return Err(WizardError::VersionMismatch { version: db_fetch.version.clone() });
    }
    Ok(())
}

/// The names of the wine distributions, each once, as the distribution
/// menu shows them.
pub fn wine_distributions(db_fetch: &Entry) -> (r: Vec<String>)
    ensures
        forall|k: Seq<char>| db_fetch.wine.layer@.contains_key(k) <==> exists|i: int| 0 <= i < r@.len() && #[trigger] r@[i]@ == k,
        forall|i: int, j: int| 0 <= i < j < r@.len() ==> #[trigger] r@[i]@ != #[trigger] r@[j]@,
{
    db_fetch.wine.layer.keys()
}

} // verus!
