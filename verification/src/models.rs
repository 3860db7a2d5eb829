//! The model-listing command: what the daemon reports of each locally
//! installed model, and the extraction of the name list the UI displays.

use vstd::prelude::*;
use vstd::string::StringExecFns;

verus! {

/// What the daemon reports of one locally installed model. Only the name
/// is surfaced to the UI; the other fields are carried as the daemon sent
/// them and discarded by the listing command.
#[derive(Clone, Debug)]
pub struct LocalModel {
    pub name: String,
    pub modified_at: String,
    pub size: u64,
}

/// The name of each model record, in the daemon's order.
pub open spec fn names_of(models: Seq<LocalModel>) -> Seq<Seq<char>> {
    models.map(|i: int, m: LocalModel| m.name@)
}

/// Extract the model names from the daemon's listing: exactly one name per
/// record, in the order the daemon returned them.
pub fn model_names(models: &Vec<LocalModel>) -> (names: Vec<String>)
    ensures
        names@.len() == models@.len(),
        forall|j: int| 0 <= j < names@.len() ==> names@[j]@ == models@[j].name@,
{
    let mut names: Vec<String> = Vec::new();
    let mut i: usize = 0;
    while i < models.len()
        invariant
            i <= models@.len(),
            names@.len() == i as int,
            forall|j: int| 0 <= j < i as int ==> names@[j]@ == models@[j].name@,
        decreases models@.len() - i as int,
    {
        names.push(String::from_str(models[i].name.as_str()));
        i = i + 1;
    }
    names
}

/// The listing command's computation, given the outcome of the daemon
/// round-trip: on success the ordered name list, on failure the daemon's
/// describing text behind a fixed context prefix.
pub fn get_models(daemon: Result<Vec<LocalModel>, String>) -> (r: Result<Vec<String>, String>)
    ensures
        daemon is Ok ==> r is Ok && names_of(daemon->Ok_0@) == r->Ok_0@.map(
            |i: int, s: String| s@,
        ),
        daemon is Err ==> r is Err && r->Err_0@ == "Failed to list models: "@ + daemon->Err_0@,
{
    match daemon {
        Result::Ok(models) => {
            let names = model_names(&models);
            proof {
                assert(names_of(models@) =~= names@.map(|i: int, s: String| s@));
            }
            Result::Ok(names)
        },
        Result::Err(detail) => Result::Err(
            String::from_str("Failed to list models: ").concat(detail.as_str()),
        ),
    }
}

} // verus!
