use vstd::prelude::*;
use vstd::string::StringExecFns;

use crate::errors::SettingError;

verus! {

/// Relies on dirs' `data_local_dir`: the platform's local-data directory,
/// if the platform reports one that is valid UTF-8. The value depends on
/// the machine and environment: nothing is promised of it.
#[verifier::external_body]
fn data_local_dir() -> Option<String> {
    match dirs::data_local_dir() {
        Some(p) => match p.to_str() {
            Some(s) => Some(s.to_string()),
            None => None,
        },
        None => None,
    }
}

/// The application's data directory: the platform's local-data directory
/// with `/watson_data` appended, or an error when the platform reports
/// none.
pub fn local_data_dir_path() -> (r: Result<String, SettingError>)
    ensures
        r matches Ok(p) ==> exists|d: Seq<char>| p@ == d + "/watson_data"@,
{
    match data_local_dir() {
        Some(d) => {
            let ghost base = d@;
            let p = d.concat("/watson_data");
            proof {
                assert(p@ == base + "/watson_data"@);
            }
            Ok(p)
        },
        None => Err(SettingError::NoDataDir),
    }
}

} // verus!
