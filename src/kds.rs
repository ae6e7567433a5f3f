use vstd::prelude::*;
use vstd::string::StringExecFns;

use crate::error::{CrlError, DetectionError};
use crate::processor::{generation_name, ProcessorGeneration};

verus! {

/// Where the revocation list of generation `g` is served.
pub open spec fn crl_url_of(g: ProcessorGeneration) -> Seq<char> {
    "https://kdsintf.amd.com/vcek/v1/"@ + generation_name(g) + "/crl"@
}

/// The name of the file that holds the revocation list of generation `g`.
pub open spec fn crl_file_name_of(g: ProcessorGeneration) -> Seq<char> {
    generation_name(g) + ".crl"@
}

/// The address of the revocation list of a known generation.
pub fn crl_url_for(g: ProcessorGeneration) -> (r: String)
    ensures
        r@ == crl_url_of(g),
{
    let mut url = String::from_str("https://kdsintf.amd.com/vcek/v1/");
    let name = g.to_string();
    url.append(name.as_str());
    url.append("/crl");
    url
}

/// The address of the revocation list, given the outcome of detecting the
/// host's processor generation. A failed detection is passed on as
/// `CrlError::Detection`; no other failure exists.
pub fn crl_url(detected: Result<ProcessorGeneration, DetectionError>) -> (r: Result<String, CrlError>)
    ensures
        match detected {
            Ok(g) => r matches Ok(url) && url@ == crl_url_of(g),
            Err(_) => r == Err::<String, CrlError>(CrlError::Detection),
        },
{
    match detected {
        Ok(g) => Ok(crl_url_for(g)),
        Err(_) => Err(CrlError::Detection),
    }
}

/// The name of the file, inside the destination directory, that receives the
/// revocation list of generation `g`.
pub fn crl_file_name(g: ProcessorGeneration) -> (r: String)
    ensures
        r@ == crl_file_name_of(g),
{
    let mut name = g.to_string();
    name.append(".crl");
    name
}

} // verus!
