//! The Google Street View metadata service: request address and the reading
//! of its answer.

use vstd::prelude::*;
use vstd::string::StringExecFns;

verus! {

/// Status values of the metadata service that the library acts on.
#[derive(Debug, Clone, Copy, PartialEq, Eq, Structural)]
pub enum ApiStatus {
    /// The `OK` status.
    Okay,
    ZeroResults,
}

/// The text the service uses for a status.
pub open spec fn status_text(status: ApiStatus) -> Seq<char> {
    match status {
        ApiStatus::Okay => "OK"@,
        ApiStatus::ZeroResults => "ZERO_RESULTS"@,
    }
}

impl ApiStatus {
    /// The text the service uses for this status.
    pub fn to_string(&self) -> (res: String)
        ensures
            res@ == status_text(*self),
    {
        match self {
            ApiStatus::Okay => String::from_str("OK"),
            ApiStatus::ZeroResults => String::from_str("ZERO_RESULTS"),
        }
    }
}

/// A geographic position; both numbers are `f64` bit patterns
/// (`lat` and `lng` of the service).
#[derive(Debug, Clone, Copy, PartialEq, Eq, Structural)]
pub struct Location {
    pub latitude: u64,
    pub longitude: u64,
}

/// The answer of the metadata service.
#[derive(Debug, Clone, PartialEq)]
pub struct ApiResponse {
    pub status: String,
    pub copyright: Option<String>,
    pub date: Option<String>,
    pub pano_id: Option<String>,
    pub location: Option<Location>,
}

/// Failures of a metadata request.
#[derive(Debug, Clone, PartialEq)]
pub enum ApiError {
    /// The service answered with a status other than `OK` and `ZERO_RESULTS`.
    BadStatus(String),
    /// The request could not be sent; the text of the transport error.
    RequestSend(String),
    /// The answer was not the expected JSON; the text of the error.
    Deserialize(String),
}

/// The address of the metadata request for `pano_id` with the key `key`
/// (both inserted as given).
pub open spec fn metadata_url_text(key: Seq<char>, pano_id: Seq<char>) -> Seq<char> {
    "https://maps.googleapis.com/maps/api/streetview/metadata?pano="@ + pano_id + "&key="@ + key
}

/// Builds the address of the metadata request for a panorama.
pub fn metadata_url(key: &str, pano_id: &str) -> (res: String)
    ensures
        res@ == metadata_url_text(key@, pano_id@),
{
    let mut url = String::from_str("https://maps.googleapis.com/maps/api/streetview/metadata?pano=");
    url.append(pano_id);
    url.append("&key=");
    url.append(key);
    url
}

impl ApiResponse {
    /// The location of the panorama: none when the service found no result,
    /// an error for any status other than `OK`, else the location it sent.
    pub fn into_location(self) -> (res: Result<Option<Location>, ApiError>)
        ensures
            self.status@ == status_text(ApiStatus::ZeroResults) ==> res == Ok::<
                Option<Location>,
                ApiError,
            >(None),
            self.status@ != status_text(ApiStatus::ZeroResults) && self.status@ != status_text(
                ApiStatus::Okay,
            ) ==> res == Err::<Option<Location>, ApiError>(ApiError::BadStatus(self.status)),
            self.status@ == status_text(ApiStatus::Okay) ==> res == Ok::<
                Option<Location>,
                ApiError,
            >(self.location),
    {
        proof {
            reveal_strlit("OK");
            reveal_strlit("ZERO_RESULTS");
            assert("OK"@.len() != "ZERO_RESULTS"@.len());
        }
        let zero = ApiStatus::ZeroResults.to_string();
        if self.status == zero {
            return Ok(None);
        }
        let ok = ApiStatus::Okay.to_string();
        if !(self.status == ok) {
            return Err(ApiError::BadStatus(self.status));
        }
        Ok(self.location)
    }
}

/// The request address holds the whole panorama identifier and the whole key,
/// whatever their lengths: after the fixed prefix come exactly the identifier,
/// then `&key=`, then the key, and nothing else.
pub proof fn lemma_metadata_url_keeps_inputs(key: Seq<char>, pano_id: Seq<char>)
    ensures
        ({
            let url = metadata_url_text(key, pano_id);
            let p: int = "https://maps.googleapis.com/maps/api/streetview/metadata?pano="@.len() as int;
            &&& url.len() == p + pano_id.len() + 5 + key.len()
            &&& url.subrange(0, p) == "https://maps.googleapis.com/maps/api/streetview/metadata?pano="@
            &&& url.subrange(p, p + pano_id.len()) == pano_id
            &&& url.subrange(p + pano_id.len(), p + pano_id.len() + 5) == "&key="@
            &&& url.subrange(p + pano_id.len() + 5, url.len() as int) == key
        }),
{
    reveal_strlit("&key=");
    let prefix = "https://maps.googleapis.com/maps/api/streetview/metadata?pano="@;
    let url = metadata_url_text(key, pano_id);
    let p: int = prefix.len() as int;
    assert(url.subrange(0, p) =~= prefix);
    assert(url.subrange(p, p + pano_id.len()) =~= pano_id);
    assert(url.subrange(p + pano_id.len(), p + pano_id.len() + 5) =~= "&key="@);
    assert(url.subrange(p + pano_id.len() + 5, url.len() as int) =~= key);
}

/// The service's status texts: `OK` for a found panorama, `ZERO_RESULTS` for
/// none; they differ.
pub proof fn lemma_status_texts()
    ensures
        status_text(ApiStatus::Okay) == "OK"@,
        status_text(ApiStatus::ZeroResults) == "ZERO_RESULTS"@,
        status_text(ApiStatus::Okay) != status_text(ApiStatus::ZeroResults),
{
    reveal_strlit("OK");
    reveal_strlit("ZERO_RESULTS");
    assert("OK"@.len() != "ZERO_RESULTS"@.len());
}

} // verus!
