//! Access to Google Artifact Registry: the credential that the `gcloud`
//! tool issues, and the requests that carry it.

pub mod gcp_creds;
pub mod gcp_resource_access;

use crate::gcp::gcp_creds::{retrieve_creds, ArtifactRegistryCreds, GCPTokenError};
use vstd::prelude::*;

verus! {

/// The token cache, filled from what the credential tool printed. See
/// [`retrieve_creds`].
pub fn gcp_creds(exit_code: Option<i32>, output: &[u8]) -> (creds: Result<
    ArtifactRegistryCreds,
    GCPTokenError,
>)
    ensures
        gcp_creds::cache_holds(creds, gcp_creds::provider_credential(exit_code, output@)),
{
    retrieve_creds(exit_code, output)
}

} // verus!
