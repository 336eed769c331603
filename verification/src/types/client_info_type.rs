use vstd::prelude::*;
use crate::types::ApiResult;

verus! {

/// What the client-info endpoint answers with.
#[derive(Debug, Clone)]
pub struct GetClientInfoResponse {
    pub client_id: String,
    pub result: ApiResult,
    pub consent_settings: Option<ConsentSettings>,
}

/// The consent block of the client-info answer; none of its fields are read.
#[derive(Debug, Clone)]
pub struct ConsentSettings {}

} // verus!
