use vstd::prelude::*;

verus! {

/// Body of a successful synchronous generation.
#[derive(Debug)]
pub struct GenerateResponse {
    pub text: String,
}

/// Body of a successful model listing.
#[derive(Debug)]
pub struct ModelsResponse {
    pub models: Vec<String>,
}

} // verus!
