use vstd::prelude::*;

verus! {

/// The body of a create request.
#[derive(Debug)]
pub struct CreateItemDto {
    pub name: String,
    pub description: Option<String>,
}

/// The body of a partial update: a field that is `None` is left as it is.
#[derive(Debug)]
pub struct UpdateItemDto {
    pub name: Option<String>,
    pub description: Option<String>,
}

} // verus!
