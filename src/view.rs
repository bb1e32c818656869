use vstd::prelude::*;

verus! {

/// What an action hands to the view it renders.
#[derive(Debug)]
pub struct ViewContext {}

/// Why no view could be chosen for a request.
#[derive(Debug)]
pub enum ViewError {
    UrlNotFound,
}

impl ViewError {
    /// The text shown for the error.
    pub fn description(&self) -> (r: &'static str)
        ensures
            r@ == "Url not found"@,
    {
        match self {
            ViewError::UrlNotFound => "Url not found",
        }
    }
}

} // verus!
