use vstd::prelude::*;
use crate::view::ViewContext;

verus! {

/// An incoming request, as the dispatch code sees it.
pub struct Request {
    url: String,
}

impl Request {
    pub fn new(url: String) -> (r: Request)
        ensures
            r.url() == url@,
    {
        Request { url: url }
    }

    pub closed spec fn url(&self) -> Seq<char> {
        self.url@
    }

    pub fn get_view_context(&self) -> ViewContext {
        ViewContext {  }
    }

    /// Whether the request is for exactly this path.
    pub fn url_match(&self, url: &str) -> (r: bool)
        ensures
            r == (url@ == self.url()),
    {
        crate::text::same_text(url, self.url.as_str())
    }
}

} // verus!
