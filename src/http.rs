use vstd::prelude::*;

verus! {

/// The request line that asks for the index page.
pub const INDEX_REQUEST: &'static str = "GET / HTTP/1.1";

/// The request line that asks for the slow page.
pub const SLEEP_REQUEST: &'static str = "GET /sleep HTTP/1.1";

/// The page that the demo server answers a request line with.
#[derive(Debug, Clone, Copy, PartialEq, Eq, Structural)]
pub enum Page {
    /// `GET /`: the index page.
    Index,
    /// `GET /sleep`: the same success, after a delay.
    Sleep,
    /// Anything else.
    NotFound,
}

/// The page for a request line: exact matches only, everything else is not found.
pub open spec fn page_for(line: Seq<char>) -> Page {
    if line == INDEX_REQUEST@ {
        Page::Index
    } else if line == SLEEP_REQUEST@ {
        Page::Sleep
    } else {
        Page::NotFound
    }
}

/// Picks the page that answers `request_line`.
pub fn route(request_line: &str) -> (r: Page)
    ensures
        r == page_for(request_line@),
{
    let line = request_line.to_owned();
    if line == INDEX_REQUEST.to_owned() {
        Page::Index
    } else if line == SLEEP_REQUEST.to_owned() {
        Page::Sleep
    } else {
        Page::NotFound
    }
}

impl Page {
    /// The status line sent with the page.
    pub fn status_line(&self) -> (r: &'static str)
        ensures
            *self is NotFound ==> r@ == "HTTP/1.1 404 NOT FOUND"@,
            !(*self is NotFound) ==> r@ == "HTTP/1.1 200 OK"@,
    {
        match self {
            Page::NotFound => "HTTP/1.1 404 NOT FOUND",
            _ => "HTTP/1.1 200 OK",
        }
    }

    /// The file, relative to the server's directory, that holds the page.
    pub fn file_path(&self) -> (r: &'static str)
        ensures
            *self is Index ==> r@ == "../pages/index.html"@,
            *self is Sleep ==> r@ == "../pages/sleep.html"@,
            *self is NotFound ==> r@ == "../pages/404.html"@,
    {
        match self {
            Page::Index => "../pages/index.html",
            Page::Sleep => "../pages/sleep.html",
            Page::NotFound => "../pages/404.html",
        }
    }

    /// Whether the answer is held back before it is sent.
    pub fn is_delayed(&self) -> (r: bool)
        ensures
            r == (*self is Sleep),
    {
        match self {
            Page::Sleep => true,
            _ => false,
        }
    }
}

} // verus!
