//! The client of the document service: its address and how a page list
//! answer is read. The HTTP exchange is made by the caller.

use vstd::prelude::*;
use crate::text::{concat, replace, replace_spec, trim, trim_spec, views};

verus! {

/// The pages a JSON answer lists, or the parser's message when it is not a
/// list of strings, as `serde_json` reads it.
pub uninterp spec fn parsed_pages(body: Seq<char>) -> Result<Seq<Seq<char>>, Seq<char>>;

/// `serde_json::from_str::<Vec<String>>`.
#[verifier::external_body]
fn parse_string_list(body: &str) -> (r: Result<Vec<String>, String>)
    ensures
        match r {
            Ok(v) => parsed_pages(body@) == Ok::<Seq<Seq<char>>, Seq<char>>(views(v@)),
            Err(e) => parsed_pages(body@) == Err::<Seq<Seq<char>>, Seq<char>>(e@),
        },
{
    serde_json::from_str::<Vec<String>>(body).map_err(|e| e.to_string())
}

/// The document service's client.
#[derive(Debug, Clone)]
pub struct PyClient {
    base_url: String,
}

impl PyClient {
    /// The service's base address.
    pub closed spec fn base(&self) -> Seq<char> {
        self.base_url@
    }

    /// A client for `base_url`, with `localhost` replaced by `127.0.0.1`.
    pub fn new(base_url: &str) -> (c: PyClient)
        ensures
            c.base() == replace_spec(base_url@, "localhost"@, "127.0.0.1"@),
    {
        proof {
            reveal_strlit("localhost");
        }
        PyClient { base_url: replace(base_url, "localhost", "127.0.0.1") }
    }

    /// The base address.
    pub fn base_url(&self) -> (r: &str)
        ensures
            r@ == self.base(),
    {
        self.base_url.as_str()
    }

    /// The address that loads a PDF file.
    pub fn pdf_load_url(&self) -> (r: String)
        ensures
            r@ == self.base() + "/pdf/load"@,
    {
        concat(self.base_url.as_str(), "/pdf/load")
    }
}

/// Reads the service's answer from `url`: an empty (or blank) body is an
/// error, and so is one that is not a JSON list of strings.
pub fn read_pages(url: &str, body: &str) -> (r: Result<Vec<String>, String>)
    ensures
        trim_spec(body@).len() == 0 ==> (r matches Err(e) && e@ == "Empty response body from "@ + url@),
        trim_spec(body@).len() > 0 ==> match parsed_pages(body@) {
            Ok(pages) => r matches Ok(v) && views(v@) == pages,
            Err(m) => r matches Err(e) && e@ == "Failed to parse JSON response from "@ + url@ + ": "@ + m,
        },
{
    let t = trim(body);
    if t.as_str().unicode_len() == 0 {
        return Err(concat("Empty response body from ", url));
    }
    match parse_string_list(body) {
        Ok(v) => Ok(v),
        Err(m) => {
            let mut e = concat("Failed to parse JSON response from ", url);
            e.append(": ");
            e.append(m.as_str());
            Err(e)
        },
    }
}

} // verus!
