//! The HTTP-shaped response that a command produces and that is replayed.

use vstd::prelude::*;
use vstd::string::StrSliceExecFns;

verus! {

/// One header line: a name and the raw bytes of its value.
#[derive(Debug)]
pub struct HeaderPair {
    pub name: String,
    pub value: Vec<u8>,
}

impl DeepView for HeaderPair {
    type V = (Seq<char>, Seq<u8>);

    open spec fn deep_view(&self) -> (Seq<char>, Seq<u8>) {
        (self.name@, self.value@)
    }
}

impl Clone for HeaderPair {
    fn clone(&self) -> (copy: Self)
        ensures
            copy.deep_view() == self.deep_view(),
    {
        HeaderPair { name: self.name.clone(), value: self.value.clone() }
    }
}

/// Copies a header list, keeping names, values and order.
pub fn clone_headers(headers: &Vec<HeaderPair>) -> (copy: Vec<HeaderPair>)
    ensures
        copy.deep_view() == headers.deep_view(),
{
    let mut copy: Vec<HeaderPair> = Vec::new();
    let mut i: usize = 0;
    while i < headers.len()
        invariant
            i <= headers.len(),
            copy.len() == i,
            forall|j: int| 0 <= j < i ==> copy[j].deep_view() == headers[j].deep_view(),
        decreases headers.len() - i,
    {
        copy.push(headers[i].clone());
        i += 1;
    }
    assert(copy.deep_view() =~= headers.deep_view());
    copy
}

/// The status codes a response can carry.
pub open spec fn is_status_code(code: int) -> bool {
    100 <= code <= 999
}

/// The status of a request that was served.
pub const OK: u16 = 200;

/// The status of a redirect to another page.
pub const SEE_OTHER: u16 = 303;

/// The status that tells a caller of a malformed request.
pub const BAD_REQUEST: u16 = 400;

/// The status that tells a caller that it is not known.
pub const UNAUTHORIZED: u16 = 401;

/// The status that tells a caller of a failure that is not theirs.
pub const INTERNAL_SERVER_ERROR: u16 = 500;

/// What a response is: a status, the header lines in order, and a body.
pub struct ResponseView {
    pub status: u16,
    pub headers: Seq<(Seq<char>, Seq<u8>)>,
    pub body: Seq<u8>,
}

/// The redirect to `location`: status 303, one `location` header, no body.
pub open spec fn see_other_view(location: Seq<char>) -> ResponseView {
    ResponseView {
        status: SEE_OTHER,
        headers: seq![("location"@, vstd::utf8::encode_utf8(location))],
        body: Seq::empty(),
    }
}

/// An HTTP-shaped response. Header names may repeat and their order is
/// kept.
#[derive(Debug)]
pub struct Response {
    status: u16,
    headers: Vec<HeaderPair>,
    body: Vec<u8>,
}

impl View for Response {
    type V = ResponseView;

    closed spec fn view(&self) -> ResponseView {
        ResponseView {
            status: self.status,
            headers: self.headers.deep_view(),
            body: self.body@,
        }
    }
}

impl Clone for Response {
    fn clone(&self) -> (copy: Self)
        ensures
            copy@ == self@,
    {
        proof {
            use_type_invariant(self);
        }
        Response {
            status: self.status,
            headers: clone_headers(&self.headers),
            body: self.body.clone(),
        }
    }
}

impl Response {
    #[verifier::type_invariant]
    spec fn well_formed(&self) -> bool {
        is_status_code(self.status as int)
    }

    /// A response with the given parts, if `status` is a status code.
    pub fn new(status: u16, headers: Vec<HeaderPair>, body: Vec<u8>) -> (r: Option<Response>)
        ensures
            match r {
                Some(response) => is_status_code(status as int) && response@ == (ResponseView {
                    status,
                    headers: headers.deep_view(),
                    body: body@,
                }),
                None => !is_status_code(status as int),
            },
    {
        if 100 <= status && status <= 999 {
            Some(Response { status, headers, body })
        } else {
            None
        }
    }

    /// The redirect to `location`.
    pub fn see_other(location: &str) -> (r: Response)
        ensures
            r@ == see_other_view(location@),
    {
        let mut headers: Vec<HeaderPair> = Vec::new();
        headers.push(HeaderPair { name: "location".to_owned(), value: location.as_bytes_vec() });
        let r = Response { status: SEE_OTHER, headers, body: Vec::new() };
        assert(r@.headers =~= see_other_view(location@).headers);
        r
    }

    pub fn status(&self) -> (code: u16)
        ensures
            code == self@.status,
            is_status_code(code as int),
    {
        proof {
            use_type_invariant(self);
        }
        self.status
    }

    pub fn headers(&self) -> (headers: &Vec<HeaderPair>)
        ensures
            headers.deep_view() == self@.headers,
    {
        &self.headers
    }

    pub fn body(&self) -> (body: &Vec<u8>)
        ensures
            body@ == self@.body,
    {
        &self.body
    }
}

} // verus!
