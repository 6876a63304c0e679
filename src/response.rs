//! Dispatch of endpoint outcomes into wire responses.

use vstd::prelude::*;

verus! {

/// Name of the header that advertises registry protocol compliance.
pub const API_VERSION_HEADER: &'static str = "Docker-Distribution-API-Version";

/// Value of the protocol header.
pub const API_VERSION: &'static str = "registry/2.0";

/// An HTTP status code.
#[derive(Clone, Copy, Debug, PartialEq, Eq, Structural)]
pub struct Status {
    pub code: u16,
}

/// One header line: a name and a value.
#[derive(Debug)]
pub struct Header {
    pub name: String,
    pub value: String,
}

impl View for Header {
    type V = (Seq<char>, Seq<char>);

    open spec fn view(&self) -> (Seq<char>, Seq<char>) {
        (self.name@, self.value@)
    }
}

/// A response as it goes on the wire: status, header lines in order, and body.
#[derive(Debug)]
pub struct Response {
    pub status: Status,
    pub headers: Vec<Header>,
    pub body: Vec<u8>,
}

/// What a `Response` holds, as mathematical values.
pub struct ResponseView {
    pub status: Status,
    pub headers: Seq<(Seq<char>, Seq<char>)>,
    pub body: Seq<u8>,
}

pub open spec fn headers_view(hs: Seq<Header>) -> Seq<(Seq<char>, Seq<char>)> {
    hs.map_values(|h: Header| h@)
}

impl View for Response {
    type V = ResponseView;

    open spec fn view(&self) -> ResponseView {
        ResponseView { status: self.status, headers: headers_view(self.headers@), body: self.body@ }
    }
}

/// The request an endpoint answers, as the routing layer hands it over.
#[derive(Debug)]
pub struct Request {
    pub method: String,
    pub uri: String,
    pub headers: Vec<Header>,
}

/// Two characters are equal once ASCII letters are taken in lower case.
pub open spec fn same_char_ignoring_ascii_case(a: char, b: char) -> bool {
    let x = a as u32;
    let y = b as u32;
    ||| x == y
    ||| 65 <= x <= 90 && y == x + 32
    ||| 97 <= x <= 122 && x == y + 32
}

/// Header names compare without regard to the case of ASCII letters.
pub open spec fn same_header_name(a: Seq<char>, b: Seq<char>) -> bool {
    &&& a.len() == b.len()
    &&& forall|i: int| 0 <= i < a.len() ==> same_char_ignoring_ascii_case(#[trigger] a[i], b[i])
}

/// Relies on `str::eq_ignore_ascii_case`: the two strings have the same length
/// and agree character by character once ASCII letters are lowered.
#[verifier::external_body]
fn eq_ignore_ascii_case(a: &str, b: &str) -> (r: bool)
    ensures
        r == same_header_name(a@, b@),
{
    a.eq_ignore_ascii_case(b)
}

pub open spec fn is_protocol_header_name(name: Seq<char>) -> bool {
    same_header_name(name, API_VERSION_HEADER@)
}

pub open spec fn protocol_header() -> (Seq<char>, Seq<char>) {
    (API_VERSION_HEADER@, API_VERSION@)
}

pub open spec fn not_protocol_header(h: (Seq<char>, Seq<char>)) -> bool {
    !is_protocol_header_name(h.0)
}

/// The header lines that survive the merge.
pub open spec fn kept_headers(hs: Seq<(Seq<char>, Seq<char>)>) -> Seq<(Seq<char>, Seq<char>)> {
    hs.filter(|h: (Seq<char>, Seq<char>)| not_protocol_header(h))
}

/// The header lines after the merge: every earlier line under the protocol
/// header's name is dropped, and the protocol header is added at the end.
pub open spec fn merge_protocol_header(hs: Seq<(Seq<char>, Seq<char>)>) -> Seq<(Seq<char>, Seq<char>)> {
    kept_headers(hs).push(protocol_header())
}

/// The final result for a base result: a built response keeps its status and
/// body and gets the protocol header; a failure to build one stays a bare status.
pub open spec fn resolved(base: Result<ResponseView, Status>) -> Result<ResponseView, Status> {
    match base {
        Ok(r) => Ok(ResponseView { status: r.status, headers: merge_protocol_header(r.headers), body: r.body }),
        Err(s) => Err(s),
    }
}

pub open spec fn result_view(r: Result<Response, Status>) -> Result<ResponseView, Status> {
    match r {
        Ok(resp) => Ok(resp@),
        Err(s) => Err(s),
    }
}

/// The response advertises the protocol: its last header line is the protocol
/// header, and no other line has that name.
pub open spec fn advertises_protocol(r: ResponseView) -> bool {
    &&& r.headers.len() > 0
    &&& r.headers.last() == protocol_header()
    &&& forall|i: int| 0 <= i < r.headers.len() - 1 ==> not_protocol_header(#[trigger] r.headers[i])
}

/// Finishes a base result: attaches the protocol header to a built response,
/// replacing any line of the same name, and passes a bare status through.
pub fn attach_protocol_header(base: Result<Response, Status>) -> (r: Result<Response, Status>)
    ensures
        result_view(r) == resolved(result_view(base)),
{
    match base {
        Err(s) => Err(s),
        Ok(resp) => {
            let Response { status, headers, body } = resp;
            let mut kept: Vec<Header> = Vec::new();
            let mut i: usize = 0;
            while i < headers.len()
                invariant
                    i <= headers.len(),
                    headers_view(kept@) == kept_headers(headers_view(headers@).subrange(0, i as int)),
                decreases headers.len() - i,
            {
                let ghost before = headers_view(kept@);
                let h = &headers[i];
                if !eq_ignore_ascii_case(h.name.as_str(), API_VERSION_HEADER) {
                    kept.push(Header { name: h.name.clone(), value: h.value.clone() });
                    assert(headers_view(kept@) =~= before.push(h@));
                }
                proof {
                    let hv = headers_view(headers@);
                    assert(hv[i as int] == h@);
                    assert(hv.subrange(0, i + 1) =~= hv.subrange(0, i as int).push(hv[i as int]));
                    hv.subrange(0, i as int).lemma_filter_push(hv[i as int], |h: (Seq<char>, Seq<char>)| not_protocol_header(h));
                }
                i += 1;
            }
            let ghost before = headers_view(kept@);
            kept.push(Header { name: String::from_str(API_VERSION_HEADER), value: String::from_str(API_VERSION) });
            proof {
                assert(headers_view(kept@) =~= before.push(protocol_header()));
                assert(headers_view(headers@).subrange(0, headers@.len() as int) =~= headers_view(headers@));
            }
            Ok(Response { status, headers: kept, body })
        }
    }
}

/// What an endpoint's result type provides so that it can be dispatched: one
/// method builds the response for the success path, the other for the failure
/// path. Either may fail to build a response, and then gives a bare status.
/// Each method is described by a spec function that the implementing type
/// defines: what it gives for a request.
pub trait RegistryTrait: Sized {
    /// What `ok` gives for `req`.
    spec fn ok_result(&self, req: &Request) -> Result<ResponseView, Status>;

    /// What `err` gives for `req`.
    spec fn err_result(&self, req: &Request) -> Result<ResponseView, Status>;

    fn ok(self, req: &Request) -> (r: Result<Response, Status>)
        ensures
            result_view(r) == self.ok_result(req),
    ;

    fn err(self, req: &Request) -> (r: Result<Response, Status>)
        ensures
            result_view(r) == self.err_result(req),
    ;
}

/// An endpoint result whose responses were built ahead of the request: `ok`
/// hands out the success response and `err` the failure response.
#[derive(Debug)]
pub struct Prepared {
    pub success: Result<Response, Status>,
    pub failure: Result<Response, Status>,
}

impl RegistryTrait for Prepared {
    open spec fn ok_result(&self, req: &Request) -> Result<ResponseView, Status> {
        result_view(self.success)
    }

    open spec fn err_result(&self, req: &Request) -> Result<ResponseView, Status> {
        result_view(self.failure)
    }

    fn ok(self, req: &Request) -> (r: Result<Response, Status>) {
        self.success
    }

    fn err(self, req: &Request) -> (r: Result<Response, Status>) {
        self.failure
    }
}

/// The outcome of an endpoint: a success or a failure value, both of a type
/// that implements `RegistryTrait`.
#[derive(Debug)]
pub struct RegistryResponse<R: RegistryTrait>(pub Result<R, R>);

/// The name endpoints use for their return type.
pub type MaybeResponse<A> = RegistryResponse<A>;

impl<A: RegistryTrait> MaybeResponse<A> {
    /// An outcome on the success path.
    pub fn ok(val: A) -> (r: Self)
        ensures
            r.0 == Ok::<A, A>(val),
    {
        RegistryResponse(Ok(val))
    }

    /// An outcome on the failure path.
    pub fn err(val: A) -> (r: Self)
        ensures
            r.0 == Err::<A, A>(val),
    {
        RegistryResponse(Err(val))
    }
}

impl<R: RegistryTrait> RegistryResponse<R> {
    /// What the endpoint's own method gives for `req`: the success value's
    /// `ok`, or the failure value's `err`.
    pub open spec fn built(&self, req: &Request) -> Result<ResponseView, Status> {
        match self.0 {
            Ok(v) => v.ok_result(req),
            Err(e) => e.err_result(req),
        }
    }

    /// Builds the wire response: the success value goes to its `ok`, the
    /// failure value to its `err`, each with `req`, and what that method gives
    /// is resolved. A built response keeps its status, body and other headers
    /// and gets the protocol header in place of any earlier one; a bare status
    /// from the method comes back unchanged.
    pub fn respond_to(self, req: &Request) -> (r: Result<Response, Status>)
        ensures
            result_view(r) == resolved(self.built(req)),
            r is Ok <==> self.built(req) is Ok,
            r matches Ok(resp) ==> advertises_protocol(resp@),
    {
        let ghost built = self.built(req);
        let base = match self.0 {
            Ok(v) => v.ok(req),
            Err(e) => e.err(req),
        };
        let r = attach_protocol_header(base);
        proof {
            lemma_built_response_advertises_protocol(built);
        }
        r
    }
}

/// Every response built on either path advertises the protocol once it is
/// resolved: the protocol header ends its header lines and no other line
/// bears that name. The resolution reads only the built response, so the same
/// response comes out alike whether the success or the failure path built it.
pub proof fn lemma_built_response_advertises_protocol(base: Result<ResponseView, Status>)
    ensures
        resolved(base) matches Ok(r) ==> advertises_protocol(r),
        base is Ok <==> resolved(base) is Ok,
{
    if let Ok(b) = base {
        let kept = kept_headers(b.headers);
        broadcast use vstd::seq_lib::group_filter_ensures;
        let hs = kept.push(protocol_header());
        assert forall|i: int| 0 <= i < hs.len() - 1 implies not_protocol_header(#[trigger] hs[i]) by {
            assert(hs[i] == kept[i]);
        }
    }
}

/// A path that fails to build a response resolves to its bare status: no
/// header is attached, and the failure stays apart from every built response.
pub proof fn lemma_dispatch_failure_stays_bare(s: Status)
    ensures
        resolved(Err(s)) == Err::<ResponseView, Status>(s),
{
}

} // verus!
