use vstd::prelude::*;

verus! {

/// A header as the model sees it: key and value as character sequences.
pub type HeaderView = (Seq<char>, Seq<char>);

/// The view of an ordered list of header pairs.
pub open spec fn headers_view(h: Seq<(String, String)>) -> Seq<HeaderView> {
    h.map_values(|p: (String, String)| (p.0@, p.1@))
}

/// The outcome of one executed request. It is never persisted.
pub struct ApiResponse {
    pub status: u16,
    pub headers: Vec<(String, String)>,
    pub body: String,
    /// Duration of the attempt, in milliseconds.
    pub time_taken_ms: u64,
}

/// The persisted content of a request: everything but its last response.
pub struct RequestView {
    pub name: Seq<char>,
    pub url: Seq<char>,
    pub method: Seq<char>,
    pub headers: Seq<HeaderView>,
    pub body: Seq<char>,
}

/// The request that an editor starts from: every field empty.
pub open spec fn blank_request() -> RequestView {
    RequestView { name: seq![], url: seq![], method: seq![], headers: seq![], body: seq![] }
}

/// A named, saved description of one HTTP call.
pub struct ApiRequest {
    pub name: String,
    pub url: String,
    pub method: String,
    pub headers: Vec<(String, String)>,
    pub body: String,
    /// The last response received for this request, if any.
    pub response: Option<ApiResponse>,
}

impl View for ApiRequest {
    type V = RequestView;

    open spec fn view(&self) -> RequestView {
        RequestView {
            name: self.name@,
            url: self.url@,
            method: self.method@,
            headers: headers_view(self.headers@),
            body: self.body@,
        }
    }
}

/// The persisted content of a group: its name and its requests, in order.
pub struct GroupView {
    pub name: Seq<char>,
    pub requests: Seq<RequestView>,
}

pub open spec fn requests_view(rs: Seq<ApiRequest>) -> Seq<RequestView> {
    rs.map_values(|r: ApiRequest| r@)
}

/// A named, ordered collection of saved requests.
pub struct RequestGroup {
    pub name: String,
    pub requests: Vec<ApiRequest>,
    /// Whether the group is shown expanded; not persisted.
    pub is_expanded: bool,
}

impl View for RequestGroup {
    type V = GroupView;

    open spec fn view(&self) -> GroupView {
        GroupView { name: self.name@, requests: requests_view(self.requests@) }
    }
}

pub open spec fn groups_view(gs: Seq<RequestGroup>) -> Seq<GroupView> {
    gs.map_values(|g: RequestGroup| g@)
}

/// Copies a list of header pairs.
pub fn copy_headers(h: &Vec<(String, String)>) -> (r: Vec<(String, String)>)
    ensures
        r@ == h@,
{
    let mut r: Vec<(String, String)> = Vec::new();
    let mut i: usize = 0;
    while i < h.len()
        invariant
            i <= h@.len(),
            r@ == h@.subrange(0, i as int),
        decreases h@.len() - i,
    {
        let k = h[i].0.clone();
        let v = h[i].1.clone();
        r.push((k, v));
        proof {
            assert(r@ =~= h@.subrange(0, i + 1));
        }
        i = i + 1;
    }
    proof {
        assert(r@ =~= h@);
    }
    r
}

/// Two optional responses agree: both absent, or both present with equal status,
/// headers, body and time.
pub open spec fn same_response(a: Option<ApiResponse>, b: Option<ApiResponse>) -> bool {
    match (a, b) {
        (None, None) => true,
        (Some(x), Some(y)) => x.status == y.status && x.headers@ == y.headers@ && x.body@
            == y.body@ && x.time_taken_ms == y.time_taken_ms,
        _ => false,
    }
}

impl ApiResponse {
    /// Copies this response.
    pub fn copy(&self) -> (r: ApiResponse)
        ensures
            r.status == self.status,
            r.headers@ == self.headers@,
            r.body@ == self.body@,
            r.time_taken_ms == self.time_taken_ms,
    {
        ApiResponse {
            status: self.status,
            headers: copy_headers(&self.headers),
            body: self.body.clone(),
            time_taken_ms: self.time_taken_ms,
        }
    }
}

impl ApiRequest {
    /// An unnamed request with no URL, method, headers, body or response.
    pub fn new() -> (r: ApiRequest)
        ensures
            r@ == blank_request(),
            r.response is None,
    {
        let r = ApiRequest {
            name: String::new(),
            url: String::new(),
            method: String::new(),
            headers: Vec::new(),
            body: String::new(),
            response: None,
        };
        proof {
            assert(headers_view(r.headers@) =~= seq![]);
        }
        r
    }

    /// Copies this request, response included.
    pub fn copy(&self) -> (r: ApiRequest)
        ensures
            r@ == self@,
            same_response(r.response, self.response),
    {
        let response = match &self.response {
            Some(resp) => Some(resp.copy()),
            None => None,
        };
        ApiRequest {
            name: self.name.clone(),
            url: self.url.clone(),
            method: self.method.clone(),
            headers: copy_headers(&self.headers),
            body: self.body.clone(),
            response,
        }
    }
}

} // verus!
