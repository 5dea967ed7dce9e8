use vstd::prelude::*;
use crate::model::{
    copy_headers, groups_view, headers_view, requests_view, ApiRequest, GroupView, RequestGroup,
    RequestView,
};

verus! {

/// A request as it is written to the saved file.
pub struct SavedRequest {
    pub name: String,
    pub url: String,
    pub method: String,
    pub headers: Vec<(String, String)>,
    pub body: String,
}

impl View for SavedRequest {
    type V = RequestView;

    open spec fn view(&self) -> RequestView {
        RequestView {
            name: self.name@,
            url: self.url@,
            method: self.method@,
            headers: headers_view(self.headers@),
            body: self.body@,
        }
    }
}

/// A group as it is written to the saved file.
pub struct SavedGroup {
    pub name: String,
    pub requests: Vec<SavedRequest>,
}

pub open spec fn saved_requests_view(rs: Seq<SavedRequest>) -> Seq<RequestView> {
    rs.map_values(|r: SavedRequest| r@)
}

impl View for SavedGroup {
    type V = GroupView;

    open spec fn view(&self) -> GroupView {
        GroupView { name: self.name@, requests: saved_requests_view(self.requests@) }
    }
}

pub open spec fn saved_groups_view(gs: Seq<SavedGroup>) -> Seq<GroupView> {
    gs.map_values(|g: SavedGroup| g@)
}

/// Every group is collapsed and no request holds a response: the state of freshly
/// loaded groups.
pub open spec fn transient_reset(gs: Seq<RequestGroup>) -> bool {
    forall|i: int|
        0 <= i < gs.len() ==> {
            &&& !(#[trigger] gs[i]).is_expanded
            &&& forall|j: int| 0 <= j < gs[i].requests@.len() ==> (#[trigger] gs[i].requests@[j]).response is None
        }
}

fn save_request(r: &ApiRequest) -> (s: SavedRequest)
    ensures
        s@ == r@,
{
    SavedRequest {
        name: r.name.clone(),
        url: r.url.clone(),
        method: r.method.clone(),
        headers: copy_headers(&r.headers),
        body: r.body.clone(),
    }
}

fn save_group(g: &RequestGroup) -> (s: SavedGroup)
    ensures
        s@ == g@,
{
    let mut requests: Vec<SavedRequest> = Vec::new();
    let mut i: usize = 0;
    while i < g.requests.len()
        invariant
            i <= g.requests@.len(),
            requests@.len() == i,
            forall|j: int| 0 <= j < i ==> (#[trigger] requests@[j])@ == g.requests@[j]@,
        decreases g.requests@.len() - i,
    {
        requests.push(save_request(&g.requests[i]));
        i = i + 1;
    }
    proof {
        assert(saved_requests_view(requests@) =~= requests_view(g.requests@));
    }
    SavedGroup { name: g.name.clone(), requests }
}

/// The persisted form of a list of groups: names, requests and their contents, in order,
/// without expansion flags or responses.
pub fn save_form(groups: &Vec<RequestGroup>) -> (r: Vec<SavedGroup>)
    ensures
        saved_groups_view(r@) == groups_view(groups@),
{
    let mut r: Vec<SavedGroup> = Vec::new();
    let mut i: usize = 0;
    while i < groups.len()
        invariant
            i <= groups@.len(),
            r@.len() == i,
            forall|j: int| 0 <= j < i ==> (#[trigger] r@[j])@ == groups@[j]@,
        decreases groups@.len() - i,
    {
        r.push(save_group(&groups[i]));
        i = i + 1;
    }
    proof {
        assert(saved_groups_view(r@) =~= groups_view(groups@));
    }
    r
}

fn restore_request(s: &SavedRequest) -> (r: ApiRequest)
    ensures
        r@ == s@,
        r.response is None,
{
    ApiRequest {
        name: s.name.clone(),
        url: s.url.clone(),
        method: s.method.clone(),
        headers: copy_headers(&s.headers),
        body: s.body.clone(),
        response: None,
    }
}

fn restore_group(s: &SavedGroup) -> (g: RequestGroup)
    ensures
        g@ == s@,
        !g.is_expanded,
        forall|j: int| 0 <= j < g.requests@.len() ==> (#[trigger] g.requests@[j]).response is None,
{
    let mut requests: Vec<ApiRequest> = Vec::new();
    let mut i: usize = 0;
    while i < s.requests.len()
        invariant
            i <= s.requests@.len(),
            requests@.len() == i,
            forall|j: int| 0 <= j < i ==> (#[trigger] requests@[j])@ == s.requests@[j]@,
            forall|j: int| 0 <= j < requests@.len() ==> (#[trigger] requests@[j]).response is None,
        decreases s.requests@.len() - i,
    {
        requests.push(restore_request(&s.requests[i]));
        i = i + 1;
    }
    proof {
        assert(requests_view(requests@) =~= saved_requests_view(s.requests@));
    }
    RequestGroup { name: s.name.clone(), requests, is_expanded: false }
}

/// Rebuilds groups from their persisted form: collapsed, and with no responses.
pub fn restore_groups(saved: &Vec<SavedGroup>) -> (r: Vec<RequestGroup>)
    ensures
        groups_view(r@) == saved_groups_view(saved@),
        transient_reset(r@),
{
    let mut r: Vec<RequestGroup> = Vec::new();
    let mut i: usize = 0;
    while i < saved.len()
        invariant
            i <= saved@.len(),
            r@.len() == i,
            forall|j: int| 0 <= j < i ==> (#[trigger] r@[j])@ == saved@[j]@,
            transient_reset(r@),
        decreases saved@.len() - i,
    {
        r.push(restore_group(&saved[i]));
        i = i + 1;
    }
    proof {
        assert(groups_view(r@) =~= saved_groups_view(saved@));
    }
    r
}

/// The groups to start with, given what could be read from the saved file: `None` where
/// the file is missing or does not parse, which gives an empty list.
pub fn load_groups(saved: Option<Vec<SavedGroup>>) -> (r: Vec<RequestGroup>)
    ensures
        saved is None ==> r@.len() == 0,
        saved matches Some(s) ==> groups_view(r@) == saved_groups_view(s@),
        transient_reset(r@),
{
    match saved {
        Some(s) => restore_groups(&s),
        None => Vec::new(),
    }
}

/// Saving groups and loading what was saved gives back the same groups, names, requests,
/// methods, URLs, headers and bodies alike, with only the transient state reset.
pub proof fn lemma_save_load_round_trip(
    groups: Seq<RequestGroup>,
    saved: Seq<SavedGroup>,
    loaded: Seq<RequestGroup>,
)
    requires
        saved_groups_view(saved) == groups_view(groups),
        groups_view(loaded) == saved_groups_view(saved),
    ensures
        loaded.len() == groups.len(),
        forall|i: int| 0 <= i < groups.len() ==> (#[trigger] loaded[i])@ == groups[i]@,
{
    assert(groups_view(loaded).len() == loaded.len());
    assert(groups_view(groups).len() == groups.len());
    assert forall|i: int| 0 <= i < groups.len() implies (#[trigger] loaded[i])@ == groups[i]@ by {
        assert(groups_view(loaded)[i] == loaded[i]@);
        assert(groups_view(groups)[i] == groups[i]@);
        assert(groups_view(loaded)[i] == groups_view(groups)[i]);
    }
}

} // verus!
