use vstd::prelude::*;
use crate::executor::{method_of, prepare_request, prepared_for, supported_methods, PreparedRequest};
use crate::model::headers_view;
use crate::model::{blank_request, same_response, ApiRequest, ApiResponse, RequestGroup, RequestView, GroupView, groups_view, requests_view};

verus! {

/// The "New API Request" dialog.
pub struct NewRequestDialog {
    pub show: bool,
    pub name: String,
    /// The group that a new request goes to, and that saves of the edited request look in.
    pub group_index: Option<usize>,
}

/// The "New Group" dialog.
pub struct NewGroupDialog {
    pub show: bool,
    pub name: String,
}

/// The state of the client: the saved groups, the request being edited, whether a
/// request is in flight, and the two creation dialogs.
pub struct ApiTester {
    pub groups: Vec<RequestGroup>,
    pub current_request: ApiRequest,
    pub methods: Vec<String>,
    pub is_loading: bool,
    pub new_request_dialog: NewRequestDialog,
    pub new_group_dialog: NewGroupDialog,
}

/// `v` is `old` with request `j` of group `g` replaced by `r`.
pub open spec fn replaced_request(old: Seq<GroupView>, g: int, j: int, r: RequestView) -> Seq<GroupView> {
    old.update(g, GroupView { name: old[g].name, requests: old[g].requests.update(j, r) })
}

/// `j` is the first request of `rs` named `name`.
pub open spec fn first_named(rs: Seq<RequestView>, name: Seq<char>, j: int) -> bool {
    &&& 0 <= j < rs.len()
    &&& rs[j].name == name
    &&& forall|k: int| 0 <= k < j ==> (#[trigger] rs[k]).name != name
}

/// `new` is `old` with request `j` of group `g` replaced by a copy of `cur`, response
/// included; every other group and request is left as it was.
pub open spec fn stored_at(
    old: Seq<RequestGroup>,
    new: Seq<RequestGroup>,
    g: int,
    j: int,
    cur: ApiRequest,
) -> bool {
    &&& new.len() == old.len()
    &&& forall|k: int| 0 <= k < new.len() && k != g ==> #[trigger] new[k] == old[k]
    &&& new[g].name == old[g].name
    &&& new[g].is_expanded == old[g].is_expanded
    &&& new[g].requests@.len() == old[g].requests@.len()
    &&& forall|m: int|
        0 <= m < new[g].requests@.len() && m != j ==> #[trigger] new[g].requests@[m]
            == old[g].requests@[m]
    &&& new[g].requests@[j]@ == cur@
    &&& same_response(new[g].requests@[j].response, cur.response)
}

/// `new` is `old` with a copy of `cur`, response included, named `name`, appended to
/// group `g`; every other group and request is left as it was.
pub open spec fn appended_to(
    old: Seq<RequestGroup>,
    new: Seq<RequestGroup>,
    g: int,
    cur: ApiRequest,
    name: Seq<char>,
) -> bool {
    &&& new.len() == old.len()
    &&& forall|k: int| 0 <= k < new.len() && k != g ==> #[trigger] new[k] == old[k]
    &&& new[g].name == old[g].name
    &&& new[g].is_expanded == old[g].is_expanded
    &&& new[g].requests@.len() == old[g].requests@.len() + 1
    &&& forall|m: int| 0 <= m < old[g].requests@.len() ==> #[trigger] new[g].requests@[m]
        == old[g].requests@[m]
    &&& new[g].requests@.last()@ == renamed(cur@, name)
    &&& same_response(new[g].requests@.last().response, cur.response)
}

/// The request being edited, with the name of the new-request dialog.
pub open spec fn renamed(r: RequestView, name: Seq<char>) -> RequestView {
    RequestView { name, ..r }
}

impl ApiTester {
    /// The group selected for new requests and saves.
    pub open spec fn target(&self) -> int {
        self.new_request_dialog.group_index->0 as int
    }

    /// A group is selected and exists.
    pub open spec fn has_target(&self) -> bool {
        self.new_request_dialog.group_index is Some && 0 <= self.target() < self.groups@.len()
    }

    /// A client over the given groups, editing an empty request, with nothing in flight
    /// and both dialogs hidden.
    pub fn new(groups: Vec<RequestGroup>) -> (r: ApiTester)
        ensures
            r.groups == groups,
            r.current_request@ == blank_request(),
            r.current_request.response is None,
            r.methods@.len() == 5,
            forall|i: int| 0 <= i < 5 ==> method_of(#[trigger] r.methods@[i]@) is Some,
            r.methods@[0]@ == "GET"@,
            r.methods@[1]@ == "POST"@,
            r.methods@[2]@ == "PUT"@,
            r.methods@[3]@ == "DELETE"@,
            r.methods@[4]@ == "PATCH"@,
            !r.is_loading,
            !r.new_request_dialog.show,
            r.new_request_dialog.name@.len() == 0,
            r.new_request_dialog.group_index is None,
            !r.new_group_dialog.show,
            r.new_group_dialog.name@.len() == 0,
    {
        ApiTester {
            groups,
            current_request: ApiRequest::new(),
            methods: supported_methods(),
            is_loading: false,
            new_request_dialog: NewRequestDialog {
                show: false,
                name: String::new(),
                group_index: None,
            },
            new_group_dialog: NewGroupDialog { show: false, name: String::new() },
        }
    }

    /// Shows the "New Group" dialog.
    pub fn open_new_group_dialog(&mut self)
        ensures
            final(self).new_group_dialog.show,
            final(self).new_group_dialog.name == old(self).new_group_dialog.name,
            final(self).groups == old(self).groups,
            final(self).current_request == old(self).current_request,
            final(self).is_loading == old(self).is_loading,
            final(self).new_request_dialog == old(self).new_request_dialog,
    {
        self.new_group_dialog.show = true;
    }

    /// "Create" in the "New Group" dialog: with a non-empty name, appends an empty,
    /// expanded group of that name, clears and hides the dialog, and answers that the
    /// groups must be saved. With an empty name nothing changes.
    pub fn create_group(&mut self) -> (save: bool)
        ensures
            save == (old(self).new_group_dialog.name@.len() > 0),
            save ==> {
                &&& groups_view(final(self).groups@) == groups_view(old(self).groups@).push(
                    GroupView { name: old(self).new_group_dialog.name@, requests: seq![] },
                )
                &&& final(self).groups@.drop_last() == old(self).groups@
                &&& final(self).groups@.last().is_expanded
                &&& !final(self).new_group_dialog.show
                &&& final(self).new_group_dialog.name@.len() == 0
            },
            !save ==> final(self).groups == old(self).groups && final(self).new_group_dialog
                == old(self).new_group_dialog,
            final(self).current_request == old(self).current_request,
            final(self).is_loading == old(self).is_loading,
            final(self).new_request_dialog == old(self).new_request_dialog,
    {
        if self.new_group_dialog.name.as_str().is_empty() {
            return false;
        }
        let group = RequestGroup {
            name: self.new_group_dialog.name.clone(),
            requests: Vec::new(),
            is_expanded: true,
        };
        self.groups.push(group);
        self.new_group_dialog.name = String::new();
        self.new_group_dialog.show = false;
        proof {
            assert(requests_view(Seq::<ApiRequest>::empty()) =~= seq![]);
            assert(groups_view(self.groups@) =~= groups_view(old(self).groups@).push(
                GroupView { name: old(self).new_group_dialog.name@, requests: seq![] },
            ));
            assert(self.groups@.drop_last() =~= old(self).groups@);
        }
        true
    }

    /// "Cancel" in the "New Group" dialog: clears and hides it.
    pub fn cancel_new_group(&mut self)
        ensures
            !final(self).new_group_dialog.show,
            final(self).new_group_dialog.name@.len() == 0,
            final(self).groups == old(self).groups,
            final(self).current_request == old(self).current_request,
            final(self).is_loading == old(self).is_loading,
            final(self).new_request_dialog == old(self).new_request_dialog,
    {
        self.new_group_dialog.name = String::new();
        self.new_group_dialog.show = false;
    }

    /// Expands a collapsed group or collapses an expanded one; other indices change nothing.
    pub fn toggle_group(&mut self, g: usize)
        ensures
            g < old(self).groups@.len() ==> final(self).groups@ == old(self).groups@.update(
                g as int,
                RequestGroup { is_expanded: !old(self).groups@[g as int].is_expanded, ..old(self).groups@[g as int] },
            ),
            g >= old(self).groups@.len() ==> final(self).groups == old(self).groups,
            final(self).current_request == old(self).current_request,
            final(self).is_loading == old(self).is_loading,
            final(self).new_request_dialog == old(self).new_request_dialog,
            final(self).new_group_dialog == old(self).new_group_dialog,
    {
        if g < self.groups.len() {
            let expanded = self.groups[g].is_expanded;
            self.groups[g].is_expanded = !expanded;
        }
    }

    /// "+Add API" on group `g`: shows the "New API Request" dialog for that group and
    /// starts the editor from an empty request.
    pub fn begin_add_request(&mut self, g: usize)
        ensures
            final(self).new_request_dialog.show,
            final(self).new_request_dialog.group_index == Some(g),
            final(self).new_request_dialog.name == old(self).new_request_dialog.name,
            final(self).current_request@ == blank_request(),
            final(self).current_request.response is None,
            final(self).groups == old(self).groups,
            final(self).is_loading == old(self).is_loading,
            final(self).new_group_dialog == old(self).new_group_dialog,
    {
        self.new_request_dialog.show = true;
        self.new_request_dialog.group_index = Some(g);
        self.current_request = ApiRequest::new();
    }

    /// Selects request `j` of group `g`: a copy of it becomes the request being edited,
    /// and `g` the group that saves go to. Indices outside the groups change nothing.
    pub fn select_request(&mut self, g: usize, j: usize)
        ensures
            g < old(self).groups@.len() && j < old(self).groups@[g as int].requests@.len() ==> {
                &&& final(self).current_request@ == old(self).groups@[g as int].requests@[j as int]@
                &&& same_response(final(self).current_request.response, old(self).groups@[g as int].requests@[j as int].response)
                &&& final(self).new_request_dialog.group_index == Some(g)
            },
            !(g < old(self).groups@.len() && j < old(self).groups@[g as int].requests@.len()) ==> {
                &&& final(self).current_request == old(self).current_request
                &&& final(self).new_request_dialog.group_index == old(self).new_request_dialog.group_index
            },
            final(self).new_request_dialog.show == old(self).new_request_dialog.show,
            final(self).new_request_dialog.name == old(self).new_request_dialog.name,
            final(self).groups == old(self).groups,
            final(self).is_loading == old(self).is_loading,
            final(self).new_group_dialog == old(self).new_group_dialog,
    {
        if g < self.groups.len() && j < self.groups[g].requests.len() {
            self.current_request = self.groups[g].requests[j].copy();
            self.new_request_dialog.group_index = Some(g);
        }
    }

    /// Deletes request `j` of group `g` and answers that the groups must be saved;
    /// indices outside the groups change nothing.
    pub fn delete_request(&mut self, g: usize, j: usize) -> (save: bool)
        ensures
            save == (g < old(self).groups@.len() && j < old(self).groups@[g as int].requests@.len()),
            save ==> final(self).groups@ == old(self).groups@.update(
                g as int,
                RequestGroup {
                    requests: final(self).groups@[g as int].requests,
                    ..old(self).groups@[g as int]
                },
            ),
            save ==> final(self).groups@[g as int].requests@ == old(self).groups@[g as int].requests@.remove(j as int),
            !save ==> final(self).groups == old(self).groups,
            final(self).current_request == old(self).current_request,
            final(self).is_loading == old(self).is_loading,
            final(self).new_request_dialog == old(self).new_request_dialog,
            final(self).new_group_dialog == old(self).new_group_dialog,
    {
        if g < self.groups.len() && j < self.groups[g].requests.len() {
            self.groups[g].requests.remove(j);
            true
        } else {
            false
        }
    }

    /// Deletes group `g` and answers that the groups must be saved; an index outside the
    /// groups changes nothing.
    pub fn delete_group(&mut self, g: usize) -> (save: bool)
        ensures
            save == (g < old(self).groups@.len()),
            save ==> final(self).groups@ == old(self).groups@.remove(g as int),
            !save ==> final(self).groups == old(self).groups,
            final(self).current_request == old(self).current_request,
            final(self).is_loading == old(self).is_loading,
            final(self).new_request_dialog == old(self).new_request_dialog,
            final(self).new_group_dialog == old(self).new_group_dialog,
    {
        if g < self.groups.len() {
            self.groups.remove(g);
            true
        } else {
            false
        }
    }

    /// Saves the request being edited over the first request of the selected group that
    /// has its name, and answers whether it did, and so whether the groups must be saved.
    /// Without a selected group or such a request nothing changes.
    pub fn save_current(&mut self) -> (save: bool)
        ensures
            save <==> (old(self).has_target() && exists|j: int|
                first_named(
                    requests_view(old(self).groups@[old(self).target()].requests@),
                    old(self).current_request.name@,
                    j,
                )),
            save ==> exists|j: int|
                first_named(
                    requests_view(old(self).groups@[old(self).target()].requests@),
                    old(self).current_request.name@,
                    j,
                ) && groups_view(final(self).groups@) == replaced_request(
                    groups_view(old(self).groups@),
                    old(self).target(),
                    j,
                    old(self).current_request@,
                ) && stored_at(
                    old(self).groups@,
                    final(self).groups@,
                    old(self).target(),
                    j,
                    old(self).current_request,
                ),
            final(self).groups@.len() == old(self).groups@.len(),
            forall|k: int| 0 <= k < final(self).groups@.len() ==> (#[trigger] final(self).groups@[k]).is_expanded == old(self).groups@[k].is_expanded,
            !save ==> final(self).groups == old(self).groups,
            final(self).current_request == old(self).current_request,
            final(self).is_loading == old(self).is_loading,
            final(self).new_request_dialog == old(self).new_request_dialog,
            final(self).new_group_dialog == old(self).new_group_dialog,
    {
        let g = match self.new_request_dialog.group_index {
            Some(g) => g,
            None => {
                return false;
            },
        };
        if g >= self.groups.len() {
            return false;
        }
        let ghost rs = requests_view(self.groups@[g as int].requests@);
        let ghost name = self.current_request.name@;
        let mut found: Option<usize> = None;
        let mut j: usize = 0;
        while j < self.groups[g].requests.len()
            invariant
                g < self.groups@.len(),
                rs == requests_view(self.groups@[g as int].requests@),
                name == self.current_request.name@,
                j <= rs.len(),
                found is None ==> forall|k: int| 0 <= k < j ==> (#[trigger] rs[k]).name != name,
                found matches Some(f) ==> first_named(rs, name, f as int),
            decreases rs.len() - j,
        {
            if found.is_none() && self.groups[g].requests[j].name == self.current_request.name {
                found = Some(j);
            }
            j = j + 1;
        }
        match found {
            None => {
                proof {
                    assert forall|k: int| 0 <= k < rs.len() implies !first_named(rs, name, k) by {
                        assert(rs[k].name != name);
                    }
                }
                false
            },
            Some(f) => {
                let ghost before = self.groups@;
                let copy = self.current_request.copy();
                self.groups[g].requests[f] = copy;
                proof {
                    let gv = groups_view(self.groups@);
                    let want = replaced_request(groups_view(before), g as int, f as int, self.current_request@);
                    assert(requests_view(self.groups@[g as int].requests@) =~= want[g as int].requests);
                    assert(gv =~= want);
                    assert(stored_at(before, self.groups@, g as int, f as int, self.current_request));
                    assert(first_named(rs, name, f as int));
                    assert(before == old(self).groups@);
                    assert(g as int == old(self).target());
                }
                true
            },
        }
    }

    /// "Create" in the "New API Request" dialog. With a non-empty name it appends a copy
    /// of the request being edited, under that name, to the dialog's group, if that group
    /// exists, and answers whether it did, and so whether the groups must be saved; then
    /// it clears and hides the dialog. With an empty name nothing changes.
    pub fn create_request(&mut self) -> (save: bool)
        ensures
            save <==> (old(self).new_request_dialog.name@.len() > 0 && old(self).has_target()),
            save ==> groups_view(
                final(self).groups@,
            ) == groups_view(old(self).groups@).update(
                old(self).target(),
                GroupView {
                    name: old(self).groups@[old(self).target()].name@,
                    requests: requests_view(old(self).groups@[old(self).target()].requests@).push(
                        renamed(old(self).current_request@, old(self).new_request_dialog.name@),
                    ),
                },
            ) && appended_to(
                old(self).groups@,
                final(self).groups@,
                old(self).target(),
                old(self).current_request,
                old(self).new_request_dialog.name@,
            ),
            final(self).groups@.len() == old(self).groups@.len(),
            forall|k: int| 0 <= k < final(self).groups@.len() ==> (#[trigger] final(self).groups@[k]).is_expanded == old(self).groups@[k].is_expanded,
            !save ==> final(self).groups == old(self).groups,
            old(self).new_request_dialog.name@.len() > 0 ==> {
                &&& !final(self).new_request_dialog.show
                &&& final(self).new_request_dialog.name@.len() == 0
                &&& final(self).new_request_dialog.group_index is None
            },
            old(self).new_request_dialog.name@.len() == 0 ==> final(self).new_request_dialog
                == old(self).new_request_dialog,
            final(self).current_request == old(self).current_request,
            final(self).is_loading == old(self).is_loading,
            final(self).new_group_dialog == old(self).new_group_dialog,
    {
        if self.new_request_dialog.name.as_str().is_empty() {
            return false;
        }
        let mut save = false;
        match self.new_request_dialog.group_index {
            Some(g) => {
                if g < self.groups.len() {
                    let ghost before = self.groups@;
                    let mut req = self.current_request.copy();
                    req.name = self.new_request_dialog.name.clone();
                    self.groups[g].requests.push(req);
                    proof {
                        let want = groups_view(before).update(
                            g as int,
                            GroupView {
                                name: before[g as int].name@,
                                requests: requests_view(before[g as int].requests@).push(
                                    renamed(self.current_request@, self.new_request_dialog.name@),
                                ),
                            },
                        );
                        assert(requests_view(self.groups@[g as int].requests@) =~= want[g as int].requests);
                        assert(groups_view(self.groups@) =~= want);
                        assert(appended_to(before, self.groups@, g as int, self.current_request, self.new_request_dialog.name@));
                    }
                    save = true;
                }
            },
            None => {},
        }
        self.new_request_dialog.name = String::new();
        self.new_request_dialog.group_index = None;
        self.new_request_dialog.show = false;
        save
    }

    /// "Cancel" in the "New API Request" dialog: clears it, forgets its group and hides it.
    pub fn cancel_new_request(&mut self)
        ensures
            !final(self).new_request_dialog.show,
            final(self).new_request_dialog.name@.len() == 0,
            final(self).new_request_dialog.group_index is None,
            final(self).groups == old(self).groups,
            final(self).current_request == old(self).current_request,
            final(self).is_loading == old(self).is_loading,
            final(self).new_group_dialog == old(self).new_group_dialog,
    {
        self.new_request_dialog.name = String::new();
        self.new_request_dialog.group_index = None;
        self.new_request_dialog.show = false;
    }

    /// Appends an empty header pair to the request being edited.
    pub fn add_header(&mut self)
        ensures
            headers_view(final(self).current_request.headers@) == headers_view(
                old(self).current_request.headers@,
            ).push((seq![], seq![])),
            final(self).current_request == (ApiRequest {
                headers: final(self).current_request.headers,
                ..old(self).current_request
            }),
            final(self).groups == old(self).groups,
            final(self).is_loading == old(self).is_loading,
            final(self).new_request_dialog == old(self).new_request_dialog,
            final(self).new_group_dialog == old(self).new_group_dialog,
    {
        self.current_request.headers.push((String::new(), String::new()));
        proof {
            assert(headers_view(self.current_request.headers@) =~= headers_view(
                old(self).current_request.headers@,
            ).push((seq![], seq![])));
        }
    }

    /// Removes header `i` of the request being edited; another index changes nothing.
    pub fn remove_header(&mut self, i: usize)
        ensures
            i < old(self).current_request.headers@.len() ==> final(self).current_request.headers@
                == old(self).current_request.headers@.remove(i as int),
            i >= old(self).current_request.headers@.len() ==> final(self).current_request.headers
                == old(self).current_request.headers,
            final(self).current_request == (ApiRequest {
                headers: final(self).current_request.headers,
                ..old(self).current_request
            }),
            final(self).groups == old(self).groups,
            final(self).is_loading == old(self).is_loading,
            final(self).new_request_dialog == old(self).new_request_dialog,
            final(self).new_group_dialog == old(self).new_group_dialog,
    {
        if i < self.current_request.headers.len() {
            self.current_request.headers.remove(i);
        }
    }

    /// "Send": marks the client busy and prepares the request being edited: an `Ok` is
    /// the call to issue, an `Err` the local response for an unsupported method, to be
    /// delivered like any other. The caller offers "Send" only while nothing is in flight.
    pub fn send_request(&mut self) -> (r: Result<PreparedRequest, ApiResponse>)
        ensures
            prepared_for(old(self).current_request, r),
            *final(self) == (ApiTester { is_loading: true, ..*old(self) }),
    {
        self.is_loading = true;
        prepare_request(&self.current_request)
    }

    /// Delivers the response of the request in flight: it becomes the response of the
    /// request being edited, and the client is no longer busy.
    pub fn receive_response(&mut self, response: ApiResponse)
        ensures
            final(self).current_request == (ApiRequest {
                response: Some(response),
                ..old(self).current_request
            }),
            !final(self).is_loading,
            final(self).groups == old(self).groups,
            final(self).methods == old(self).methods,
            final(self).new_request_dialog == old(self).new_request_dialog,
            final(self).new_group_dialog == old(self).new_group_dialog,
    {
        self.current_request.response = Some(response);
        self.is_loading = false;
    }

    /// Whether the body editor is shown: for every method but GET.
    pub fn shows_body_editor(&self) -> (r: bool)
        ensures
            r == (self.current_request.method@ != "GET"@),
    {
        !(self.current_request.method == String::from_str("GET"))
    }
}

} // verus!
