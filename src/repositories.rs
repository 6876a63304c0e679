//! The catalog client: the listing's wire format, and the life of one request.

use vstd::prelude::*;

verus! {

/// Path of the catalog listing endpoint.
pub const CATALOG_PATH: &'static str = "/v2/_catalog";

/// Name of the field of the listing that holds the repository names.
pub const REPOSITORIES_FIELD: &'static str = "repositories";

#[verifier::external_type_specification]
#[verifier::external_body]
pub struct ExJsonError(serde_json::Error);

/// What goes wrong on the client side.
#[derive(Clone, Copy, Debug, PartialEq, Eq, Structural)]
pub enum ApiError {
    /// The transport reported a failure; no body came back.
    Transport,
    /// The body is not a JSON object.
    Decode,
}

/// The catalog listing: repository names, in the order the server gave them.
#[derive(Debug)]
pub struct RepositoriesResponse {
    pub repositories: Vec<String>,
}

pub open spec fn names_view(names: Seq<String>) -> Seq<Seq<char>> {
    names.map_values(|n: String| n@)
}

impl View for RepositoriesResponse {
    type V = Seq<Seq<char>>;

    open spec fn view(&self) -> Seq<Seq<char>> {
        names_view(self.repositories@)
    }
}

impl Default for RepositoriesResponse {
    fn default() -> (r: Self)
        ensures
            r@ == Seq::<Seq<char>>::empty(),
    {
        let r = RepositoriesResponse { repositories: Vec::new() };
        assert(r@ =~= Seq::<Seq<char>>::empty());
        r
    }
}

/// What serde_json reads from `text` as one JSON object into a sorted map: one
/// member per name, in the order of the names, each with the JSON text of its
/// value, where a repeated name keeps its last value; none where it reads no
/// such object.
pub uninterp spec fn json_object_members(text: Seq<char>) -> Option<Seq<(Seq<char>, Seq<char>)>>;

/// What serde_json reads from `text` as one JSON array of strings: the strings;
/// none where it reads no such array.
pub uninterp spec fn json_string_array(text: Seq<char>) -> Option<Seq<Seq<char>>>;

pub open spec fn members_view(members: Seq<(String, String)>) -> Seq<(Seq<char>, Seq<char>)> {
    members.map_values(|m: (String, String)| (m.0@, m.1@))
}

/// Relies on `serde_json::from_str` into a `BTreeMap` from names to raw JSON
/// values, and on `RawValue::get` for each value's text: the members that it
/// reads, sorted by name with the last of a repeated name kept, or its error
/// where the text is no JSON object.
#[verifier::external_body]
fn parse_object_members(text: &str) -> (r: Result<Vec<(String, String)>, serde_json::Error>)
    ensures
        r is Ok <==> json_object_members(text@) is Some,
        r matches Ok(members) ==> json_object_members(text@) == Some(members_view(members@)),
{
    serde_json::from_str::<std::collections::BTreeMap<String, Box<serde_json::value::RawValue>>>(text)
        .map(|m| m.into_iter().map(|(k, v)| (k, v.get().to_string())).collect())
}

/// Relies on `serde_json::from_str` into a `Vec<String>`: the strings that it
/// reads, or its error where the text is no JSON array of strings.
#[verifier::external_body]
fn parse_string_array(text: &str) -> (r: Result<Vec<String>, serde_json::Error>)
    ensures
        r is Ok <==> json_string_array(text@) is Some,
        r matches Ok(names) ==> json_string_array(text@) == Some(names_view(names@)),
{
    serde_json::from_str::<Vec<String>>(text)
}

/// The value text of the first member called `name`, if there is one.
pub open spec fn member_text(members: Seq<(Seq<char>, Seq<char>)>, name: Seq<char>) -> Option<Seq<char>>
    decreases members.len(),
{
    if members.len() == 0 {
        None
    } else if members[0].0 == name {
        Some(members[0].1)
    } else {
        member_text(members.drop_first(), name)
    }
}

/// The repository names that a listing's members give: the field's strings
/// when it is an array of strings, and none when it is missing or malformed.
pub open spec fn listed_repositories(members: Seq<(Seq<char>, Seq<char>)>) -> Seq<Seq<char>> {
    match member_text(members, REPOSITORIES_FIELD@) {
        Some(value) => match json_string_array(value) {
            Some(names) => names,
            None => Seq::empty(),
        },
        None => Seq::empty(),
    }
}

/// The decoded listing of a body: a decode error when the body is not a JSON
/// object, and otherwise the names that its repositories field gives.
pub open spec fn decoded(body: Seq<char>) -> Result<Seq<Seq<char>>, ApiError> {
    match json_object_members(body) {
        Some(members) => Ok(listed_repositories(members)),
        None => Err(ApiError::Decode),
    }
}

pub open spec fn listing_view(r: Result<RepositoriesResponse, ApiError>) -> Result<Seq<Seq<char>>, ApiError> {
    match r {
        Ok(l) => Ok(l@),
        Err(e) => Err(e),
    }
}

/// Finds the value text of the first member called `name`.
pub fn find_member(members: &Vec<(String, String)>, name: &str) -> (r: Option<String>)
    ensures
        r matches Some(t) ==> member_text(members_view(members@), name@) == Some(t@),
        r is None ==> member_text(members_view(members@), name@) is None,
{
    let ghost all = members_view(members@);
    let target = String::from_str(name);
    assert(all.subrange(0, all.len() as int) =~= all);
    let mut i: usize = 0;
    while i < members.len()
        invariant
            i <= members.len(),
            all == members_view(members@),
            all.len() == members@.len(),
            target@ == name@,
            member_text(all, name@) == member_text(all.subrange(i as int, all.len() as int), name@),
        decreases members.len() - i,
    {
        let ghost rest = all.subrange(i as int, all.len() as int);
        assert(rest[0] == all[i as int]);
        if members[i].0 == target {
            return Some(members[i].1.clone());
        }
        assert(rest.drop_first() =~= all.subrange(i + 1, all.len() as int));
        i += 1;
    }
    None
}

/// Reads the repository names out of a listing's members: the field's strings
/// when it holds an array of strings, and an empty listing when the field is
/// missing or holds anything else.
pub fn repositories_from_members(members: &Vec<(String, String)>) -> (r: RepositoriesResponse)
    ensures
        r@ == listed_repositories(members_view(members@)),
{
    match find_member(members, REPOSITORIES_FIELD) {
        Some(value) => match parse_string_array(value.as_str()) {
            Ok(names) => RepositoriesResponse { repositories: names },
            Err(_) => RepositoriesResponse::default(),
        },
        None => RepositoriesResponse::default(),
    }
}

/// Decodes a catalog body. A body that is not a JSON object is a decode error;
/// a JSON object gives the listing of its repositories field, which is empty
/// when the field is missing or malformed.
pub fn decode_repositories(body: &str) -> (r: Result<RepositoriesResponse, ApiError>)
    ensures
        listing_view(r) == decoded(body@),
{
    match parse_object_members(body) {
        Ok(members) => Ok(repositories_from_members(&members)),
        Err(_) => Err(ApiError::Decode),
    }
}

/// The client for the catalog listing endpoint.
#[derive(Debug)]
pub struct RepositoriesSvc {
    path: String,
}

impl RepositoriesSvc {
    /// A client for the catalog endpoint.
    pub fn new() -> (r: Self)
        ensures
            r.path()@ == CATALOG_PATH@,
    {
        RepositoriesSvc { path: String::from_str(CATALOG_PATH) }
    }

    /// The path that the client asks for.
    pub closed spec fn path(&self) -> String {
        self.path
    }

    /// The path that a catalog request asks for.
    pub fn request_path(&self) -> (r: String)
        ensures
            r@ == self.path()@,
    {
        self.path.clone()
    }

    /// Begins a catalog request: a fresh one on every call, pending until it
    /// completes or is cancelled.
    pub fn fetch(&mut self) -> (r: CatalogFetch)
        ensures
            r.state == FetchState::Pending,
            final(self).path() == old(self).path(),
    {
        CatalogFetch::new()
    }
}

/// Where a catalog request stands.
#[derive(Clone, Copy, Debug, PartialEq, Eq, Structural)]
pub enum FetchState {
    /// Sent, and nothing delivered yet.
    Pending,
    /// Its result went to the continuation.
    Completed,
    /// Cancelled before it completed.
    Cancelled,
}

/// What happens to a catalog request.
#[derive(Debug)]
pub enum FetchEvent {
    /// The body of the response arrived.
    Received(String),
    /// The transport reported a failure.
    Failed,
    /// The caller discarded the request.
    Cancel,
}

/// A request's next state, and what it hands to the continuation, if anything.
/// Only a pending request delivers, and it delivers once; a cancelled or a
/// completed one stays as it is.
pub open spec fn transition(state: FetchState, event: FetchEvent) -> (FetchState, Option<Result<Seq<Seq<char>>, ApiError>>) {
    match state {
        FetchState::Pending => match event {
            FetchEvent::Received(body) => (FetchState::Completed, Some(decoded(body@))),
            FetchEvent::Failed => (FetchState::Completed, Some(Err(ApiError::Transport))),
            FetchEvent::Cancel => (FetchState::Cancelled, None),
        },
        _ => (state, None),
    }
}

/// The state that a request ends in after `events`, and what it delivered, in order.
pub open spec fn run(state: FetchState, events: Seq<FetchEvent>) -> (FetchState, Seq<Result<Seq<Seq<char>>, ApiError>>)
    decreases events.len(),
{
    if events.len() == 0 {
        (state, Seq::empty())
    } else {
        let (next, delivered) = transition(state, events[0]);
        let (last, rest) = run(next, events.drop_first());
        match delivered {
            Some(d) => (last, seq![d] + rest),
            None => (last, rest),
        }
    }
}

pub open spec fn delivery_view(d: Option<Result<RepositoriesResponse, ApiError>>) -> Option<Result<Seq<Seq<char>>, ApiError>> {
    match d {
        Some(r) => Some(listing_view(r)),
        None => None,
    }
}

/// One catalog request, from the moment it is sent until it delivers or is cancelled.
#[derive(Debug)]
pub struct CatalogFetch {
    pub state: FetchState,
}

impl CatalogFetch {
    /// A request that was just sent.
    pub fn new() -> (r: Self)
        ensures
            r.state == FetchState::Pending,
    {
        CatalogFetch { state: FetchState::Pending }
    }

    pub fn is_pending(&self) -> (r: bool)
        ensures
            r == (self.state == FetchState::Pending),
    {
        self.state == FetchState::Pending
    }

    /// Takes one event and returns what goes to the continuation, if anything.
    pub fn step(&mut self, event: FetchEvent) -> (delivered: Option<Result<RepositoriesResponse, ApiError>>)
        ensures
            (final(self).state, delivery_view(delivered)) == transition(old(self).state, event),
    {
        match self.state {
            FetchState::Pending => match event {
                FetchEvent::Received(body) => {
                    self.state = FetchState::Completed;
                    Some(decode_repositories(body.as_str()))
                },
                FetchEvent::Failed => {
                    self.state = FetchState::Completed;
                    Some(Err(ApiError::Transport))
                },
                FetchEvent::Cancel => {
                    self.state = FetchState::Cancelled;
                    None
                },
            },
            _ => None,
        }
    }
}

/// A cancelled request delivers nothing, whatever happens to it afterwards,
/// and stays cancelled.
pub proof fn lemma_cancelled_stays_silent(events: Seq<FetchEvent>)
    ensures
        run(FetchState::Cancelled, events) == (FetchState::Cancelled, Seq::<Result<Seq<Seq<char>>, ApiError>>::empty()),
    decreases events.len(),
{
    if events.len() > 0 {
        lemma_cancelled_stays_silent(events.drop_first());
    }
}

/// Cancelling a pending request before it completes delivers no value to the
/// continuation, then or later, and leaves nothing pending.
pub proof fn lemma_cancel_before_completion(later: Seq<FetchEvent>)
    ensures
        run(FetchState::Pending, seq![FetchEvent::Cancel] + later) == (FetchState::Cancelled, Seq::<Result<Seq<Seq<char>>, ApiError>>::empty()),
{
    let events = seq![FetchEvent::Cancel] + later;
    assert(events[0] == FetchEvent::Cancel);
    assert(events.drop_first() =~= later);
    lemma_cancelled_stays_silent(later);
}

} // verus!
