//! The PostHog client: its endpoints, the bodies it sends, and each of its
//! operations as a state machine over HTTP exchanges.

use vstd::prelude::*;
use crate::error::{ApiError, ErrorView, Phase};
use crate::http::{
    fetched, is_success, make_request, read_request, status_line, status_text, try_get,
    unparsable, unparsed_detail,
    Exchange, Expect, Fetch, FetchView, Method, Payload, PayloadView, Reply, ReplyView, Request,
    RequestView, Step, Turn,
};
use crate::json::{json_string, json_string_literal};
use crate::model::{
    first_with_key, has_key, keep_live_flags, live_flags, live_flags_from_local,
    live_local_flags, Config, FeatureFlag, FlagView,
};
use crate::text::{append_decimal, decimal, trim_trailing_slashes, trim_trailing_slashes_text};

verus! {

// ---------------------------------------------------------------- endpoints

/// The local evaluation endpoint of a host.
pub open spec fn local_evaluation_url(host: Seq<char>) -> Seq<char> {
    host + "/api/feature_flag/local_evaluation/"@
}

/// The endpoint that lists the projects of a host.
pub open spec fn projects_url(host: Seq<char>) -> Seq<char> {
    host + "/api/projects/"@
}

/// The endpoint of the feature flags of a project.
pub open spec fn flags_url(host: Seq<char>, project_id: i64) -> Seq<char> {
    host + "/api/projects/"@ + decimal(project_id as int) + "/feature_flags/"@
}

/// The endpoint of one feature flag of a project.
pub open spec fn flag_url(host: Seq<char>, project_id: i64, flag_id: i64) -> Seq<char> {
    flags_url(host, project_id) + decimal(flag_id as int) + "/"@
}

/// The local evaluation endpoint of `host`.
pub fn local_evaluation_endpoint(host: &str) -> (s: String)
    ensures
        s@ == local_evaluation_url(host@),
{
    let mut s = host.to_owned();
    s.append("/api/feature_flag/local_evaluation/");
    s
}

/// The endpoint that lists the projects of `host`.
pub fn projects_endpoint(host: &str) -> (s: String)
    ensures
        s@ == projects_url(host@),
{
    let mut s = host.to_owned();
    s.append("/api/projects/");
    s
}

/// The endpoint of the feature flags of a project.
pub fn flags_endpoint(host: &str, project_id: i64) -> (s: String)
    ensures
        s@ == flags_url(host@, project_id),
{
    let mut s = host.to_owned();
    s.append("/api/projects/");
    append_decimal(&mut s, project_id);
    s.append("/feature_flags/");
    s
}

/// The endpoint of one feature flag of a project.
pub fn flag_endpoint(host: &str, project_id: i64, flag_id: i64) -> (s: String)
    ensures
        s@ == flag_url(host@, project_id, flag_id),
{
    let mut s = flags_endpoint(host, project_id);
    append_decimal(&mut s, flag_id);
    s.append("/");
    s
}

// ---------------------------------------------------------------- bodies

/// The body that creates a boolean flag rolled out to everyone, given the JSON
/// string literal of its key (which is also its name). Its members are in the
/// order in which `serde_json` writes an object.
pub open spec fn creation_body(quoted_key: Seq<char>) -> Seq<char> {
    "{\"active\":true,\"filters\":{\"groups\":[{\"properties\":[],\"rollout_percentage\":100}]},\"key\":"@
        + quoted_key + ",\"name\":"@ + quoted_key + "}"@
}

/// The body that creates a flag, given the JSON string literal of its key.
pub fn creation_body_text(quoted_key: &str) -> (s: String)
    ensures
        s@ == creation_body(quoted_key@),
{
    let mut s = String::from_str(
        "{\"active\":true,\"filters\":{\"groups\":[{\"properties\":[],\"rollout_percentage\":100}]},\"key\":",
    );
    s.append(quoted_key);
    s.append(",\"name\":");
    s.append(quoted_key);
    s.append("}");
    s
}

/// The body that turns a flag on or off.
pub open spec fn activation_body(active: bool) -> Seq<char> {
    if active {
        "{\"active\":true}"@
    } else {
        "{\"active\":false}"@
    }
}

/// The body that turns a flag on or off.
pub fn activation_body_text(active: bool) -> (s: String)
    ensures
        s@ == activation_body(active),
{
    if active {
        String::from_str("{\"active\":true}")
    } else {
        String::from_str("{\"active\":false}")
    }
}

// ---------------------------------------------------------------- the client

/// A client of the PostHog API for one project.
#[derive(Debug)]
pub struct PostHogClient {
    host: String,
    api_key: String,
    pub project_id: i64,
}

/// The view of a [`PostHogClient`].
pub struct ClientView {
    /// The API's base URL, without a trailing `/`.
    pub host: Seq<char>,
    pub api_key: Seq<char>,
    pub project_id: i64,
}

impl DeepView for PostHogClient {
    type V = ClientView;

    closed spec fn deep_view(&self) -> ClientView {
        ClientView { host: self.host@, api_key: self.api_key@, project_id: self.project_id }
    }
}

/// The request for the project's flags from the management API.
pub open spec fn flag_page_request(c: ClientView) -> RequestView {
    read_request(c.api_key, flags_url(c.host, c.project_id), Expect::FlagPage)
}

/// The request for the flags of the local evaluation endpoint.
pub open spec fn local_evaluation_request(c: ClientView) -> RequestView {
    read_request(c.api_key, local_evaluation_url(c.host), Expect::LocalEvaluation)
}

/// The request for the account's projects.
pub open spec fn project_page_request(c: ClientView) -> RequestView {
    read_request(c.api_key, projects_url(c.host), Expect::ProjectPage)
}

/// The request that creates a flag with the key `key`.
pub open spec fn creation_request(c: ClientView, key: Seq<char>) -> RequestView {
    RequestView {
        method: Method::Post,
        url: flags_url(c.host, c.project_id),
        bearer: c.api_key,
        body: Some(creation_body(json_string(key))),
        expect: Expect::Flag,
    }
}

/// The request that turns the flag `flag_id` on or off.
pub open spec fn activation_request(c: ClientView, flag_id: i64, active: bool) -> RequestView {
    RequestView {
        method: Method::Patch,
        url: flag_url(c.host, c.project_id, flag_id),
        bearer: c.api_key,
        body: Some(activation_body(active)),
        expect: Expect::Flag,
    }
}

/// The request that deletes the flag `flag_id`.
pub open spec fn deletion_request(c: ClientView, flag_id: i64) -> RequestView {
    RequestView {
        method: Method::Delete,
        url: flag_url(c.host, c.project_id, flag_id),
        bearer: c.api_key,
        body: None,
        expect: Expect::Nothing,
    }
}

impl PostHogClient {
    /// The API's base URL, without a trailing `/`.
    pub fn host(&self) -> (s: &str)
        ensures
            s@ == self.deep_view().host,
    {
        self.host.as_str()
    }

    /// The personal API key that authenticates the requests.
    pub fn api_key(&self) -> (s: &str)
        ensures
            s@ == self.deep_view().api_key,
    {
        self.api_key.as_str()
    }

    fn read(&self, url: String, expect: Expect) -> (r: Request)
        ensures
            r.deep_view() == read_request(self.deep_view().api_key, url@, expect),
    {
        make_request(Method::Get, url, self.api_key.as_str(), None, expect)
    }
}

// ---------------------------------------------------------------- outcomes

/// The view of an outcome.
pub open spec fn outcome_view<T: DeepView>(r: Result<T, ApiError>) -> Result<T::V, ErrorView> {
    match r {
        Ok(t) => Ok(t.deep_view()),
        Err(e) => Err(e.deep_view()),
    }
}

/// The first flag of `fs` with the key `key`, or the error that none has it.
pub open spec fn find_flag(fs: Seq<FlagView>, key: Seq<char>) -> Result<FlagView, ErrorView> {
    if has_key(fs, key) {
        Ok(fs[choose|i: int| first_with_key(fs, key, i)])
    } else {
        Err(ErrorView::FlagNotFound { key })
    }
}

/// What the answer to a change of a flag amounts to: the flag that the server
/// sent back, or the error.
pub open spec fn changed_flag(phase: Phase, r: ReplyView) -> Result<FlagView, ErrorView> {
    match r {
        ReplyView::Unreachable { detail } => Err(ErrorView::Unreachable { phase, detail }),
        ReplyView::Answered { status, text, payload } => if !is_success(status) {
            Err(ErrorView::Rejected { phase, status: status_text(status), body: text })
        } else {
            match payload {
                PayloadView::Flag(f) => Ok(f),
                _ => Err(ErrorView::Unparsable { phase, detail: unparsed_detail(payload) }),
            }
        },
    }
}

/// What the answer to a deletion amounts to; its body is not read.
pub open spec fn removal(r: ReplyView) -> Result<(), ErrorView> {
    match r {
        ReplyView::Unreachable { detail } => Err(
            ErrorView::Unreachable { phase: Phase::Delete, detail },
        ),
        ReplyView::Answered { status, text, .. } => if !is_success(status) {
            Err(ErrorView::Rejected { phase: Phase::Delete, status: status_text(status), body: text })
        } else {
            Ok(())
        },
    }
}

/// Gives the error for an answer whose status is no success: the status line and
/// the body that came with it.
pub fn check_response(status: u16, text: String, phase: Phase) -> (res: Result<(), ApiError>)
    ensures
        is_success(status) ==> res is Ok,
        !is_success(status) ==> outcome_view(res) == Err::<(), ErrorView>(
            ErrorView::Rejected { phase, status: status_text(status), body: text@ },
        ),
{
    if 200 <= status && status < 300 {
        Ok(())
    } else {
        Err(ApiError::Rejected { phase, status: status_line(status), body: text })
    }
}

fn changed_flag_of(phase: Phase, reply: Reply) -> (res: Result<FeatureFlag, ApiError>)
    ensures
        outcome_view(res) == changed_flag(phase, reply.deep_view()),
{
    match reply {
        Reply::Unreachable { detail } => Err(ApiError::Unreachable { phase, detail }),
        Reply::Answered { status, text, payload } => {
            match check_response(status, text, phase) {
                Err(e) => Err(e),
                Ok(()) => match payload {
                    Payload::Flag(f) => Ok(f),
                    other => Err(unparsable(phase, other)),
                },
            }
        },
    }
}

fn removal_of(reply: Reply) -> (res: Result<(), ApiError>)
    ensures
        outcome_view(res) == removal(reply.deep_view()),
{
    match reply {
        Reply::Unreachable { detail } => Err(ApiError::Unreachable { phase: Phase::Delete, detail }),
        Reply::Answered { status, text, .. } => check_response(status, text, Phase::Delete),
    }
}

proof fn lemma_first_with_key_unique(fs: Seq<FlagView>, key: Seq<char>, i: int, j: int)
    requires
        first_with_key(fs, key, i),
        first_with_key(fs, key, j),
    ensures
        i == j,
{
}

/// When some flag has the key, there is a first one.
pub proof fn lemma_first_with_key_exists(fs: Seq<FlagView>, key: Seq<char>)
    requires
        has_key(fs, key),
    ensures
        exists|i: int| first_with_key(fs, key, i),
    decreases fs.len(),
{
    let init = fs.drop_last();
    if has_key(init, key) {
        lemma_first_with_key_exists(init, key);
        let i = choose|i: int| first_with_key(init, key, i);
        assert forall|j: int| 0 <= j <= i implies init[j] == fs[j] by {}
        assert(first_with_key(fs, key, i));
    } else {
        let k = fs.len() - 1;
        assert forall|j: int| 0 <= j < k implies fs[j].key != key by {
            assert(init[j] == fs[j]);
        }
        let w = choose|w: int| 0 <= w < fs.len() && fs[w].key == key;
        if w < k {
            assert(init[w] == fs[w]);
        }
        assert(first_with_key(fs, key, k));
    }
}

/// Takes the first flag with the key `key` out of `flags`.
pub fn take_flag_with_key(flags: Vec<FeatureFlag>, key: &str) -> (res: Result<FeatureFlag, ApiError>)
    ensures
        outcome_view(res) == find_flag(flags.deep_view(), key@),
{
    let ghost all = flags.deep_view();
    let mut list = flags;
    let n = list.len();
    let wanted = key.to_owned();
    let mut i: usize = 0;
    while i < n
        invariant
            wanted@ == key@,
            n == list.len(),
            list.deep_view() == all,
            all == flags.deep_view(),
            i <= n,
            forall|j: int| 0 <= j < i ==> all[j].key != key@,
        decreases n - i,
    {
        if list[i].key == wanted {
            proof {
                assert(all[i as int].key == key@);
                assert(first_with_key(all, key@, i as int));
                assert(has_key(all, key@));
                let c = choose|c: int| first_with_key(all, key@, c);
                lemma_first_with_key_unique(all, key@, i as int, c);
                assert(find_flag(all, key@) == Ok::<FlagView, ErrorView>(all[i as int]));
            }
            let f = list.remove(i);
            assert(f.deep_view() == all[i as int]);
            return Ok(f);
        }
        i = i + 1;
    }
    Err(ApiError::FlagNotFound { key: wanted })
}

// ---------------------------------------------------------------- listing

/// Where the listing of flags stands.
#[derive(Debug)]
pub enum ListStage {
    /// Not begun.
    Start,
    /// Waiting for a page of the management API, with the flags of the pages before.
    Management(Vec<FeatureFlag>),
    /// Waiting for the local evaluation endpoint.
    LocalEvaluation,
    /// Over.
    Finished,
}

/// The view of a [`ListStage`].
pub enum ListView {
    Start,
    Management(Seq<FlagView>),
    LocalEvaluation,
    Finished,
}

impl DeepView for ListStage {
    type V = ListView;

    open spec fn deep_view(&self) -> ListView {
        match self {
            ListStage::Start => ListView::Start,
            ListStage::Management(fs) => ListView::Management(fs.deep_view()),
            ListStage::LocalEvaluation => ListView::LocalEvaluation,
            ListStage::Finished => ListView::Finished,
        }
    }
}

/// Whether the listing takes the start (`begin`) or a reply (`!begin`) in this stage.
pub open spec fn list_accepts(stage: ListView, begin: bool) -> bool {
    match stage {
        ListView::Start => begin,
        ListView::Management(_) | ListView::LocalEvaluation => !begin,
        ListView::Finished => false,
    }
}

/// The request for the page of flags at `url`, the link that the page before gave.
pub open spec fn next_page_request(c: ClientView, url: Seq<char>) -> RequestView {
    read_request(c.api_key, url, Expect::FlagPage)
}

/// One step of listing the flags: the pages of the management API one after the
/// other, following each page's link to the next, and the local evaluation
/// endpoint when the management API refuses; deleted flags left out.
pub open spec fn list_step(c: ClientView, stage: ListView, reply: Option<ReplyView>) -> (ListView, Turn<Seq<FlagView>>) {
    match stage {
        ListView::Start => (ListView::Management(Seq::empty()), Turn::Send(flag_page_request(c))),
        ListView::Management(before) => match fetched(reply->0) {
            FetchView::Failed(e) => (ListView::Finished, Turn::Done(Err(e))),
            FetchView::Declined => (ListView::LocalEvaluation, Turn::Send(local_evaluation_request(c))),
            FetchView::Delivered(PayloadView::FlagPage(fs, next)) => match next {
                Some(url) => (
                    ListView::Management(before + live_flags(fs)),
                    Turn::Send(next_page_request(c, url)),
                ),
                None => (ListView::Finished, Turn::Done(Ok(before + live_flags(fs)))),
            },
            FetchView::Delivered(p) => (
                ListView::Finished,
                Turn::Done(Err(ErrorView::Unparsable { phase: Phase::Read, detail: unparsed_detail(p) })),
            ),
        },
        ListView::LocalEvaluation => match fetched(reply->0) {
            FetchView::Failed(e) => (ListView::Finished, Turn::Done(Err(e))),
            FetchView::Declined => (ListView::Finished, Turn::Done(Err(ErrorView::ListingFailed))),
            FetchView::Delivered(PayloadView::LocalEvaluation(ls)) => (
                ListView::Finished,
                Turn::Done(Ok(live_local_flags(ls))),
            ),
            FetchView::Delivered(p) => (
                ListView::Finished,
                Turn::Done(Err(ErrorView::Unparsable { phase: Phase::Read, detail: unparsed_detail(p) })),
            ),
        },
        ListView::Finished => (ListView::Finished, Turn::Done(Err(ErrorView::ListingFailed))),
    }
}

fn append_flags(before: Vec<FeatureFlag>, more: Vec<FeatureFlag>) -> (all: Vec<FeatureFlag>)
    ensures
        all.deep_view() == before.deep_view() + more.deep_view(),
{
    let mut all = before;
    let mut more = more;
    let ghost b = all@;
    let ghost m = more@;
    all.append(&mut more);
    assert(all.deep_view() =~= before.deep_view() + m.map_values(|f: FeatureFlag| f.deep_view()));
    all
}

fn list_advance(c: &PostHogClient, stage: ListStage, reply: Option<Reply>) -> (res: (ListStage, Step<Vec<FeatureFlag>>))
    requires
        list_accepts(stage.deep_view(), reply is None),
    ensures
        (res.0.deep_view(), res.1.deep_view()) == list_step(c.deep_view(), stage.deep_view(), reply.deep_view()),
{
    match stage {
        ListStage::Start => {
            let url = flags_endpoint(c.host.as_str(), c.project_id);
            let none: Vec<FeatureFlag> = Vec::new();
            assert(none.deep_view() =~= Seq::<FlagView>::empty());
            (ListStage::Management(none), Step::Send(c.read(url, Expect::FlagPage)))
        },
        ListStage::Management(before) => {
            let reply = reply.unwrap();
            match try_get(reply) {
                Fetch::Failed(e) => (ListStage::Finished, Step::Done(Err(e))),
                Fetch::Declined => {
                    let url = local_evaluation_endpoint(c.host.as_str());
                    (ListStage::LocalEvaluation, Step::Send(c.read(url, Expect::LocalEvaluation)))
                },
                Fetch::Delivered(Payload::FlagPage { flags, next }) => {
                    let all = append_flags(before, keep_live_flags(flags));
                    match next {
                        Some(url) => (ListStage::Management(all), Step::Send(c.read(url, Expect::FlagPage))),
                        None => (ListStage::Finished, Step::Done(Ok(all))),
                    }
                },
                Fetch::Delivered(other) => (
                    ListStage::Finished,
                    Step::Done(Err(unparsable(Phase::Read, other))),
                ),
            }
        },
        ListStage::LocalEvaluation => {
            let reply = reply.unwrap();
            match try_get(reply) {
                Fetch::Failed(e) => (ListStage::Finished, Step::Done(Err(e))),
                Fetch::Declined => (ListStage::Finished, Step::Done(Err(ApiError::ListingFailed))),
                Fetch::Delivered(Payload::LocalEvaluation(entries)) => (
                    ListStage::Finished,
                    Step::Done(Ok(live_flags_from_local(entries))),
                ),
                Fetch::Delivered(other) => (
                    ListStage::Finished,
                    Step::Done(Err(unparsable(Phase::Read, other))),
                ),
            }
        },
        ListStage::Finished => (ListStage::Finished, Step::Done(Err(ApiError::ListingFailed))),
    }
}

/// The listing of all the flags of the client's project.
pub struct ListFlags<'a> {
    client: &'a PostHogClient,
    stage: ListStage,
}

impl<'a> ListFlags<'a> {
    /// The client that lists.
    pub closed spec fn client(&self) -> ClientView {
        self.client.deep_view()
    }

    /// Where the listing stands.
    pub closed spec fn stage(&self) -> ListView {
        self.stage.deep_view()
    }
}

impl<'a> Exchange for ListFlags<'a> {
    type Output = Vec<FeatureFlag>;

    open spec fn accepts(&self, begin: bool) -> bool {
        list_accepts(self.stage(), begin)
    }

    fn advance(&mut self, reply: Option<Reply>) -> (step: Step<Vec<FeatureFlag>>)
        ensures
            final(self).client() == old(self).client(),
            (final(self).stage(), step.deep_view()) == list_step(
                old(self).client(),
                old(self).stage(),
                reply.deep_view(),
            ),
    {
        let mut stage = ListStage::Finished;
        std::mem::swap(&mut stage, &mut self.stage);
        let (next, step) = list_advance(self.client, stage, reply);
        self.stage = next;
        step
    }
}

// ---------------------------------------------------------------- finding a flag

/// One step of finding a flag by its key.
pub enum LocateView {
    Send(ListView, RequestView),
    Found(FlagView),
    Failed(ErrorView),
}

/// One step of finding the flag with the key `key`: a step of the listing, and
/// when the listing is over, the first listed flag with that key.
pub open spec fn locate_step(c: ClientView, key: Seq<char>, stage: ListView, reply: Option<ReplyView>) -> LocateView {
    let (next, turn) = list_step(c, stage, reply);
    match turn {
        Turn::Send(q) => LocateView::Send(next, q),
        Turn::Done(Err(e)) => LocateView::Failed(e),
        Turn::Done(Ok(fs)) => match find_flag(fs, key) {
            Ok(f) => LocateView::Found(f),
            Err(e) => LocateView::Failed(e),
        },
    }
}

enum Locate {
    Send(ListStage, Request),
    Found(FeatureFlag),
    Failed(ApiError),
}

spec fn locate_view(l: Locate) -> LocateView {
    match l {
        Locate::Send(s, q) => LocateView::Send(s.deep_view(), q.deep_view()),
        Locate::Found(f) => LocateView::Found(f.deep_view()),
        Locate::Failed(e) => LocateView::Failed(e.deep_view()),
    }
}

fn locate_advance(c: &PostHogClient, key: &str, stage: ListStage, reply: Option<Reply>) -> (res: Locate)
    requires
        list_accepts(stage.deep_view(), reply is None),
    ensures
        locate_view(res) == locate_step(c.deep_view(), key@, stage.deep_view(), reply.deep_view()),
{
    let (next, step) = list_advance(c, stage, reply);
    match step {
        Step::Send(q) => Locate::Send(next, q),
        Step::Done(Err(e)) => Locate::Failed(e),
        Step::Done(Ok(flags)) => match take_flag_with_key(flags, key) {
            Ok(f) => Locate::Found(f),
            Err(e) => Locate::Failed(e),
        },
    }
}

/// One step of getting the flag with the key `key`.
pub open spec fn lookup_step(c: ClientView, key: Seq<char>, stage: ListView, reply: Option<ReplyView>) -> (ListView, Turn<FlagView>) {
    match locate_step(c, key, stage, reply) {
        LocateView::Send(next, q) => (next, Turn::Send(q)),
        LocateView::Found(f) => (ListView::Finished, Turn::Done(Ok(f))),
        LocateView::Failed(e) => (ListView::Finished, Turn::Done(Err(e))),
    }
}

/// Getting the flag with a given key.
pub struct FlagLookup<'a> {
    client: &'a PostHogClient,
    key: String,
    stage: ListStage,
}

impl<'a> FlagLookup<'a> {
    /// The client that looks.
    pub closed spec fn client(&self) -> ClientView {
        self.client.deep_view()
    }

    /// The key looked for.
    pub closed spec fn key(&self) -> Seq<char> {
        self.key@
    }

    /// Where the listing of the flags stands.
    pub closed spec fn stage(&self) -> ListView {
        self.stage.deep_view()
    }
}

impl<'a> Exchange for FlagLookup<'a> {
    type Output = FeatureFlag;

    open spec fn accepts(&self, begin: bool) -> bool {
        list_accepts(self.stage(), begin)
    }

    fn advance(&mut self, reply: Option<Reply>) -> (step: Step<FeatureFlag>)
        ensures
            final(self).client() == old(self).client(),
            final(self).key() == old(self).key(),
            (final(self).stage(), step.deep_view()) == lookup_step(
                old(self).client(),
                old(self).key(),
                old(self).stage(),
                reply.deep_view(),
            ),
    {
        let mut stage = ListStage::Finished;
        std::mem::swap(&mut stage, &mut self.stage);
        match locate_advance(self.client, self.key.as_str(), stage, reply) {
            Locate::Send(next, q) => {
                self.stage = next;
                Step::Send(q)
            },
            Locate::Found(f) => Step::Done(Ok(f)),
            Locate::Failed(e) => Step::Done(Err(e)),
        }
    }
}

// ---------------------------------------------------------------- changing a flag

/// Where a change of an existing flag stands.
#[derive(Debug)]
pub enum ChangeStage {
    /// Finding the flag.
    Listing(ListStage),
    /// Waiting for the answer to the change.
    Applying,
    /// Over.
    Finished,
}

/// The view of a [`ChangeStage`].
pub enum ChangeView {
    Listing(ListView),
    Applying,
    Finished,
}

impl DeepView for ChangeStage {
    type V = ChangeView;

    open spec fn deep_view(&self) -> ChangeView {
        match self {
            ChangeStage::Listing(s) => ChangeView::Listing(s.deep_view()),
            ChangeStage::Applying => ChangeView::Applying,
            ChangeStage::Finished => ChangeView::Finished,
        }
    }
}

/// Whether a change takes the start (`begin`) or a reply (`!begin`) in this stage.
pub open spec fn change_accepts(stage: ChangeView, begin: bool) -> bool {
    match stage {
        ChangeView::Listing(ls) => list_accepts(ls, begin),
        ChangeView::Applying => !begin,
        ChangeView::Finished => false,
    }
}

/// One step of turning the flag with the key `key` on or off: find it, then
/// send it its new state.
pub open spec fn activation_step(
    c: ClientView,
    key: Seq<char>,
    active: bool,
    stage: ChangeView,
    reply: Option<ReplyView>,
) -> (ChangeView, Turn<FlagView>) {
    match stage {
        ChangeView::Listing(ls) => match locate_step(c, key, ls, reply) {
            LocateView::Send(next, q) => (ChangeView::Listing(next), Turn::Send(q)),
            LocateView::Found(f) => (
                ChangeView::Applying,
                Turn::Send(activation_request(c, f.id, active)),
            ),
            LocateView::Failed(e) => (ChangeView::Finished, Turn::Done(Err(e))),
        },
        ChangeView::Applying => (
            ChangeView::Finished,
            Turn::Done(changed_flag(Phase::Update, reply->0)),
        ),
        ChangeView::Finished => (ChangeView::Finished, Turn::Done(Err(ErrorView::ListingFailed))),
    }
}

/// One step of deleting the flag with the key `key`: find it, then delete it.
pub open spec fn deletion_step(c: ClientView, key: Seq<char>, stage: ChangeView, reply: Option<ReplyView>) -> (ChangeView, Turn<()>) {
    match stage {
        ChangeView::Listing(ls) => match locate_step(c, key, ls, reply) {
            LocateView::Send(next, q) => (ChangeView::Listing(next), Turn::Send(q)),
            LocateView::Found(f) => (ChangeView::Applying, Turn::Send(deletion_request(c, f.id))),
            LocateView::Failed(e) => (ChangeView::Finished, Turn::Done(Err(e))),
        },
        ChangeView::Applying => (ChangeView::Finished, Turn::Done(removal(reply->0))),
        ChangeView::Finished => (ChangeView::Finished, Turn::Done(Err(ErrorView::ListingFailed))),
    }
}

/// Turning a flag on or off.
pub struct SetFlagActive<'a> {
    client: &'a PostHogClient,
    key: String,
    active: bool,
    stage: ChangeStage,
}

impl<'a> SetFlagActive<'a> {
    /// The client that changes.
    pub closed spec fn client(&self) -> ClientView {
        self.client.deep_view()
    }

    /// The key of the flag to change.
    pub closed spec fn key(&self) -> Seq<char> {
        self.key@
    }

    /// The state the flag is given.
    pub closed spec fn active(&self) -> bool {
        self.active
    }

    /// Where the change stands.
    pub closed spec fn stage(&self) -> ChangeView {
        self.stage.deep_view()
    }
}

impl<'a> Exchange for SetFlagActive<'a> {
    type Output = FeatureFlag;

    open spec fn accepts(&self, begin: bool) -> bool {
        change_accepts(self.stage(), begin)
    }

    fn advance(&mut self, reply: Option<Reply>) -> (step: Step<FeatureFlag>)
        ensures
            final(self).client() == old(self).client(),
            final(self).key() == old(self).key(),
            final(self).active() == old(self).active(),
            (final(self).stage(), step.deep_view()) == activation_step(
                old(self).client(),
                old(self).key(),
                old(self).active(),
                old(self).stage(),
                reply.deep_view(),
            ),
    {
        let mut stage = ChangeStage::Finished;
        std::mem::swap(&mut stage, &mut self.stage);
        match stage {
            ChangeStage::Listing(ls) => match locate_advance(self.client, self.key.as_str(), ls, reply) {
                Locate::Send(next, q) => {
                    self.stage = ChangeStage::Listing(next);
                    Step::Send(q)
                },
                Locate::Found(f) => {
                    self.stage = ChangeStage::Applying;
                    let url = flag_endpoint(self.client.host.as_str(), self.client.project_id, f.id);
                    let body = activation_body_text(self.active);
                    Step::Send(make_request(Method::Patch, url, self.client.api_key.as_str(), Some(body), Expect::Flag))
                },
                Locate::Failed(e) => Step::Done(Err(e)),
            },
            ChangeStage::Applying => Step::Done(changed_flag_of(Phase::Update, reply.unwrap())),
            ChangeStage::Finished => Step::Done(Err(ApiError::ListingFailed)),
        }
    }
}

/// Deleting a flag.
pub struct DeleteFlag<'a> {
    client: &'a PostHogClient,
    key: String,
    stage: ChangeStage,
}

impl<'a> DeleteFlag<'a> {
    /// The client that deletes.
    pub closed spec fn client(&self) -> ClientView {
        self.client.deep_view()
    }

    /// The key of the flag to delete.
    pub closed spec fn key(&self) -> Seq<char> {
        self.key@
    }

    /// Where the deletion stands.
    pub closed spec fn stage(&self) -> ChangeView {
        self.stage.deep_view()
    }
}

impl<'a> Exchange for DeleteFlag<'a> {
    type Output = ();

    open spec fn accepts(&self, begin: bool) -> bool {
        change_accepts(self.stage(), begin)
    }

    fn advance(&mut self, reply: Option<Reply>) -> (step: Step<()>)
        ensures
            final(self).client() == old(self).client(),
            final(self).key() == old(self).key(),
            (final(self).stage(), step.deep_view()) == deletion_step(
                old(self).client(),
                old(self).key(),
                old(self).stage(),
                reply.deep_view(),
            ),
    {
        let mut stage = ChangeStage::Finished;
        std::mem::swap(&mut stage, &mut self.stage);
        match stage {
            ChangeStage::Listing(ls) => match locate_advance(self.client, self.key.as_str(), ls, reply) {
                Locate::Send(next, q) => {
                    self.stage = ChangeStage::Listing(next);
                    Step::Send(q)
                },
                Locate::Found(f) => {
                    self.stage = ChangeStage::Applying;
                    let url = flag_endpoint(self.client.host.as_str(), self.client.project_id, f.id);
                    Step::Send(make_request(Method::Delete, url, self.client.api_key.as_str(), None, Expect::Nothing))
                },
                Locate::Failed(e) => Step::Done(Err(e)),
            },
            ChangeStage::Applying => Step::Done(removal_of(reply.unwrap())),
            ChangeStage::Finished => Step::Done(Err(ApiError::ListingFailed)),
        }
    }
}

// ---------------------------------------------------------------- creating a flag

/// Where the creation of a flag stands.
#[derive(Debug, Clone, Copy, PartialEq, Eq, Structural)]
pub enum CreateStage {
    Start,
    Posting,
    Finished,
}

/// One step of creating a boolean flag with the key `key`, on for everyone.
pub open spec fn creation_step(c: ClientView, key: Seq<char>, stage: CreateStage, reply: Option<ReplyView>) -> (CreateStage, Turn<FlagView>) {
    match stage {
        CreateStage::Start => (CreateStage::Posting, Turn::Send(creation_request(c, key))),
        CreateStage::Posting => (CreateStage::Finished, Turn::Done(changed_flag(Phase::Create, reply->0))),
        CreateStage::Finished => (CreateStage::Finished, Turn::Done(Err(ErrorView::ListingFailed))),
    }
}

/// Creating a flag.
pub struct CreateFlag<'a> {
    client: &'a PostHogClient,
    key: String,
    stage: CreateStage,
}

impl<'a> CreateFlag<'a> {
    pub closed spec fn client(&self) -> ClientView {
        self.client.deep_view()
    }

    pub closed spec fn key(&self) -> Seq<char> {
        self.key@
    }

    pub closed spec fn stage(&self) -> CreateStage {
        self.stage
    }
}

impl<'a> Exchange for CreateFlag<'a> {
    type Output = FeatureFlag;

    open spec fn accepts(&self, begin: bool) -> bool {
        match self.stage() {
            CreateStage::Start => begin,
            CreateStage::Posting => !begin,
            CreateStage::Finished => false,
        }
    }

    fn advance(&mut self, reply: Option<Reply>) -> (step: Step<FeatureFlag>)
        ensures
            final(self).client() == old(self).client(),
            final(self).key() == old(self).key(),
            (final(self).stage(), step.deep_view()) == creation_step(
                old(self).client(),
                old(self).key(),
                old(self).stage(),
                reply.deep_view(),
            ),
    {
        match self.stage {
            CreateStage::Start => {
                self.stage = CreateStage::Posting;
                let url = flags_endpoint(self.client.host.as_str(), self.client.project_id);
                let quoted = match json_string_literal(self.key.as_str()) {
                    Ok(text) => text,
                    Err(_) => String::new(),
                };
                let body = creation_body_text(quoted.as_str());
                Step::Send(make_request(Method::Post, url, self.client.api_key.as_str(), Some(body), Expect::Flag))
            },
            CreateStage::Posting => {
                self.stage = CreateStage::Finished;
                Step::Done(changed_flag_of(Phase::Create, reply.unwrap()))
            },
            CreateStage::Finished => Step::Done(Err(ApiError::ListingFailed)),
        }
    }
}

// ---------------------------------------------------------------- making a client

/// Where the making of a client stands.
#[derive(Debug, Clone, Copy, PartialEq, Eq, Structural)]
pub enum SetupStage {
    /// Not begun.
    Start,
    /// Waiting for the local evaluation endpoint, to read the project from its flags.
    LocalEvaluation,
    /// Waiting for the list of projects.
    Projects,
    /// Over.
    Finished,
}

/// The client for the project `project_id`, on the host and key of `base`.
pub open spec fn with_project(base: ClientView, project_id: i64) -> ClientView {
    ClientView { host: base.host, api_key: base.api_key, project_id }
}

/// The client that a configuration describes before its project is known: the
/// host without its trailing `/`, the key, and project 0.
pub open spec fn base_client(config: crate::model::ConfigView) -> ClientView {
    ClientView { host: trim_trailing_slashes(config.host), api_key: config.api_key, project_id: 0 }
}

/// One step of making a client: the configured project when there is one; else
/// the project of the first flag that the local evaluation endpoint lists, or,
/// when that endpoint refuses, the first project of the account.
pub open spec fn setup_step(base: ClientView, configured: Option<i64>, stage: SetupStage, reply: Option<ReplyView>) -> (SetupStage, Turn<ClientView>) {
    match stage {
        SetupStage::Start => match configured {
            Some(id) => (SetupStage::Finished, Turn::Done(Ok(with_project(base, id)))),
            None => (SetupStage::LocalEvaluation, Turn::Send(local_evaluation_request(base))),
        },
        SetupStage::LocalEvaluation => match fetched(reply->0) {
            FetchView::Failed(e) => (SetupStage::Finished, Turn::Done(Err(e))),
            FetchView::Declined => (SetupStage::Projects, Turn::Send(project_page_request(base))),
            FetchView::Delivered(PayloadView::LocalEvaluation(ls)) => (
                SetupStage::Finished,
                Turn::Done(
                    if ls.len() > 0 {
                        Ok(with_project(base, ls[0].team_id))
                    } else {
                        Err(ErrorView::NoFlagsForProjectId)
                    },
                ),
            ),
            FetchView::Delivered(p) => (
                SetupStage::Finished,
                Turn::Done(Err(ErrorView::Unparsable { phase: Phase::Read, detail: unparsed_detail(p) })),
            ),
        },
        SetupStage::Projects => match fetched(reply->0) {
            FetchView::Failed(e) => (SetupStage::Finished, Turn::Done(Err(e))),
            FetchView::Declined => (SetupStage::Finished, Turn::Done(Err(ErrorView::ProjectDiscoveryFailed))),
            FetchView::Delivered(PayloadView::ProjectPage(ps)) => (
                SetupStage::Finished,
                Turn::Done(
                    if ps.len() > 0 {
                        Ok(with_project(base, ps[0]))
                    } else {
                        Err(ErrorView::NoProjects)
                    },
                ),
            ),
            FetchView::Delivered(p) => (
                SetupStage::Finished,
                Turn::Done(Err(ErrorView::Unparsable { phase: Phase::Read, detail: unparsed_detail(p) })),
            ),
        },
        SetupStage::Finished => (SetupStage::Finished, Turn::Done(Err(ErrorView::NoProjects))),
    }
}

/// The making of a client from a configuration.
pub struct ClientSetup {
    base: PostHogClient,
    configured: Option<i64>,
    stage: SetupStage,
}

impl ClientSetup {
    pub closed spec fn base(&self) -> ClientView {
        self.base.deep_view()
    }

    pub closed spec fn configured(&self) -> Option<i64> {
        self.configured
    }

    pub closed spec fn stage(&self) -> SetupStage {
        self.stage
    }

    fn client_for(&self, project_id: i64) -> (c: PostHogClient)
        ensures
            c.deep_view() == with_project(self.base(), project_id),
    {
        PostHogClient {
            host: self.base.host.clone(),
            api_key: self.base.api_key.clone(),
            project_id,
        }
    }
}

impl Exchange for ClientSetup {
    type Output = PostHogClient;

    open spec fn accepts(&self, begin: bool) -> bool {
        match self.stage() {
            SetupStage::Start => begin,
            SetupStage::LocalEvaluation | SetupStage::Projects => !begin,
            SetupStage::Finished => false,
        }
    }

    fn advance(&mut self, reply: Option<Reply>) -> (step: Step<PostHogClient>)
        ensures
            final(self).base() == old(self).base(),
            final(self).configured() == old(self).configured(),
            (final(self).stage(), step.deep_view()) == setup_step(
                old(self).base(),
                old(self).configured(),
                old(self).stage(),
                reply.deep_view(),
            ),
    {
        match self.stage {
            SetupStage::Start => match self.configured {
                Some(id) => {
                    self.stage = SetupStage::Finished;
                    Step::Done(Ok(self.client_for(id)))
                },
                None => {
                    self.stage = SetupStage::LocalEvaluation;
                    let url = local_evaluation_endpoint(self.base.host.as_str());
                    Step::Send(self.base.read(url, Expect::LocalEvaluation))
                },
            },
            SetupStage::LocalEvaluation => {
                self.stage = SetupStage::Finished;
                match try_get(reply.unwrap()) {
                    Fetch::Failed(e) => Step::Done(Err(e)),
                    Fetch::Declined => {
                        self.stage = SetupStage::Projects;
                        let url = projects_endpoint(self.base.host.as_str());
                        Step::Send(self.base.read(url, Expect::ProjectPage))
                    },
                    Fetch::Delivered(Payload::LocalEvaluation(entries)) => {
                        if entries.len() > 0 {
                            Step::Done(Ok(self.client_for(entries[0].team_id)))
                        } else {
                            Step::Done(Err(ApiError::NoFlagsForProjectId))
                        }
                    },
                    Fetch::Delivered(other) => Step::Done(Err(unparsable(Phase::Read, other))),
                }
            },
            SetupStage::Projects => {
                self.stage = SetupStage::Finished;
                match try_get(reply.unwrap()) {
                    Fetch::Failed(e) => Step::Done(Err(e)),
                    Fetch::Declined => Step::Done(Err(ApiError::ProjectDiscoveryFailed)),
                    Fetch::Delivered(Payload::ProjectPage(projects)) => {
                        if projects.len() > 0 {
                            Step::Done(Ok(self.client_for(projects[0].id)))
                        } else {
                            Step::Done(Err(ApiError::NoProjects))
                        }
                    },
                    Fetch::Delivered(other) => Step::Done(Err(unparsable(Phase::Read, other))),
                }
            },
            SetupStage::Finished => Step::Done(Err(ApiError::NoProjects)),
        }
    }
}

// ---------------------------------------------------------------- the operations

impl PostHogClient {
    /// Begins making a client from `config`: its host without trailing `/`, its
    /// key, and its project, or the project found through the API.
    pub fn new(config: &Config) -> (setup: ClientSetup)
        ensures
            setup.base() == base_client(config.deep_view()),
            setup.configured() == config.project_id,
            setup.stage() == SetupStage::Start,
    {
        let base = PostHogClient {
            host: trim_trailing_slashes_text(config.host.as_str()),
            api_key: config.api_key.clone(),
            project_id: 0,
        };
        ClientSetup { base, configured: config.project_id, stage: SetupStage::Start }
    }

    /// Begins listing all the project's flags that are not deleted.
    pub fn list_flags(&self) -> (op: ListFlags<'_>)
        ensures
            op.client() == self.deep_view(),
            op.stage() == ListView::Start,
    {
        ListFlags { client: self, stage: ListStage::Start }
    }

    /// Begins getting the first listed flag with the key `key`.
    pub fn get_flag_by_key(&self, key: &str) -> (op: FlagLookup<'_>)
        ensures
            op.client() == self.deep_view(),
            op.key() == key@,
            op.stage() == ListView::Start,
    {
        FlagLookup { client: self, key: key.to_owned(), stage: ListStage::Start }
    }

    /// Begins creating a boolean flag with the key (and name) `key`, on for everyone.
    pub fn create_flag(&self, key: &str) -> (op: CreateFlag<'_>)
        ensures
            op.client() == self.deep_view(),
            op.key() == key@,
            op.stage() == CreateStage::Start,
    {
        CreateFlag { client: self, key: key.to_owned(), stage: CreateStage::Start }
    }

    /// Begins turning the flag with the key `key` on or off.
    pub fn set_flag_active(&self, key: &str, active: bool) -> (op: SetFlagActive<'_>)
        ensures
            op.client() == self.deep_view(),
            op.key() == key@,
            op.active() == active,
            op.stage() == ChangeView::Listing(ListView::Start),
    {
        SetFlagActive {
            client: self,
            key: key.to_owned(),
            active,
            stage: ChangeStage::Listing(ListStage::Start),
        }
    }

    /// Begins deleting the flag with the key `key`.
    pub fn delete_flag(&self, key: &str) -> (op: DeleteFlag<'_>)
        ensures
            op.client() == self.deep_view(),
            op.key() == key@,
            op.stage() == ChangeView::Listing(ListView::Start),
    {
        DeleteFlag { client: self, key: key.to_owned(), stage: ChangeStage::Listing(ListStage::Start) }
    }
}

} // verus!
