//! What each operation of the client ends with, stated over what the server
//! answered: the fields a flag keeps, which flag a lookup or a change is about,
//! and which project a client is made for.

use vstd::prelude::*;
use crate::api::{
    activation_step, creation_step, deletion_step, lemma_first_with_key_exists, list_step,
    lookup_step, setup_step, ChangeView, ClientView, CreateStage, ListView, SetupStage,
};
use crate::error::{ErrorView, Phase};
use crate::http::{is_success, status_text, Expect, Method, PayloadView, ReplyView, RequestView, Turn};
use crate::json::json_string;
use crate::model::{first_with_key, has_key, live_local_flags, FlagView, LocalFlagView};
use crate::report::flag_row;

verus! {

// ---------------------------------------------------------------- local evaluation

/// The entries of `ls` that are not deleted, in their order.
pub open spec fn live_entries(ls: Seq<LocalFlagView>) -> Seq<LocalFlagView>
    decreases ls.len(),
{
    if ls.len() == 0 {
        Seq::empty()
    } else if ls.last().deleted {
        live_entries(ls.drop_last())
    } else {
        live_entries(ls.drop_last()).push(ls.last())
    }
}

/// Whether the flag `f` stands for the entry `l`: every field of the entry kept,
/// and no creation time.
pub open spec fn stands_for(f: FlagView, l: LocalFlagView) -> bool {
    &&& f.id == l.id
    &&& f.key == l.key
    &&& f.name == l.name
    &&& f.active == l.active
    &&& f.deleted == l.deleted
    &&& f.filters == l.filters
    &&& f.created_at == Seq::<char>::empty()
}

proof fn lemma_live_local_flags_stand_for_live_entries(ls: Seq<LocalFlagView>)
    ensures
        live_local_flags(ls).len() == live_entries(ls).len(),
        forall|i: int|
            0 <= i < live_entries(ls).len() ==> stands_for(
                #[trigger] live_local_flags(ls)[i],
                live_entries(ls)[i],
            ),
    decreases ls.len(),
{
    if ls.len() > 0 {
        lemma_live_local_flags_stand_for_live_entries(ls.drop_last());
    }
}

/// When the management API refuses and the local evaluation endpoint answers with
/// entries, the listing gives one flag for each entry that is not deleted, in their
/// order, each keeping the entry's id, key, name, state, deletion mark and filters,
/// with no creation time.
pub proof fn law_local_evaluation_flags_keep_their_fields(
    c: ClientView,
    status: u16,
    text: Seq<char>,
    ls: Seq<LocalFlagView>,
)
    requires
        is_success(status),
    ensures
        list_step(
            c,
            ListView::LocalEvaluation,
            Some(ReplyView::Answered { status, text, payload: PayloadView::LocalEvaluation(ls) }),
        ).1 matches Turn::Done(Ok(fs)) && fs.len() == live_entries(ls).len() && (forall|i: int|
            0 <= i < fs.len() ==> stands_for(#[trigger] fs[i], live_entries(ls)[i])),
{
    lemma_live_local_flags_stand_for_live_entries(ls);
}

// ---------------------------------------------------------------- lookup

/// When the listing ends with the flags `fs`, getting the flag with the key `key`
/// ends with the first of `fs` that has that key, exactly as listed, or, when none
/// has it, with the error that names the key.
pub proof fn law_lookup_ends_with_the_first_flag_with_the_key(
    c: ClientView,
    key: Seq<char>,
    stage: ListView,
    reply: Option<ReplyView>,
    fs: Seq<FlagView>,
)
    requires
        list_step(c, stage, reply).1 == Turn::<Seq<FlagView>>::Done(Ok(fs)),
    ensures
        has_key(fs, key) ==> (exists|i: int|
            first_with_key(fs, key, i) && lookup_step(c, key, stage, reply).1 == Turn::<FlagView>::Done(
                Ok(fs[i]),
            )),
        !has_key(fs, key) ==> lookup_step(c, key, stage, reply).1 == Turn::<FlagView>::Done(
            Err(ErrorView::FlagNotFound { key }),
        ),
{
    if has_key(fs, key) {
        lemma_first_with_key_exists(fs, key);
    }
}

// ---------------------------------------------------------------- changes

/// When the listing ends with the flags `fs`, one of which has the key `key`, the
/// change sends a PATCH with the client's key to the URL of the first of `fs` with
/// that key, whose body sets the asked state.
pub proof fn law_activation_patches_the_first_flag_with_the_key(
    c: ClientView,
    key: Seq<char>,
    active: bool,
    stage: ListView,
    reply: Option<ReplyView>,
    fs: Seq<FlagView>,
)
    requires
        list_step(c, stage, reply).1 == Turn::<Seq<FlagView>>::Done(Ok(fs)),
        has_key(fs, key),
    ensures
        exists|i: int|
            first_with_key(fs, key, i) && activation_step(c, key, active, ChangeView::Listing(stage), reply)
                == (ChangeView::Applying, Turn::<FlagView>::Send(RequestView {
                method: Method::Patch,
                url: c.host + "/api/projects/"@ + crate::text::decimal(c.project_id as int)
                    + "/feature_flags/"@ + crate::text::decimal(fs[i].id as int) + "/"@,
                bearer: c.api_key,
                body: Some(if active { "{\"active\":true}"@ } else { "{\"active\":false}"@ }),
                expect: Expect::Flag,
            })),
{
    lemma_first_with_key_exists(fs, key);
}

/// When the listing ends with the flags `fs`, one of which has the key `key`, the
/// deletion sends a DELETE with the client's key, and no body, to the URL of the
/// first of `fs` with that key.
pub proof fn law_deletion_goes_to_the_first_flag_with_the_key(
    c: ClientView,
    key: Seq<char>,
    stage: ListView,
    reply: Option<ReplyView>,
    fs: Seq<FlagView>,
)
    requires
        list_step(c, stage, reply).1 == Turn::<Seq<FlagView>>::Done(Ok(fs)),
        has_key(fs, key),
    ensures
        exists|i: int|
            first_with_key(fs, key, i) && deletion_step(c, key, ChangeView::Listing(stage), reply) == (
                ChangeView::Applying,
                Turn::<()>::Send(RequestView {
                    method: Method::Delete,
                    url: c.host + "/api/projects/"@ + crate::text::decimal(c.project_id as int)
                    + "/feature_flags/"@ + crate::text::decimal(fs[i].id as int) + "/"@,
                    bearer: c.api_key,
                    body: None,
                    expect: Expect::Nothing,
                }),
            ),
{
    lemma_first_with_key_exists(fs, key);
}

/// When no listed flag has the key, a change or a deletion sends nothing more and
/// ends with the error that names the key.
pub proof fn law_changes_of_a_missing_flag_fail(
    c: ClientView,
    key: Seq<char>,
    active: bool,
    stage: ListView,
    reply: Option<ReplyView>,
    fs: Seq<FlagView>,
)
    requires
        list_step(c, stage, reply).1 == Turn::<Seq<FlagView>>::Done(Ok(fs)),
        !has_key(fs, key),
    ensures
        activation_step(c, key, active, ChangeView::Listing(stage), reply).1 == Turn::<FlagView>::Done(
            Err(ErrorView::FlagNotFound { key }),
        ),
        deletion_step(c, key, ChangeView::Listing(stage), reply).1 == Turn::<()>::Done(
            Err(ErrorView::FlagNotFound { key }),
        ),
{
}

/// A change that the server accepts and answers with a flag ends with that flag,
/// exactly as the server sent it; one it refuses ends with the status and body.
pub proof fn law_change_ends_with_the_flag_the_server_sent(
    c: ClientView,
    key: Seq<char>,
    active: bool,
    status: u16,
    text: Seq<char>,
    f: FlagView,
)
    ensures
        is_success(status) ==> activation_step(
            c,
            key,
            active,
            ChangeView::Applying,
            Some(ReplyView::Answered { status, text, payload: PayloadView::Flag(f) }),
        ) == (ChangeView::Finished, Turn::<FlagView>::Done(Ok(f))),
        is_success(status) ==> creation_step(
            c,
            key,
            CreateStage::Posting,
            Some(ReplyView::Answered { status, text, payload: PayloadView::Flag(f) }),
        ) == (CreateStage::Finished, Turn::<FlagView>::Done(Ok(f))),
        !is_success(status) ==> activation_step(
            c,
            key,
            active,
            ChangeView::Applying,
            Some(ReplyView::Answered { status, text, payload: PayloadView::Flag(f) }),
        ).1 == Turn::<FlagView>::Done(
            Err(ErrorView::Rejected { phase: Phase::Update, status: status_text(status), body: text }),
        ),
{
}

/// Creating the flag `key` first sends one POST with the client's key to the
/// project's flags URL, whose body makes an active flag named and keyed by `key`
/// (as a JSON string) that is rolled out to everyone; a refusal of it ends with
/// the status and body.
pub proof fn law_creation_posts_an_active_flag_for_everyone(
    c: ClientView,
    key: Seq<char>,
    reply: Option<ReplyView>,
    status: u16,
    text: Seq<char>,
    payload: PayloadView,
)
    ensures
        creation_step(c, key, CreateStage::Start, reply) == (
            CreateStage::Posting,
            Turn::<FlagView>::Send(RequestView {
                method: Method::Post,
                url: c.host + "/api/projects/"@ + crate::text::decimal(c.project_id as int)
                    + "/feature_flags/"@,
                bearer: c.api_key,
                body: Some(
                    "{\"active\":true,\"filters\":{\"groups\":[{\"properties\":[],\"rollout_percentage\":100}]},\"key\":"@
                        + json_string(key) + ",\"name\":"@ + json_string(key) + "}"@,
                ),
                expect: Expect::Flag,
            }),
        ),
        !is_success(status) ==> creation_step(
            c,
            key,
            CreateStage::Posting,
            Some(ReplyView::Answered { status, text, payload }),
        ).1 == Turn::<FlagView>::Done(
            Err(ErrorView::Rejected { phase: Phase::Create, status: status_text(status), body: text }),
        ),
{
}

/// A deletion that the server accepts ends well, whatever the body; one it refuses
/// ends with the status and body.
pub proof fn law_deletion_ends_as_the_server_answered(
    c: ClientView,
    key: Seq<char>,
    status: u16,
    text: Seq<char>,
    payload: PayloadView,
)
    ensures
        is_success(status) ==> deletion_step(
            c,
            key,
            ChangeView::Applying,
            Some(ReplyView::Answered { status, text, payload }),
        ) == (ChangeView::Finished, Turn::<()>::Done(Ok(()))),
        !is_success(status) ==> deletion_step(
            c,
            key,
            ChangeView::Applying,
            Some(ReplyView::Answered { status, text, payload }),
        ).1 == Turn::<()>::Done(
            Err(ErrorView::Rejected { phase: Phase::Delete, status: status_text(status), body: text }),
        ),
{
}

// ---------------------------------------------------------------- the project

/// Finding the project ends with a client on the configured host and key, for the
/// project of the first entry that the local evaluation endpoint lists, or, after
/// it refused, for the first project of the list of projects; with no entry or no
/// project, it ends with the error that says so.
pub proof fn law_discovery_takes_the_first_project(
    base: ClientView,
    status: u16,
    text: Seq<char>,
    ls: Seq<LocalFlagView>,
    ps: Seq<i64>,
)
    requires
        is_success(status),
    ensures
        ls.len() > 0 ==> setup_step(
            base,
            None,
            SetupStage::LocalEvaluation,
            Some(ReplyView::Answered { status, text, payload: PayloadView::LocalEvaluation(ls) }),
        ).1 == Turn::<ClientView>::Done(
            Ok(ClientView { host: base.host, api_key: base.api_key, project_id: ls[0].team_id }),
        ),
        ls.len() == 0 ==> setup_step(
            base,
            None,
            SetupStage::LocalEvaluation,
            Some(ReplyView::Answered { status, text, payload: PayloadView::LocalEvaluation(ls) }),
        ).1 == Turn::<ClientView>::Done(Err(ErrorView::NoFlagsForProjectId)),
        ps.len() > 0 ==> setup_step(
            base,
            None,
            SetupStage::Projects,
            Some(ReplyView::Answered { status, text, payload: PayloadView::ProjectPage(ps) }),
        ).1 == Turn::<ClientView>::Done(
            Ok(ClientView { host: base.host, api_key: base.api_key, project_id: ps[0] }),
        ),
        ps.len() == 0 ==> setup_step(
            base,
            None,
            SetupStage::Projects,
            Some(ReplyView::Answered { status, text, payload: PayloadView::ProjectPage(ps) }),
        ).1 == Turn::<ClientView>::Done(Err(ErrorView::NoProjects)),
{
}

// ---------------------------------------------------------------- the table

/// The row of a flag shows its own key and name, `yes` when it is active and `no`
/// when it is not, and so two flags that differ in their state alone get rows
/// that differ in the state column alone.
pub proof fn law_row_shows_the_state_of_its_flag(f: FlagView, g: FlagView)
    ensures
        flag_row(f).key == f.key,
        flag_row(f).name == f.name,
        f.active ==> flag_row(f).active == "yes"@,
        !f.active ==> flag_row(f).active == "no"@,
        (f.key == g.key && f.name == g.name && f.created_at == g.created_at && f.active != g.active)
            ==> flag_row(f).key == flag_row(g).key && flag_row(f).name == flag_row(g).name
            && flag_row(f).created == flag_row(g).created && flag_row(f).active != flag_row(g).active,
{
    reveal_strlit("yes");
    reveal_strlit("no");
    assert("yes"@.len() != "no"@.len());
}

} // verus!
