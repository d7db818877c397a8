//! Properties of the client as a whole, proved over the specifications of its
//! operations.

use vstd::prelude::*;
use crate::api::{
    activation_request, activation_step, change_accepts, list_accepts, base_client, creation_step, deletion_request,
    deletion_step, find_flag, flag_url, flags_url, lemma_first_with_key_exists, list_step,
    local_evaluation_request, local_evaluation_url, lookup_step, project_page_request,
    next_page_request, projects_url, setup_step, ChangeView, ClientView, CreateStage,
    ListView, SetupStage,
};
use crate::cli::{end_of_options, first_option, is_option, keyed_command, parse_command_line, without, CommandView};
use crate::error::{error_message, ErrorView, Phase};
use crate::http::{is_success, status_text, Method, PayloadView, ReplyView, RequestView, Turn};
use crate::model::{first_with_key, has_key, live_flags, live_local_flags, ConfigView, FlagView, LocalFlagView};
use crate::text::trim_trailing_slashes;

verus! {

// ---------------------------------------------------------------- the host

/// The host of a client never ends with `/`; the configured host is it followed
/// by `/` characters only; trimming it again changes nothing.
pub proof fn law_host_is_trimmed(s: Seq<char>)
    ensures
        trim_trailing_slashes(s).len() <= s.len(),
        s.take(trim_trailing_slashes(s).len() as int) == trim_trailing_slashes(s),
        forall|i: int| trim_trailing_slashes(s).len() <= i < s.len() ==> s[i] == '/',
        trim_trailing_slashes(s).len() > 0 ==> trim_trailing_slashes(s).last() != '/',
        trim_trailing_slashes(trim_trailing_slashes(s)) == trim_trailing_slashes(s),
    decreases s.len(),
{
    if s.len() > 0 && s.last() == '/' {
        let init = s.drop_last();
        law_host_is_trimmed(init);
        let t = trim_trailing_slashes(s);
        assert(t == trim_trailing_slashes(init));
        assert(s.take(t.len() as int) =~= init.take(t.len() as int));
        assert forall|i: int| t.len() <= i < s.len() implies s[i] == '/' by {
            if i < s.len() - 1 {
                assert(s[i] == init[i]);
            }
        }
    } else {
        assert(s.take(s.len() as int) =~= s);
    }
}

/// A configured project is taken as it is, with no request: the client has the
/// trimmed host, the key, and that project.
pub proof fn law_configured_project_needs_no_request(config: ConfigView, id: i64)
    requires
        config.project_id == Some(id),
    ensures
        setup_step(base_client(config), config.project_id, SetupStage::Start, None) == (
            SetupStage::Finished,
            Turn::<ClientView>::Done(Ok(ClientView {
                host: trim_trailing_slashes(config.host),
                api_key: config.api_key,
                project_id: id,
            })),
        ),
{
}

// ---------------------------------------------------------------- listing

/// No flag that `live_flags` keeps is deleted, and it keeps every flag that is not.
pub proof fn law_live_flags_are_the_undeleted(fs: Seq<FlagView>)
    ensures
        forall|i: int| 0 <= i < live_flags(fs).len() ==> !(#[trigger] live_flags(fs)[i]).deleted,
        forall|f: FlagView| #[trigger] live_flags(fs).contains(f) <==> (fs.contains(f) && !f.deleted),
    decreases fs.len(),
{
    if fs.len() > 0 {
        let init = fs.drop_last();
        law_live_flags_are_the_undeleted(init);
        let l = live_flags(init);
        assert forall|i: int| 0 <= i < live_flags(fs).len() implies !(#[trigger] live_flags(fs)[i]).deleted by {
            if fs.last().deleted {
                assert(live_flags(fs)[i] == l[i]);
            } else if i < l.len() {
                assert(live_flags(fs)[i] == l[i]);
            }
        }
        assert forall|f: FlagView| fs.contains(f) <==> (init.contains(f) || f == fs.last()) by {
            if fs.contains(f) {
                let i = choose|i: int| 0 <= i < fs.len() && fs[i] == f;
                if i < fs.len() - 1 {
                    assert(init[i] == f);
                }
            }
            if init.contains(f) {
                let i = choose|i: int| 0 <= i < init.len() && init[i] == f;
                assert(fs[i] == f);
            }
            if f == fs.last() {
                assert(fs[fs.len() - 1] == f);
            }
        }
        if !fs.last().deleted {
            assert(live_flags(fs) == l.push(fs.last()));
            assert forall|f: FlagView| l.push(fs.last()).contains(f) <==> (l.contains(f) || f == fs.last()) by {
                if l.push(fs.last()).contains(f) {
                    let i = choose|i: int| 0 <= i < l.len() + 1 && l.push(fs.last())[i] == f;
                    if i < l.len() {
                        assert(l[i] == f);
                    }
                }
                if l.contains(f) {
                    let i = choose|i: int| 0 <= i < l.len() && l[i] == f;
                    assert(l.push(fs.last())[i] == f);
                }
                if f == fs.last() {
                    assert(l.push(fs.last())[l.len() as int] == f);
                }
            }
        } else {
            assert(live_flags(fs) == l);
        }
        assert forall|f: FlagView| #[trigger] live_flags(fs).contains(f) <==> (fs.contains(f) && !f.deleted) by {
            assert(l.contains(f) <==> (init.contains(f) && !f.deleted));
            assert(fs.contains(f) <==> (init.contains(f) || f == fs.last()));
        }
    } else {
        assert forall|f: FlagView| #[trigger] live_flags(fs).contains(f) <==> (fs.contains(f) && !f.deleted) by {
            assert(live_flags(fs) =~= Seq::<FlagView>::empty());
            if fs.contains(f) {
                let i = choose|i: int| 0 <= i < fs.len() && fs[i] == f;
            }
        }
    }
}

/// No flag that the local evaluation entries give is deleted.
pub proof fn law_live_local_flags_are_undeleted(ls: Seq<LocalFlagView>)
    ensures
        forall|i: int| 0 <= i < live_local_flags(ls).len() ==> !(#[trigger] live_local_flags(ls)[i]).deleted,
    decreases ls.len(),
{
    if ls.len() > 0 {
        let init = ls.drop_last();
        law_live_local_flags_are_undeleted(init);
        let l = live_local_flags(init);
        assert forall|i: int| 0 <= i < live_local_flags(ls).len() implies !(#[trigger] live_local_flags(ls)[i]).deleted by {
            if ls.last().deleted {
                assert(live_local_flags(ls)[i] == l[i]);
            } else if i < l.len() {
                assert(live_local_flags(ls)[i] == l[i]);
            }
        }
    }
}

/// Whether none of `fs` is deleted.
pub open spec fn none_deleted(fs: Seq<FlagView>) -> bool {
    forall|i: int| 0 <= i < fs.len() ==> !(#[trigger] fs[i]).deleted
}

/// Whether the flags that a listing has gathered so far are all undeleted.
pub open spec fn gathered_undeleted(stage: ListView) -> bool {
    stage matches ListView::Management(before) ==> none_deleted(before)
}

/// The listing of flags never gives a deleted flag, whichever endpoint answered
/// and however many pages it read: the flags it gathers stay undeleted at every step.
pub proof fn law_listing_has_no_deleted_flag(c: ClientView, stage: ListView, reply: Option<ReplyView>)
    requires
        gathered_undeleted(stage),
    ensures
        gathered_undeleted(list_step(c, stage, reply).0),
        list_step(c, stage, reply).1 matches Turn::Done(Ok(fs)) ==> none_deleted(fs),
{
    match stage {
        ListView::Management(before) => match crate::http::fetched(reply->0) {
            crate::http::FetchView::Delivered(crate::http::PayloadView::FlagPage(fs, next)) => {
                law_live_flags_are_the_undeleted(fs);
                let all = before + live_flags(fs);
                assert forall|i: int| 0 <= i < all.len() implies !(#[trigger] all[i]).deleted by {
                    if i < before.len() {
                        assert(all[i] == before[i]);
                    } else {
                        assert(all[i] == live_flags(fs)[i - before.len()]);
                    }
                }
            },
            _ => {},
        },
        ListView::LocalEvaluation => match crate::http::fetched(reply->0) {
            crate::http::FetchView::Delivered(crate::http::PayloadView::LocalEvaluation(ls)) => {
                law_live_local_flags_are_undeleted(ls);
            },
            _ => {},
        },
        _ => {},
    }
}

/// While the management API answers, the listing reads its pages one after the
/// other: a page with a link to a next page asks for that page and keeps the
/// page's live flags after those gathered; the last page ends the listing with all
/// of them, in order. It asks the local evaluation endpoint only when the
/// management API answered with a status that is no success.
pub proof fn law_listing_reads_every_page(c: ClientView, before: Seq<FlagView>, reply: ReplyView)
    ensures
        (list_step(c, ListView::Management(before), Some(reply)).1 == Turn::<Seq<FlagView>>::Send(
            local_evaluation_request(c),
        )) <==> (reply matches ReplyView::Answered { status, .. } && !is_success(status)),
        reply matches ReplyView::Answered { status, payload: PayloadView::FlagPage(fs, next), .. } ==> (
            is_success(status) ==> list_step(c, ListView::Management(before), Some(reply)) == match next {
                Some(url) => (
                    ListView::Management(before + live_flags(fs)),
                    Turn::<Seq<FlagView>>::Send(next_page_request(c, url)),
                ),
                None => (ListView::Finished, Turn::<Seq<FlagView>>::Done(Ok(before + live_flags(fs)))),
            }),
{
    if let ReplyView::Answered { status, payload, .. } = reply {
        if is_success(status) {
            if let PayloadView::FlagPage(fs, Some(url)) = payload {
                assert(next_page_request(c, url).expect != local_evaluation_request(c).expect);
            }
        }
    }
}

/// Finding the project asks for the list of projects only when the local
/// evaluation endpoint answered with a status that is no success.
pub proof fn law_discovery_falls_back_only_on_refusal(base: ClientView, reply: ReplyView)
    ensures
        (setup_step(base, None, SetupStage::LocalEvaluation, Some(reply)).1 is Send) <==> (reply matches ReplyView::Answered { status, .. } && !is_success(status)),
        setup_step(base, None, SetupStage::LocalEvaluation, Some(reply)).1 is Send ==> setup_step(base, None, SetupStage::LocalEvaluation, Some(reply)) == (
            SetupStage::Projects,
            Turn::<ClientView>::Send(project_page_request(base)),
        ),
{
}

// ---------------------------------------------------------------- requests

/// Whether the client `c` sends `q`: with its key, to a URL under its API.
pub open spec fn sent_by(c: ClientView, q: RequestView) -> bool {
    &&& q.bearer == c.api_key
    &&& (c.host + "/api/"@).is_prefix_of(q.url)
}

proof fn lemma_urls_are_under_the_api(c: ClientView)
    ensures
        (c.host + "/api/"@).is_prefix_of(local_evaluation_url(c.host)),
        (c.host + "/api/"@).is_prefix_of(projects_url(c.host)),
        (c.host + "/api/"@).is_prefix_of(flags_url(c.host, c.project_id)),
        forall|id: i64| (c.host + "/api/"@).is_prefix_of(#[trigger] flag_url(c.host, c.project_id, id)),
{
    reveal_strlit("/api/");
    reveal_strlit("/api/projects/");
    reveal_strlit("/api/feature_flag/local_evaluation/");
    let p = c.host + "/api/"@;
    assert(p =~= local_evaluation_url(c.host).subrange(0, p.len() as int));
    assert(p =~= projects_url(c.host).subrange(0, p.len() as int));
    assert(p =~= flags_url(c.host, c.project_id).subrange(0, p.len() as int));
    assert forall|id: i64| p.is_prefix_of(#[trigger] flag_url(c.host, c.project_id, id)) by {
        assert(p =~= flag_url(c.host, c.project_id, id).subrange(0, p.len() as int));
    }
}

/// The link to a next page that a reply gave, when it gave one.
pub open spec fn next_link(reply: Option<ReplyView>) -> Option<Seq<char>> {
    match reply {
        Some(ReplyView::Answered { payload: PayloadView::FlagPage(_, next), .. }) => next,
        _ => None,
    }
}

/// Whether the client `c` sends `q` after `reply`: with its key, to a URL under its
/// API or to the next page that the reply linked to.
pub open spec fn sent_or_followed(c: ClientView, q: RequestView, reply: Option<ReplyView>) -> bool {
    &&& q.bearer == c.api_key
    &&& ((c.host + "/api/"@).is_prefix_of(q.url) || next_link(reply) == Some(q.url))
}

/// Every request of a listing reads, carries the client's key, and goes to a URL
/// under its API or to the next page that the last answer linked to.
pub proof fn law_listing_requests_are_authenticated(c: ClientView, stage: ListView, reply: Option<ReplyView>)
    requires
        list_accepts(stage, reply is None),
    ensures
        list_step(c, stage, reply).1 matches Turn::Send(q) ==> sent_or_followed(c, q, reply) && q.method
            == Method::Get,
{
    lemma_urls_are_under_the_api(c);
}

/// Every request of a lookup of a flag carries the client's key, to a URL under its
/// API or to the next page of flags that the last answer linked to.
pub proof fn law_lookup_requests_are_authenticated(c: ClientView, key: Seq<char>, stage: ListView, reply: Option<ReplyView>)
    requires
        list_accepts(stage, reply is None),
    ensures
        lookup_step(c, key, stage, reply).1 matches Turn::Send(q) ==> sent_or_followed(c, q, reply),
{
    lemma_urls_are_under_the_api(c);
}

/// Every request of a change or a deletion of a flag carries the client's key, to a
/// URL under its API or to the next page of flags that the last answer linked to.
pub proof fn law_change_requests_are_authenticated(
    c: ClientView,
    key: Seq<char>,
    active: bool,
    stage: ChangeView,
    reply: Option<ReplyView>,
)
    requires
        change_accepts(stage, reply is None),
    ensures
        activation_step(c, key, active, stage, reply).1 matches Turn::Send(q) ==> sent_or_followed(c, q, reply),
        deletion_step(c, key, stage, reply).1 matches Turn::Send(q) ==> sent_or_followed(c, q, reply),
{
    lemma_urls_are_under_the_api(c);
}

/// The request that creates a flag carries the client's key to a URL under its API.
pub proof fn law_creation_request_is_authenticated(c: ClientView, key: Seq<char>, stage: CreateStage, reply: Option<ReplyView>)
    ensures
        creation_step(c, key, stage, reply).1 matches Turn::Send(q) ==> sent_by(c, q),
{
    lemma_urls_are_under_the_api(c);
}

/// Every request made while finding the project carries the configured key to a
/// URL under the configured API.
pub proof fn law_setup_requests_are_authenticated(
    base: ClientView,
    configured: Option<i64>,
    stage: SetupStage,
    reply: Option<ReplyView>,
)
    ensures
        setup_step(base, configured, stage, reply).1 matches Turn::Send(q) ==> sent_by(base, q),
{
    lemma_urls_are_under_the_api(base);
}

// ---------------------------------------------------------------- finding a flag

/// The flag found for a key has that key, and no flag listed before it does; the
/// flag that is not found is reported by its key.
pub proof fn law_found_flag_has_the_key(fs: Seq<FlagView>, key: Seq<char>)
    ensures
        find_flag(fs, key) matches Ok(f) ==> (f.key == key && (exists|i: int|
            first_with_key(fs, key, i) && fs[i] == f)),
        find_flag(fs, key) matches Err(e) ==> (e == (ErrorView::FlagNotFound { key }) && !has_key(fs, key)),
{
    if has_key(fs, key) {
        lemma_first_with_key_exists(fs, key);
    }
}

/// Getting a flag by its key gives a flag with that key, or says which key it missed.
pub proof fn law_lookup_gives_the_key(c: ClientView, key: Seq<char>, stage: ListView, reply: Option<ReplyView>)
    ensures
        lookup_step(c, key, stage, reply).1 matches Turn::Done(Ok(f)) ==> f.key == key,
        lookup_step(c, key, stage, reply).1 matches Turn::Done(Err(ErrorView::FlagNotFound { key: k })) ==> k == key,
{
    let (next, turn) = list_step(c, stage, reply);
    if let Turn::Done(Ok(fs)) = turn {
        law_found_flag_has_the_key(fs, key);
    }
    if let Turn::Done(Err(e)) = turn {
        assert(!(e is FlagNotFound));
    }
}

/// A change is sent to one flag only: the one with the asked key, with the asked state.
pub proof fn law_activation_targets_the_keyed_flag(
    c: ClientView,
    key: Seq<char>,
    active: bool,
    stage: ChangeView,
    reply: Option<ReplyView>,
)
    ensures
        activation_step(c, key, active, stage, reply).1 matches Turn::Send(q) ==> (q.method
            == Method::Get || exists|f: FlagView| f.key == key && q == activation_request(c, f.id, active)),
{
    if let ChangeView::Listing(ls) = stage {
        let (next, turn) = list_step(c, ls, reply);
        if let Turn::Done(Ok(fs)) = turn {
            law_found_flag_has_the_key(fs, key);
        }
    }
}

/// A deletion is sent to one flag only: the one with the asked key.
pub proof fn law_deletion_targets_the_keyed_flag(c: ClientView, key: Seq<char>, stage: ChangeView, reply: Option<ReplyView>)
    ensures
        deletion_step(c, key, stage, reply).1 matches Turn::Send(q) ==> (q.method == Method::Get
            || exists|f: FlagView| f.key == key && q == deletion_request(c, f.id)),
{
    if let ChangeView::Listing(ls) = stage {
        let (next, turn) = list_step(c, ls, reply);
        if let Turn::Done(Ok(fs)) = turn {
            law_found_flag_has_the_key(fs, key);
        }
    }
}

// ---------------------------------------------------------------- messages

/// Whether `t` occurs in `s`.
pub open spec fn contains_text(s: Seq<char>, t: Seq<char>) -> bool {
    exists|i: int| 0 <= i && i + t.len() <= s.len() && #[trigger] s.subrange(i, i + t.len()) == t
}

/// The message of a refused change tells the status and the body that came with it.
pub proof fn law_refusal_tells_status_and_body(phase: Phase, status: u16, body: Seq<char>)
    ensures
        contains_text(
            error_message(ErrorView::Rejected { phase, status: status_text(status), body }),
            status_text(status),
        ),
        contains_text(
            error_message(ErrorView::Rejected { phase, status: status_text(status), body }),
            body,
        ),
{
    let st = status_text(status);
    let m = error_message(ErrorView::Rejected { phase, status: st, body });
    let head = "Failed to "@ + crate::error::action_name(phase) + ": HTTP "@;
    assert(m =~= head + st + " - "@ + body);
    assert(m.subrange(head.len() as int, (head.len() + st.len()) as int) =~= st);
    let start: int = (head.len() + st.len() + " - "@.len()) as int;
    assert(m.subrange(start, (start + body.len()) as int) =~= body);
}

/// The message of a missing flag tells its key.
pub proof fn law_not_found_tells_the_key(key: Seq<char>)
    ensures
        contains_text(error_message(ErrorView::FlagNotFound { key }), key),
{
    let m = error_message(ErrorView::FlagNotFound { key });
    let head = "Feature flag '"@;
    assert(m.subrange(head.len() as int, (head.len() + key.len()) as int) =~= key);
}

// ---------------------------------------------------------------- the command line

proof fn lemma_first_option_none(words: Seq<Seq<char>>)
    requires
        forall|i: int| 0 <= i < words.len() ==> !is_option(#[trigger] words[i]),
    ensures
        first_option(words) is None,
    decreases words.len(),
{
    if words.len() > 0 {
        assert forall|i: int| 0 <= i < words.drop_first().len() implies !is_option(
            #[trigger] words.drop_first()[i],
        ) by {
            assert(words.drop_first()[i] == words[i + 1]);
        }
        lemma_first_option_none(words.drop_first());
    }
}

proof fn lemma_no_end_of_options(words: Seq<Seq<char>>)
    requires
        forall|i: int| 0 <= i < words.len() ==> !is_option(#[trigger] words[i]),
    ensures
        end_of_options(words) == words.len(),
        words.take(words.len() as int) == words,
        without(words, words.len() as int) == words,
    decreases words.len(),
{
    reveal_strlit("--");
    if words.len() > 0 {
        assert(words[0] != "--"@) by {
            assert(is_option("--"@));
        }
        assert forall|i: int| 0 <= i < words.drop_first().len() implies !is_option(
            #[trigger] words.drop_first()[i],
        ) by {
            assert(words.drop_first()[i] == words[i + 1]);
        }
        lemma_no_end_of_options(words.drop_first());
    }
    assert(words.take(words.len() as int) =~= words);
}

/// `<program> flags list` lists the flags.
pub proof fn law_list_command_parses(program: Seq<char>)
    ensures
        parse_command_line(seq![program, "flags"@, "list"@]) == Ok::<CommandView, crate::cli::CliErrorView>(CommandView::List),
{
    reveal_strlit("flags");
    reveal_strlit("list");
    reveal_strlit("help");
    let args = seq![program, "flags"@, "list"@];
    let words = args.drop_first();
    assert(words =~= seq!["flags"@, "list"@]);
    assert(!is_option("flags"@));
    assert(!is_option("list"@));
    assert("flags"@ != "help"@) by {
        assert("flags"@.len() != "help"@.len());
    }
    assert("list"@ != "help"@) by {
        assert("list"@[0] != "help"@[0]);
    }
    lemma_no_end_of_options(words);
    lemma_first_option_none(words);
    assert(first_option(words) is None);
}

/// `<program> flags <command> <key>` runs that command on that key, for each
/// command that takes a key and each key that is not an option.
pub proof fn law_keyed_command_parses(program: Seq<char>, name: Seq<char>, key: Seq<char>)
    requires
        keyed_command(name, key) is Some,
        !is_option(key),
    ensures
        parse_command_line(seq![program, "flags"@, name, key]) == Ok::<CommandView, crate::cli::CliErrorView>(
            keyed_command(name, key)->0,
        ),
{
    reveal_strlit("flags");
    reveal_strlit("list");
    reveal_strlit("help");
    reveal_strlit("get");
    reveal_strlit("create");
    reveal_strlit("enable");
    reveal_strlit("disable");
    reveal_strlit("delete");
    let args = seq![program, "flags"@, name, key];
    let words = args.drop_first();
    assert(words =~= seq!["flags"@, name, key]);
    assert(name == "get"@ || name == "create"@ || name == "enable"@ || name == "disable"@
        || name == "delete"@);
    assert(name != "list"@ && name != "help"@ && !is_option(name)) by {
        if name == "get"@ {
            assert(name.len() != "list"@.len());
            assert(name.len() != "help"@.len());
        } else if name == "create"@ {
            assert(name.len() != "list"@.len());
            assert(name.len() != "help"@.len());
        } else if name == "enable"@ {
            assert(name.len() != "list"@.len());
            assert(name.len() != "help"@.len());
        } else if name == "disable"@ {
            assert(name.len() != "list"@.len());
            assert(name.len() != "help"@.len());
        } else {
            assert(name.len() != "list"@.len());
            assert(name.len() != "help"@.len());
        }
    }
    assert(!is_option("flags"@));
    assert("flags"@ != "help"@) by {
        assert("flags"@.len() != "help"@.len());
    }
    lemma_no_end_of_options(words);
    lemma_first_option_none(words);
}

} // verus!
