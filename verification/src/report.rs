//! What the command line shows: the table of flags, a flag's details, and the
//! lines that report each command, and the running of a command as one exchange.

use vstd::prelude::*;
use crate::api::{
    activation_step, creation_step, deletion_step, list_step, lookup_step, ChangeView,
    ClientView, CreateFlag, CreateStage, DeleteFlag, FlagLookup, ListFlags, ListView,
    PostHogClient, SetFlagActive,
};
use crate::cli::{CommandView, FlagsCommands};
use crate::http::{Exchange, Reply, ReplyView, Step, Turn};
use crate::json::{pretty_json, pretty_text};
use crate::model::{FeatureFlag, FlagView};
use crate::text::{append_decimal, byte_prefix, byte_prefix_text, cuttable, decimal, utf8_len};

verus! {

/// How many bytes of a creation time the table shows: the date, `YYYY-MM-DD`.
pub const DATE_PREFIX_LEN: usize = 10;

/// A row of the table of flags.
#[derive(Debug)]
pub struct FlagRow {
    pub key: String,
    pub name: String,
    pub active: String,
    pub created: String,
}

/// The view of a [`FlagRow`].
pub struct RowView {
    pub key: Seq<char>,
    pub name: Seq<char>,
    pub active: Seq<char>,
    pub created: Seq<char>,
}

impl DeepView for FlagRow {
    type V = RowView;

    open spec fn deep_view(&self) -> RowView {
        RowView { key: self.key@, name: self.name@, active: self.active@, created: self.created@ }
    }
}

/// Whether the table can show the flag: its creation time is shorter than a date,
/// or a character ends where the date does.
pub open spec fn row_showable(f: FlagView) -> bool {
    cuttable(f.created_at, DATE_PREFIX_LEN as nat)
}

/// The row that shows a flag: `yes` or `no` for its state, and the date of its
/// creation, or `-` when its creation time is shorter than a date.
pub open spec fn flag_row(f: FlagView) -> RowView {
    RowView {
        key: f.key,
        name: f.name,
        active: if f.active {
            "yes"@
        } else {
            "no"@
        },
        created: if utf8_len(f.created_at) >= DATE_PREFIX_LEN {
            byte_prefix(f.created_at, DATE_PREFIX_LEN as nat)
        } else {
            "-"@
        },
    }
}

/// The row that shows a flag.
pub fn flag_to_row(f: &FeatureFlag) -> (row: FlagRow)
    requires
        row_showable(f.deep_view()),
    ensures
        row.deep_view() == flag_row(f.deep_view()),
{
    let created = match byte_prefix_text(f.created_at.as_str(), DATE_PREFIX_LEN) {
        Some(date) => date,
        None => String::from_str("-"),
    };
    FlagRow {
        key: f.key.clone(),
        name: f.name.clone(),
        active: if f.active {
            String::from_str("yes")
        } else {
            String::from_str("no")
        },
        created,
    }
}

/// What the list of flags shows.
#[derive(Debug)]
pub enum FlagListing {
    /// There is no flag: the line `No feature flags found.`
    Empty,
    /// A table with one row per flag.
    Rows(Vec<FlagRow>),
}

/// The line shown when there is no flag.
pub fn no_flags_message() -> (s: &'static str)
    ensures
        s@ == "No feature flags found."@,
{
    "No feature flags found."
}

/// What the list of `flags` shows: nothing to tabulate, or one row per flag in order.
pub fn flag_listing(flags: &[FeatureFlag]) -> (res: FlagListing)
    requires
        forall|i: int| 0 <= i < flags@.len() ==> row_showable(#[trigger] flags@[i].deep_view()),
    ensures
        flags@.len() == 0 <==> res is Empty,
        res matches FlagListing::Rows(rows) ==> rows.deep_view() == flags.deep_view().map_values(
            |f: FlagView| flag_row(f),
        ),
{
    let n = flags.len();
    if n == 0 {
        return FlagListing::Empty;
    }
    let mut rows: Vec<FlagRow> = Vec::new();
    let mut i: usize = 0;
    while i < n
        invariant
            n == flags@.len(),
            i <= n,
            forall|j: int| 0 <= j < flags@.len() ==> row_showable(#[trigger] flags@[j].deep_view()),
            rows.deep_view() =~= flags.deep_view().take(i as int).map_values(
                |f: FlagView| flag_row(f),
            ),
        decreases n - i,
    {
        let row = flag_to_row(&flags[i]);
        let ghost before = rows.deep_view();
        rows.push(row);
        assert(rows.deep_view() =~= before.push(flag_row(flags.deep_view()[i as int])));
        assert(flags.deep_view().take(i + 1) =~= flags.deep_view().take(i as int).push(
            flags.deep_view()[i as int],
        ));
        i = i + 1;
        assert(rows.deep_view() =~= flags.deep_view().take(i as int).map_values(
            |f: FlagView| flag_row(f),
        ));
    }
    assert(flags.deep_view().take(n as int) =~= flags.deep_view());
    FlagListing::Rows(rows)
}

/// The bool as `Display` writes it.
pub open spec fn bool_text(b: bool) -> Seq<char> {
    if b {
        "true"@
    } else {
        "false"@
    }
}

/// The details of a flag, one line each, given the text of its filters.
pub open spec fn flag_detail_lines(f: FlagView, filters: Seq<char>) -> Seq<char> {
    "Key:     "@ + f.key + "\n"@ + "Name:    "@ + f.name + "\n"@ + "ID:      "@ + decimal(f.id as int)
        + "\n"@ + "Active:  "@ + bool_text(f.active) + "\n"@ + "Created: "@ + f.created_at + "\n"@
        + "Filters: "@ + filters + "\n"@
}

/// The details of a flag, given the text of its filters.
pub fn flag_detail_text(f: &FeatureFlag, filters: &str) -> (s: String)
    ensures
        s@ == flag_detail_lines(f.deep_view(), filters@),
{
    let mut s = String::from_str("Key:     ");
    s.append(f.key.as_str());
    s.append("\n");
    s.append("Name:    ");
    s.append(f.name.as_str());
    s.append("\n");
    s.append("ID:      ");
    append_decimal(&mut s, f.id);
    s.append("\n");
    s.append("Active:  ");
    s.append(if f.active { "true" } else { "false" });
    s.append("\n");
    s.append("Created: ");
    s.append(f.created_at.as_str());
    s.append("\n");
    s.append("Filters: ");
    s.append(filters);
    s.append("\n");
    assert(s@ =~= flag_detail_lines(f.deep_view(), filters@));
    s
}

/// The details of a flag, its filters as `serde_json` indents them.
pub fn flag_detail(f: &FeatureFlag) -> (s: String)
    ensures
        s@ == flag_detail_lines(f.deep_view(), pretty_text(f.filters)),
{
    match pretty_json(&f.filters) {
        Ok(filters) => flag_detail_text(f, filters.as_str()),
        Err(_) => String::new(),
    }
}

/// The line that reports a created flag.
pub open spec fn created_message(key: Seq<char>, id: i64) -> Seq<char> {
    "Created feature flag '"@ + key + "' (id: "@ + decimal(id as int) + ")"@
}

/// The line that reports a flag turned on or off.
pub open spec fn switched_message(key: Seq<char>, active: bool) -> Seq<char> {
    (if active {
        "Enabled feature flag '"@
    } else {
        "Disabled feature flag '"@
    }) + key + "'"@
}

/// The line that reports a deleted flag.
pub open spec fn deleted_message(key: Seq<char>) -> Seq<char> {
    "Deleted feature flag '"@ + key + "'"@
}

fn created_message_text(key: &str, id: i64) -> (s: String)
    ensures
        s@ == created_message(key@, id),
{
    let mut s = String::from_str("Created feature flag '");
    s.append(key);
    s.append("' (id: ");
    append_decimal(&mut s, id);
    s.append(")");
    s
}

fn switched_message_text(key: &str, active: bool) -> (s: String)
    ensures
        s@ == switched_message(key@, active),
{
    let mut s = if active {
        String::from_str("Enabled feature flag '")
    } else {
        String::from_str("Disabled feature flag '")
    };
    s.append(key);
    s.append("'");
    s
}

fn deleted_message_text(key: &str) -> (s: String)
    ensures
        s@ == deleted_message(key@),
{
    let mut s = String::from_str("Deleted feature flag '");
    s.append(key);
    s.append("'");
    s
}

// ---------------------------------------------------------------- running a command

/// What a command ends with, to be shown.
#[derive(Debug)]
pub enum Report {
    /// The flags to list.
    Flags(Vec<FeatureFlag>),
    /// The flag to detail.
    Detail(FeatureFlag),
    /// A line to print.
    Message(String),
}

/// The view of a [`Report`].
pub enum ReportView {
    Flags(Seq<FlagView>),
    Detail(FlagView),
    Message(Seq<char>),
}

impl DeepView for Report {
    type V = ReportView;

    open spec fn deep_view(&self) -> ReportView {
        match self {
            Report::Flags(fs) => ReportView::Flags(fs.deep_view()),
            Report::Detail(f) => ReportView::Detail(f.deep_view()),
            Report::Message(m) => ReportView::Message(m@),
        }
    }
}

/// A turn of an operation, with its result shown as `show` says.
pub open spec fn shown<V>(t: Turn<V>, show: spec_fn(V) -> ReportView) -> Turn<ReportView> {
    match t {
        Turn::Send(q) => Turn::Send(q),
        Turn::Done(Ok(v)) => Turn::Done(Ok(show(v))),
        Turn::Done(Err(e)) => Turn::Done(Err(e)),
    }
}

/// Where the running of a command stands: the operation it runs, with its client,
/// key and stage.
pub enum JobView {
    List(ClientView, ListView),
    Get(ClientView, Seq<char>, ListView),
    Create(ClientView, Seq<char>, CreateStage),
    Enable(ClientView, Seq<char>, ChangeView),
    Disable(ClientView, Seq<char>, ChangeView),
    Delete(ClientView, Seq<char>, ChangeView),
}

/// The running of a command, before it begins.
pub open spec fn job_for(c: ClientView, command: CommandView) -> JobView {
    match command {
        CommandView::List => JobView::List(c, ListView::Start),
        CommandView::Get(key) => JobView::Get(c, key, ListView::Start),
        CommandView::Create(key) => JobView::Create(c, key, CreateStage::Start),
        CommandView::Enable(key) => JobView::Enable(c, key, ChangeView::Listing(ListView::Start)),
        CommandView::Disable(key) => JobView::Disable(c, key, ChangeView::Listing(ListView::Start)),
        CommandView::Delete(key) => JobView::Delete(c, key, ChangeView::Listing(ListView::Start)),
    }
}

/// One step of running a command: a step of its operation, whose result is shown
/// as the command reports it.
pub open spec fn job_step(j: JobView, reply: Option<ReplyView>) -> (JobView, Turn<ReportView>) {
    match j {
        JobView::List(c, s) => {
            let (n, t) = list_step(c, s, reply);
            (JobView::List(c, n), shown(t, |fs: Seq<FlagView>| ReportView::Flags(fs)))
        },
        JobView::Get(c, key, s) => {
            let (n, t) = lookup_step(c, key, s, reply);
            (JobView::Get(c, key, n), shown(t, |f: FlagView| ReportView::Detail(f)))
        },
        JobView::Create(c, key, s) => {
            let (n, t) = creation_step(c, key, s, reply);
            (
                JobView::Create(c, key, n),
                shown(t, |f: FlagView| ReportView::Message(created_message(f.key, f.id))),
            )
        },
        JobView::Enable(c, key, s) => {
            let (n, t) = activation_step(c, key, true, s, reply);
            (
                JobView::Enable(c, key, n),
                shown(t, |f: FlagView| ReportView::Message(switched_message(f.key, true))),
            )
        },
        JobView::Disable(c, key, s) => {
            let (n, t) = activation_step(c, key, false, s, reply);
            (
                JobView::Disable(c, key, n),
                shown(t, |f: FlagView| ReportView::Message(switched_message(f.key, false))),
            )
        },
        JobView::Delete(c, key, s) => {
            let (n, t) = deletion_step(c, key, s, reply);
            (JobView::Delete(c, key, n), shown(t, |u: ()| ReportView::Message(deleted_message(key))))
        },
    }
}

enum JobOp<'a> {
    List(ListFlags<'a>),
    Get(FlagLookup<'a>),
    Create(CreateFlag<'a>),
    Enable(SetFlagActive<'a>),
    Disable(SetFlagActive<'a>),
    Delete(DeleteFlag<'a>, String),
}

/// The running of a command on feature flags.
pub struct FlagsJob<'a> {
    op: JobOp<'a>,
}

impl<'a> FlagsJob<'a> {
    /// Where the running stands.
    pub closed spec fn view(&self) -> JobView {
        match self.op {
            JobOp::List(m) => JobView::List(m.client(), m.stage()),
            JobOp::Get(m) => JobView::Get(m.client(), m.key(), m.stage()),
            JobOp::Create(m) => JobView::Create(m.client(), m.key(), m.stage()),
            JobOp::Enable(m) => JobView::Enable(m.client(), m.key(), m.stage()),
            JobOp::Disable(m) => JobView::Disable(m.client(), m.key(), m.stage()),
            JobOp::Delete(m, _) => JobView::Delete(m.client(), m.key(), m.stage()),
        }
    }

    /// The operation matches the command it runs.
    pub closed spec fn well_formed(&self) -> bool {
        match self.op {
            JobOp::Enable(m) => m.active(),
            JobOp::Disable(m) => !m.active(),
            JobOp::Delete(m, key) => m.key() == key@,
            _ => true,
        }
    }
}

/// Begins running `command` with `client`.
pub fn run_flags<'a>(client: &'a PostHogClient, command: FlagsCommands) -> (job: FlagsJob<'a>)
    ensures
        job.well_formed(),
        job.view() == job_for(client.deep_view(), command.deep_view()),
{
    let op = match command {
        FlagsCommands::List => JobOp::List(client.list_flags()),
        FlagsCommands::Get { key } => JobOp::Get(client.get_flag_by_key(key.as_str())),
        FlagsCommands::Create { key } => JobOp::Create(client.create_flag(key.as_str())),
        FlagsCommands::Enable { key } => JobOp::Enable(client.set_flag_active(key.as_str(), true)),
        FlagsCommands::Disable { key } => JobOp::Disable(client.set_flag_active(key.as_str(), false)),
        FlagsCommands::Delete { key } => {
            let m = client.delete_flag(key.as_str());
            JobOp::Delete(m, key)
        },
    };
    FlagsJob { op }
}

impl<'a> Exchange for FlagsJob<'a> {
    type Output = Report;

    open spec fn accepts(&self, begin: bool) -> bool {
        &&& self.well_formed()
        &&& match self.view() {
            JobView::List(_, s) => crate::api::list_accepts(s, begin),
            JobView::Get(_, _, s) => crate::api::list_accepts(s, begin),
            JobView::Create(_, _, s) => match s {
                CreateStage::Start => begin,
                CreateStage::Posting => !begin,
                CreateStage::Finished => false,
            },
            JobView::Enable(_, _, s) => crate::api::change_accepts(s, begin),
            JobView::Disable(_, _, s) => crate::api::change_accepts(s, begin),
            JobView::Delete(_, _, s) => crate::api::change_accepts(s, begin),
        }
    }

    fn advance(&mut self, reply: Option<Reply>) -> (step: Step<Report>)
        ensures
            final(self).well_formed(),
            (final(self).view(), step.deep_view()) == job_step(old(self).view(), reply.deep_view()),
    {
        match &mut self.op {
            JobOp::List(m) => match m.advance(reply) {
                Step::Send(q) => Step::Send(q),
                Step::Done(Ok(flags)) => Step::Done(Ok(Report::Flags(flags))),
                Step::Done(Err(e)) => Step::Done(Err(e)),
            },
            JobOp::Get(m) => match m.advance(reply) {
                Step::Send(q) => Step::Send(q),
                Step::Done(Ok(flag)) => Step::Done(Ok(Report::Detail(flag))),
                Step::Done(Err(e)) => Step::Done(Err(e)),
            },
            JobOp::Create(m) => match m.advance(reply) {
                Step::Send(q) => Step::Send(q),
                Step::Done(Ok(flag)) => Step::Done(
                    Ok(Report::Message(created_message_text(flag.key.as_str(), flag.id))),
                ),
                Step::Done(Err(e)) => Step::Done(Err(e)),
            },
            JobOp::Enable(m) => match m.advance(reply) {
                Step::Send(q) => Step::Send(q),
                Step::Done(Ok(flag)) => Step::Done(
                    Ok(Report::Message(switched_message_text(flag.key.as_str(), true))),
                ),
                Step::Done(Err(e)) => Step::Done(Err(e)),
            },
            JobOp::Disable(m) => match m.advance(reply) {
                Step::Send(q) => Step::Send(q),
                Step::Done(Ok(flag)) => Step::Done(
                    Ok(Report::Message(switched_message_text(flag.key.as_str(), false))),
                ),
                Step::Done(Err(e)) => Step::Done(Err(e)),
            },
            JobOp::Delete(m, key) => match m.advance(reply) {
                Step::Send(q) => Step::Send(q),
                Step::Done(Ok(())) => Step::Done(Ok(Report::Message(deleted_message_text(key.as_str())))),
                Step::Done(Err(e)) => Step::Done(Err(e)),
            },
        }
    }
}

} // verus!
