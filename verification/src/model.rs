//! The data that the PostHog API exchanges: feature flags, projects and the
//! client configuration, each with its mathematical view.

use vstd::prelude::*;

verus! {

/// A feature flag as the management API describes it.
#[derive(Debug)]
pub struct FeatureFlag {
    pub id: i64,
    pub key: String,
    pub name: String,
    pub active: bool,
    pub deleted: bool,
    pub filters: serde_json::Value,
    pub created_at: String,
}

/// The view of a [`FeatureFlag`].
pub struct FlagView {
    pub id: i64,
    pub key: Seq<char>,
    pub name: Seq<char>,
    pub active: bool,
    pub deleted: bool,
    pub filters: serde_json::Value,
    pub created_at: Seq<char>,
}

impl DeepView for FeatureFlag {
    type V = FlagView;

    open spec fn deep_view(&self) -> FlagView {
        FlagView {
            id: self.id,
            key: self.key@,
            name: self.name@,
            active: self.active,
            deleted: self.deleted,
            filters: self.filters,
            created_at: self.created_at@,
        }
    }
}

/// A feature flag as the local evaluation endpoint describes it: no creation time,
/// but the project (team) it belongs to.
#[derive(Debug)]
pub struct LocalEvalFlag {
    pub id: i64,
    pub key: String,
    pub name: String,
    pub active: bool,
    pub deleted: bool,
    pub filters: serde_json::Value,
    pub team_id: i64,
}

/// The view of a [`LocalEvalFlag`].
pub struct LocalFlagView {
    pub id: i64,
    pub key: Seq<char>,
    pub name: Seq<char>,
    pub active: bool,
    pub deleted: bool,
    pub filters: serde_json::Value,
    pub team_id: i64,
}

impl DeepView for LocalEvalFlag {
    type V = LocalFlagView;

    open spec fn deep_view(&self) -> LocalFlagView {
        LocalFlagView {
            id: self.id,
            key: self.key@,
            name: self.name@,
            active: self.active,
            deleted: self.deleted,
            filters: self.filters,
            team_id: self.team_id,
        }
    }
}

/// A PostHog project; its view is its id.
#[derive(Debug, Clone, Copy, PartialEq, Eq, Structural)]
pub struct Project {
    pub id: i64,
}

impl DeepView for Project {
    type V = i64;

    open spec fn deep_view(&self) -> i64 {
        self.id
    }
}

/// The flag that the local evaluation entry `l` stands for: the same fields, and no
/// creation time.
pub open spec fn local_to_flag(l: LocalFlagView) -> FlagView {
    FlagView {
        id: l.id,
        key: l.key,
        name: l.name,
        active: l.active,
        deleted: l.deleted,
        filters: l.filters,
        created_at: Seq::empty(),
    }
}

/// Converts a local evaluation entry into a feature flag with an empty creation time.
pub fn local_eval_flag_to_feature_flag(f: LocalEvalFlag) -> (res: FeatureFlag)
    ensures
        res.deep_view() == local_to_flag(f.deep_view()),
        res.id == f.id,
        res.key@ == f.key@,
        res.name@ == f.name@,
        res.active == f.active,
        res.deleted == f.deleted,
        res.filters == f.filters,
        res.created_at@ == Seq::<char>::empty(),
{
    FeatureFlag {
        id: f.id,
        key: f.key,
        name: f.name,
        active: f.active,
        deleted: f.deleted,
        filters: f.filters,
        created_at: String::new(),
    }
}

/// The flags of `fs` that are not deleted, in their order.
pub open spec fn live_flags(fs: Seq<FlagView>) -> Seq<FlagView>
    decreases fs.len(),
{
    if fs.len() == 0 {
        Seq::empty()
    } else if fs.last().deleted {
        live_flags(fs.drop_last())
    } else {
        live_flags(fs.drop_last()).push(fs.last())
    }
}

/// The flags that the entries of `ls` that are not deleted stand for, in their order.
pub open spec fn live_local_flags(ls: Seq<LocalFlagView>) -> Seq<FlagView>
    decreases ls.len(),
{
    if ls.len() == 0 {
        Seq::empty()
    } else if ls.last().deleted {
        live_local_flags(ls.drop_last())
    } else {
        live_local_flags(ls.drop_last()).push(local_to_flag(ls.last()))
    }
}

/// Keeps the flags that are not deleted, in their order.
pub fn keep_live_flags(flags: Vec<FeatureFlag>) -> (res: Vec<FeatureFlag>)
    ensures
        res.deep_view() == live_flags(flags.deep_view()),
{
    let ghost all = flags.deep_view();
    let n = flags.len();
    let mut res: Vec<FeatureFlag> = Vec::new();
    let mut i: usize = 0;
    for f in it: flags.into_iter()
        invariant
            it.seq().len() == n,
            all.len() == n,
            i == it.index(),
            forall|j: int| 0 <= j < n ==> #[trigger] all[j] == it.seq()[j].deep_view(),
            res.deep_view() == live_flags(all.take(i as int)),
    {
        assert(all.take(i + 1).drop_last() =~= all.take(i as int));
        assert(all.take(i + 1).last() == f.deep_view());
        let ghost before = res.deep_view();
        if !f.deleted {
            res.push(f);
            assert(res.deep_view() =~= before.push(all[i as int]));
        }
        i = i + 1;
    }
    assert(all.take(n as int) =~= all);
    res
}

/// Keeps the local evaluation entries that are not deleted, as feature flags, in their order.
pub fn live_flags_from_local(flags: Vec<LocalEvalFlag>) -> (res: Vec<FeatureFlag>)
    ensures
        res.deep_view() == live_local_flags(flags.deep_view()),
{
    let ghost all = flags.deep_view();
    let n = flags.len();
    let mut res: Vec<FeatureFlag> = Vec::new();
    let mut i: usize = 0;
    for f in it: flags.into_iter()
        invariant
            it.seq().len() == n,
            all.len() == n,
            i == it.index(),
            forall|j: int| 0 <= j < n ==> #[trigger] all[j] == it.seq()[j].deep_view(),
            res.deep_view() == live_local_flags(all.take(i as int)),
    {
        assert(all.take(i + 1).drop_last() =~= all.take(i as int));
        assert(all.take(i + 1).last() == f.deep_view());
        let ghost before = res.deep_view();
        if !f.deleted {
            let flag = local_eval_flag_to_feature_flag(f);
            res.push(flag);
            assert(res.deep_view() =~= before.push(local_to_flag(all[i as int])));
        }
        i = i + 1;
    }
    assert(all.take(n as int) =~= all);
    res
}

/// Whether `i` is the first position in `fs` of a flag whose key is `key`.
pub open spec fn first_with_key(fs: Seq<FlagView>, key: Seq<char>, i: int) -> bool {
    &&& 0 <= i < fs.len()
    &&& fs[i].key == key
    &&& forall|j: int| 0 <= j < i ==> fs[j].key != key
}

/// Whether some flag of `fs` has the key `key`.
pub open spec fn has_key(fs: Seq<FlagView>, key: Seq<char>) -> bool {
    exists|i: int| 0 <= i < fs.len() && fs[i].key == key
}

/// The configuration that a client is made from.
#[derive(Debug)]
pub struct Config {
    pub api_key: String,
    pub host: String,
    pub project_id: Option<i64>,
}

/// The view of a [`Config`].
pub struct ConfigView {
    pub api_key: Seq<char>,
    pub host: Seq<char>,
    pub project_id: Option<i64>,
}

impl DeepView for Config {
    type V = ConfigView;

    open spec fn deep_view(&self) -> ConfigView {
        ConfigView { api_key: self.api_key@, host: self.host@, project_id: self.project_id }
    }
}

} // verus!
