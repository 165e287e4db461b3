use crate::host::{
    all_failed, app_lists, chunk_of, failed_results, failures_of, merged_apps, merged_warnings,
    response_view, round_outcome, succeeded_results, HostError, HostResponse, PluginResult,
    RefreshOutcome,
};
use crate::plugins::{AppSummary, PluginFailure};
use vstd::prelude::*;

verus! {

/// The last committed round of a store: its apps and its warnings.
pub struct CachedState {
    apps: Vec<AppSummary>,
    warnings: Vec<PluginFailure>,
}

/// What a cache holds once a round's response (as `response_view` gives
/// it) has been committed: the round's apps and warnings when it succeeded,
/// the previous contents otherwise.
pub open spec fn committed(
    cache: (Seq<AppSummary>, Seq<PluginFailure>),
    round: Option<Result<(Seq<AppSummary>, Seq<PluginFailure>), Seq<PluginFailure>>>,
) -> (Seq<AppSummary>, Seq<PluginFailure>) {
    match round {
        Some(Ok(outcome)) => outcome,
        _ => cache,
    }
}

impl View for CachedState {
    type V = (Seq<AppSummary>, Seq<PluginFailure>);

    closed spec fn view(&self) -> Self::V {
        (self.apps@, self.warnings@)
    }
}

impl CachedState {
    /// An empty cache: no apps and no warnings.
    pub fn new() -> (r: Self)
        ensures
            r@ == (Seq::<AppSummary>::empty(), Seq::<PluginFailure>::empty()),
    {
        CachedState { apps: Vec::new(), warnings: Vec::new() }
    }

    /// A copy of the committed apps and warnings, taken together.
    pub fn snapshot(&self) -> (r: RefreshOutcome)
        ensures
            (r.apps@, r.warnings@) == self@,
    {
        let apps = self.apps.clone();
        let warnings = self.warnings.clone();
        assert(apps@ =~= self.apps@);
        assert(warnings@ =~= self.warnings@);
        RefreshOutcome { apps, warnings }
    }

    /// Commits a round: on success replaces both apps and warnings with the
    /// round's and returns them; on error leaves the cache as it was and
    /// returns the error.
    pub fn commit(&mut self, round: Result<HostResponse<Vec<AppSummary>>, HostError>) -> (r: Result<
        RefreshOutcome,
        HostError,
    >)
        ensures
            final(self)@ == committed(old(self)@, response_view(round)),
            match round {
                Ok(resp) => r is Ok && (r->Ok_0.apps@, r->Ok_0.warnings@) == (
                    resp.data@,
                    resp.warnings@,
                ),
                Err(e) => r == Err::<RefreshOutcome, HostError>(e),
            },
    {
        match round {
            Ok(response) => {
                let outcome = RefreshOutcome { apps: response.data, warnings: response.warnings };
                let stored = outcome.clone();
                self.apps = stored.apps;
                self.warnings = stored.warnings;
                Ok(outcome)
            },
            Err(e) => Err(e),
        }
    }
}

impl Default for CachedState {
    fn default() -> (r: Self)
        ensures
            r@ == (Seq::<AppSummary>::empty(), Seq::<PluginFailure>::empty()),
    {
        CachedState::new()
    }
}

proof fn lemma_filter_keeps_all(rs: Seq<PluginResult>, ok: bool)
    requires
        forall|i: int| 0 <= i < rs.len() ==> ((#[trigger] rs[i]) is Ok) == ok,
    ensures
        ok ==> succeeded_results(rs) == rs && failed_results(rs) == Seq::<PluginResult>::empty(),
        !ok ==> failed_results(rs) == rs && succeeded_results(rs) == Seq::<PluginResult>::empty(),
    decreases rs.len(),
{
    reveal(Seq::filter);
    if rs.len() > 0 {
        lemma_filter_keeps_all(rs.drop_last(), ok);
        assert(rs.drop_last().push(rs.last()) =~= rs);
    } else {
        assert(rs =~= Seq::<PluginResult>::empty());
    }
}

proof fn lemma_merged_apps_are_successes(rs: Seq<PluginResult>)
    ensures
        merged_apps(rs) == app_lists(succeeded_results(rs)).flatten(),
    decreases rs.len(),
{
    reveal(Seq::filter);
    let f = |r: PluginResult| chunk_of(r);
    if rs.len() > 0 {
        let pre = rs.drop_last();
        let x = rs.last();
        lemma_merged_apps_are_successes(pre);
        assert(rs =~= pre.push(x));
        assert(rs.map_values(f) =~= pre.map_values(f).push(chunk_of(x)));
        pre.map_values(f).lemma_flatten_push(chunk_of(x));
        if x is Ok {
            assert(succeeded_results(rs) == succeeded_results(pre).push(x));
            assert(app_lists(succeeded_results(rs)) =~= app_lists(succeeded_results(pre)).push(x->Ok_0@));
            app_lists(succeeded_results(pre)).lemma_flatten_push(x->Ok_0@);
        } else {
            assert(succeeded_results(rs) == succeeded_results(pre));
            assert(merged_apps(rs) =~= merged_apps(pre));
        }
    } else {
        assert(rs.map_values(f) =~= Seq::<Seq<AppSummary>>::empty());
        assert(app_lists(succeeded_results(rs)) =~= Seq::<Seq<AppSummary>>::empty());
    }
}

/// When at least one backend is registered and every one succeeds, a
/// refresh succeeds with the concatenation of their lists in dispatch
/// order and no warnings, and the cache then holds exactly that.
pub proof fn law_all_backends_succeed(
    cache: (Seq<AppSummary>, Seq<PluginFailure>),
    rs: Seq<PluginResult>,
)
    requires
        rs.len() >= 1,
        forall|i: int| 0 <= i < rs.len() ==> (#[trigger] rs[i]) is Ok,
    ensures
        round_outcome(rs) == Ok::<_, Seq<PluginFailure>>(
            (app_lists(rs).flatten(), Seq::<PluginFailure>::empty()),
        ),
        committed(cache, Some(round_outcome(rs))) == (
            app_lists(rs).flatten(),
            Seq::<PluginFailure>::empty(),
        ),
{
    lemma_filter_keeps_all(rs, true);
    lemma_merged_apps_are_successes(rs);
    assert(merged_warnings(rs) =~= Seq::<PluginFailure>::empty());
    assert(!all_failed(rs)) by {
        assert(rs[0] is Ok);
    }
}

/// When `k` of the backends fail and at least one succeeds, a refresh
/// succeeds with `k` warnings, and its apps are the lists of the succeeding
/// backends alone, in dispatch order.
pub proof fn law_partial_failure(rs: Seq<PluginResult>, k: nat)
    requires
        0 < k < rs.len(),
        failed_results(rs).len() == k,
    ensures
        round_outcome(rs) is Ok,
        round_outcome(rs)->Ok_0.1.len() == k,
        round_outcome(rs)->Ok_0.0 == app_lists(succeeded_results(rs)).flatten(),
{
    lemma_merged_apps_are_successes(rs);
    if all_failed(rs) {
        lemma_filter_keeps_all(rs, false);
    }
}

/// When at least one backend is registered and every one fails, a refresh
/// fails with every backend's failure, one each in dispatch order, and the
/// cache keeps what it held before.
pub proof fn law_all_backends_fail(
    cache: (Seq<AppSummary>, Seq<PluginFailure>),
    rs: Seq<PluginResult>,
)
    requires
        rs.len() >= 1,
        forall|i: int| 0 <= i < rs.len() ==> (#[trigger] rs[i]) is Err,
    ensures
        round_outcome(rs) == Err::<(Seq<AppSummary>, Seq<PluginFailure>), _>(failures_of(rs)),
        failures_of(rs).len() == rs.len(),
        committed(cache, Some(round_outcome(rs))) == cache,
{
    lemma_filter_keeps_all(rs, false);
}

/// With no backend registered, a refresh succeeds with no apps and no
/// warnings, and the cache then holds that empty outcome.
pub proof fn law_no_backends(cache: (Seq<AppSummary>, Seq<PluginFailure>))
    ensures
        round_outcome(Seq::<PluginResult>::empty()) == Ok::<_, Seq<PluginFailure>>(
            (Seq::<AppSummary>::empty(), Seq::<PluginFailure>::empty()),
        ),
        committed(cache, Some(round_outcome(Seq::<PluginResult>::empty()))) == (
            Seq::<AppSummary>::empty(),
            Seq::<PluginFailure>::empty(),
        ),
{
    let rs = Seq::<PluginResult>::empty();
    lemma_filter_keeps_all(rs, true);
    lemma_merged_apps_are_successes(rs);
    assert(app_lists(succeeded_results(rs)) =~= Seq::<Seq<AppSummary>>::empty());
    assert(merged_warnings(rs) =~= Seq::<PluginFailure>::empty());
}

} // verus!
