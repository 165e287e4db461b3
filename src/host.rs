use crate::plugins::{AppSummary, PluginDescriptor, PluginExecutionError, PluginFailure, PluginFailureKind};
use vstd::prelude::*;

verus! {

/// What one backend call resolved to, once isolated: its apps, or one failure.
pub type PluginResult = Result<Vec<AppSummary>, PluginFailure>;

/// A round's error as seen by its caller.
#[derive(Debug)]
pub enum HostError {
    /// Every registered backend failed; one failure per backend.
    AllFailed(Vec<PluginFailure>),
    /// The concurrency substrate could not accept or complete the request.
    RuntimeUnavailable,
}

/// The human-readable text of a host error.
pub open spec fn host_error_text(e: HostError) -> Seq<char> {
    match e {
        HostError::AllFailed(_) => "all plugins failed"@,
        HostError::RuntimeUnavailable => "host runtime unavailable"@,
    }
}

impl HostError {
    pub fn message(&self) -> (r: String)
        ensures
            r@ == host_error_text(*self),
    {
        match self {
            HostError::AllFailed(_) => "all plugins failed".to_string(),
            HostError::RuntimeUnavailable => "host runtime unavailable".to_string(),
        }
    }
}

/// A successful round: its data and the failures of the backends that did
/// not contribute.
pub struct HostResponse<T> {
    pub data: T,
    pub warnings: Vec<PluginFailure>,
}

/// The apps and warnings of one round, as handed to a store's caller.
#[derive(Debug)]
pub struct RefreshOutcome {
    pub apps: Vec<AppSummary>,
    pub warnings: Vec<PluginFailure>,
}

impl Clone for RefreshOutcome {
    fn clone(&self) -> (r: Self)
        ensures
            r.apps@ == self.apps@,
            r.warnings@ == self.warnings@,
    {
        let apps = self.apps.clone();
        let warnings = self.warnings.clone();
        assert(apps@ =~= self.apps@);
        assert(warnings@ =~= self.warnings@);
        RefreshOutcome { apps, warnings }
    }
}

/// What a backend call resolves to: `None` is a call that terminated
/// abnormally, `Some(r)` one that returned `r`.
pub open spec fn settled(
    d: PluginDescriptor,
    call: Option<Result<Vec<AppSummary>, PluginExecutionError>>,
) -> Result<Seq<AppSummary>, PluginFailure> {
    match call {
        Some(Ok(apps)) => Ok(apps@),
        Some(Err(e)) => Err(
            PluginFailure { plugin: d.id, kind: PluginFailureKind::Execution(e), plugin_kind: d.kind },
        ),
        None => Err(PluginFailure { plugin: d.id, kind: PluginFailureKind::Panic, plugin_kind: d.kind }),
    }
}

/// The view of an isolated result: its apps as a sequence, or its failure.
pub open spec fn result_view(r: PluginResult) -> Result<Seq<AppSummary>, PluginFailure> {
    match r {
        Ok(apps) => Ok(apps@),
        Err(f) => Err(f),
    }
}

/// Turns the outcome of one call on the backend described by `descriptor`
/// into its apps or into one failure attributed to that backend.
pub fn settle_plugin_call(
    descriptor: &PluginDescriptor,
    call: Option<Result<Vec<AppSummary>, PluginExecutionError>>,
) -> (r: PluginResult)
    ensures
        result_view(r) == settled(*descriptor, call),
{
    let plugin = descriptor.id.clone();
    let plugin_kind = descriptor.kind;
    match call {
        Some(Ok(apps)) => Ok(apps),
        Some(Err(e)) => Err(
            PluginFailure { plugin, plugin_kind, kind: PluginFailureKind::Execution(e) },
        ),
        None => Err(PluginFailure { plugin, plugin_kind, kind: PluginFailureKind::Panic }),
    }
}

/// The apps of one isolated result; a failure contributes none.
pub open spec fn chunk_of(r: PluginResult) -> Seq<AppSummary> {
    match r {
        Ok(apps) => apps@,
        Err(_) => Seq::empty(),
    }
}

/// The apps of a round: every result's apps, concatenated in dispatch order.
pub open spec fn merged_apps(rs: Seq<PluginResult>) -> Seq<AppSummary> {
    rs.map_values(|r: PluginResult| chunk_of(r)).flatten()
}

/// The results that are failures, in their order.
pub open spec fn failed_results(rs: Seq<PluginResult>) -> Seq<PluginResult> {
    rs.filter(|r: PluginResult| r is Err)
}

/// The results that are successes, in their order.
pub open spec fn succeeded_results(rs: Seq<PluginResult>) -> Seq<PluginResult> {
    rs.filter(|r: PluginResult| r is Ok)
}

/// The app lists of results that are all successes.
pub open spec fn app_lists(rs: Seq<PluginResult>) -> Seq<Seq<AppSummary>> {
    rs.map_values(|r: PluginResult| r->Ok_0@)
}

/// The failures of results that are all failures.
pub open spec fn failures_of(rs: Seq<PluginResult>) -> Seq<PluginFailure> {
    rs.map_values(|r: PluginResult| r->Err_0)
}

/// The warnings of a round: the failures among the results, in their order.
pub open spec fn merged_warnings(rs: Seq<PluginResult>) -> Seq<PluginFailure> {
    failures_of(failed_results(rs))
}

/// A round fails as a whole when it had backends and every one of them failed.
pub open spec fn all_failed(rs: Seq<PluginResult>) -> bool {
    rs.len() > 0 && forall|i: int| 0 <= i < rs.len() ==> (#[trigger] rs[i]) is Err
}

/// The classified outcome of a round: its apps and warnings, or, when every
/// backend failed, all the failures.
pub open spec fn round_outcome(rs: Seq<PluginResult>) -> Result<
    (Seq<AppSummary>, Seq<PluginFailure>),
    Seq<PluginFailure>,
> {
    if all_failed(rs) {
        Err(merged_warnings(rs))
    } else {
        Ok((merged_apps(rs), merged_warnings(rs)))
    }
}

/// The view of what `collect_popular` returns, `None` for an error other
/// than `AllFailed`.
pub open spec fn response_view(r: Result<HostResponse<Vec<AppSummary>>, HostError>) -> Option<
    Result<(Seq<AppSummary>, Seq<PluginFailure>), Seq<PluginFailure>>,
> {
    match r {
        Ok(resp) => Some(Ok((resp.data@, resp.warnings@))),
        Err(HostError::AllFailed(w)) => Some(Err(w@)),
        Err(HostError::RuntimeUnavailable) => None,
    }
}

proof fn lemma_merge_step(rs: Seq<PluginResult>, i: int)
    requires
        0 <= i < rs.len(),
    ensures
        merged_apps(rs.subrange(0, i + 1)) == merged_apps(rs.subrange(0, i)) + chunk_of(rs[i]),
        merged_warnings(rs.subrange(0, i + 1)) == if rs[i] is Err {
            merged_warnings(rs.subrange(0, i)).push(rs[i]->Err_0)
        } else {
            merged_warnings(rs.subrange(0, i))
        },
{
    let pre = rs.subrange(0, i);
    let cur = rs.subrange(0, i + 1);
    assert(cur =~= pre.push(rs[i]));
    let f = |r: PluginResult| chunk_of(r);
    assert(cur.map_values(f) =~= pre.map_values(f).push(chunk_of(rs[i])));
    pre.map_values(f).lemma_flatten_push(chunk_of(rs[i]));
    reveal(Seq::filter);
    assert(cur.drop_last() =~= pre);
    if rs[i] is Err {
        assert(failed_results(cur) == failed_results(pre).push(rs[i]));
        assert(failures_of(failed_results(cur)) =~= failures_of(failed_results(pre)).push(rs[i]->Err_0));
    } else {
        assert(failed_results(cur) == failed_results(pre));
    }
}

/// Merges the isolated results of one round, given in dispatch order, and
/// classifies it: total failure when there was at least one result and every
/// result is a failure, success (perhaps with warnings) otherwise.
pub fn collect_popular(results: Vec<PluginResult>) -> (r: Result<
    HostResponse<Vec<AppSummary>>,
    HostError,
>)
    ensures
        response_view(r) == Some(round_outcome(results@)),
{
    let ghost rs = results@;
    let plugin_count = results.len();
    let mut apps: Vec<AppSummary> = Vec::new();
    let mut warnings: Vec<PluginFailure> = Vec::new();
    let mut n_failed: usize = 0;
    let mut results = results;
    let mut index: usize = 0;
    assert(rs.subrange(0, 0).map_values(|r: PluginResult| chunk_of(r)) =~= Seq::<Seq<AppSummary>>::empty());
    assert(rs.subrange(0, 0).filter(|r: PluginResult| r is Err) =~= Seq::<PluginResult>::empty()) by {
        reveal(Seq::filter);
    }
    assert(apps@ =~= merged_apps(rs.subrange(0, 0)));
    assert(warnings@ =~= merged_warnings(rs.subrange(0, 0)));
    while results.len() > 0
        invariant
            plugin_count == rs.len(),
            index + results.len() == rs.len(),
            results@ == rs.subrange(index as int, rs.len() as int),
            apps@ == merged_apps(rs.subrange(0, index as int)),
            warnings@ == merged_warnings(rs.subrange(0, index as int)),
            warnings.len() == n_failed,
            n_failed <= index,
            n_failed == index <==> forall|j: int| 0 <= j < index ==> (#[trigger] rs[j]) is Err,
        decreases results.len(),
    {
        let result = results.remove(0);
        assert(result == rs[index as int]);
        proof {
            lemma_merge_step(rs, index as int);
        }
        match result {
            Ok(chunk) => {
                let mut chunk = chunk;
                apps.append(&mut chunk);
            },
            Err(failure) => {
                warnings.push(failure);
                n_failed = n_failed + 1;
            },
        }
        index = index + 1;
        assert(results@ =~= rs.subrange(index as int, rs.len() as int));
    }
    assert(rs.subrange(0, rs.len() as int) =~= rs);
    if apps.is_empty() && warnings.len() == plugin_count && plugin_count > 0 {
        return Err(HostError::AllFailed(warnings));
    }
    proof {
        if all_failed(rs) {
            assert(n_failed == index);
            assert(apps@ =~= Seq::<AppSummary>::empty()) by {
                lemma_no_apps_when_all_failed(rs);
            }
        }
    }
    Ok(HostResponse { data: apps, warnings })
}

proof fn lemma_no_apps_when_all_failed(rs: Seq<PluginResult>)
    requires
        forall|i: int| 0 <= i < rs.len() ==> (#[trigger] rs[i]) is Err,
    ensures
        merged_apps(rs) == Seq::<AppSummary>::empty(),
    decreases rs.len(),
{
    if rs.len() > 0 {
        let pre = rs.drop_last();
        lemma_no_apps_when_all_failed(pre);
        let f = |r: PluginResult| chunk_of(r);
        assert(rs =~= pre.push(rs.last()));
        assert(rs.map_values(f) =~= pre.map_values(f).push(chunk_of(rs.last())));
        pre.map_values(f).lemma_flatten_push(chunk_of(rs.last()));
        assert(merged_apps(rs) =~= Seq::<AppSummary>::empty());
    } else {
        assert(rs.map_values(|r: PluginResult| chunk_of(r)) =~= Seq::<Seq<AppSummary>>::empty());
    }
}


/// A backend whose call terminated abnormally is reported as exactly one
/// `Panic` failure attributed to it, and the rest of the round stands: the
/// round's apps are those of the other backends' results.
pub proof fn law_abnormal_termination_is_isolated(
    d: PluginDescriptor,
    rs: Seq<PluginResult>,
    i: int,
)
    requires
        0 <= i < rs.len(),
        result_view(rs[i]) == settled(d, None),
    ensures
        rs[i] == Err::<Vec<AppSummary>, PluginFailure>(
            PluginFailure { plugin: d.id, kind: PluginFailureKind::Panic, plugin_kind: d.kind },
        ),
        merged_warnings(rs).contains(rs[i]->Err_0),
        merged_apps(rs) == merged_apps(rs.remove(i)),
{
    let x = rs[i];
    let f = |r: PluginResult| chunk_of(r);
    let a = rs.subrange(0, i);
    let b = rs.subrange(i + 1, rs.len() as int);
    assert(rs =~= a.push(x) + b);
    assert(rs.remove(i) =~= a + b);
    assert(rs.map_values(f) =~= a.map_values(f).push(chunk_of(x)) + b.map_values(f));
    assert((a + b).map_values(f) =~= a.map_values(f) + b.map_values(f));
    vstd::seq_lib::lemma_flatten_concat(a.map_values(f).push(chunk_of(x)), b.map_values(f));
    vstd::seq_lib::lemma_flatten_concat(a.map_values(f), b.map_values(f));
    a.map_values(f).lemma_flatten_push(chunk_of(x));
    assert(chunk_of(x) =~= Seq::<AppSummary>::empty());
    assert(a.map_values(f).flatten() + chunk_of(x) =~= a.map_values(f).flatten());
    let p = |r: PluginResult| r is Err;
    rs.lemma_filter_contains(p, i);
    let fr = failed_results(rs);
    let j = choose|j: int| 0 <= j < fr.len() && fr[j] == x;
    assert(failures_of(fr)[j] == x->Err_0);
}

} // verus!

verus! {

/// The backends of a host in registration order, which is also the order in
/// which a round dispatches them.
pub struct PluginHostBuilder<B> {
    plugins: Vec<B>,
}

impl<B> PluginHostBuilder<B> {
    pub closed spec fn spec_plugins(&self) -> Seq<B> {
        self.plugins@
    }

    /// A builder with no backend registered.
    pub fn new() -> (r: Self)
        ensures
            r.spec_plugins() == Seq::<B>::empty(),
    {
        PluginHostBuilder { plugins: Vec::new() }
    }

    /// The same builder with `backend` registered after the others.
    pub fn with_backend(self, backend: B) -> (r: Self)
        ensures
            r.spec_plugins() == self.spec_plugins().push(backend),
    {
        let mut s = self;
        s.plugins.push(backend);
        s
    }

    /// The number of registered backends.
    pub fn plugin_count(&self) -> (r: usize)
        ensures
            r == self.spec_plugins().len(),
    {
        self.plugins.len()
    }

    /// The registered backends, in registration order.
    pub fn into_backends(self) -> (r: Vec<B>)
        ensures
            r@ == self.spec_plugins(),
    {
        self.plugins
    }
}

impl<B> Default for PluginHostBuilder<B> {
    fn default() -> (r: Self)
        ensures
            r.spec_plugins() == Seq::<B>::empty(),
    {
        PluginHostBuilder::new()
    }
}

} // verus!
