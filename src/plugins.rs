use std::time::Duration;
use vstd::prelude::*;

verus! {

/// The text that `Debug` gives for a duration (for example `250ms`).
pub uninterp spec fn duration_debug_text(d: Duration) -> Seq<char>;

/// The duration that `Duration::from_millis` builds from a count of milliseconds.
pub uninterp spec fn duration_of_millis(ms: u64) -> Duration;

/// Relies on `std::time::Duration::from_millis`: a pure constructor, whose
/// result depends on the count alone.
pub assume_specification[ core::time::Duration::from_millis ](millis: u64) -> (r: Duration)
    ensures
        r == duration_of_millis(millis),
;

/// Relies on the `Debug` impl of `std::time::Duration`, which renders the
/// value alone (for example `120ms` or `1.5s`).
#[verifier::external_body]
fn duration_text(d: &Duration) -> (r: String)
    ensures
        r@ == duration_debug_text(*d),
{
    format!("{:?}", d)
}

/// One discoverable application entry, as reported by a backend.
#[derive(Debug, PartialEq, Eq)]
pub struct AppSummary {
    pub app_id: String,
    pub name: String,
    pub summary: String,
    pub source: String,
}

impl Clone for AppSummary {
    fn clone(&self) -> (r: Self)
        ensures
            r == *self,
    {
        AppSummary {
            app_id: self.app_id.clone(),
            name: self.name.clone(),
            summary: self.summary.clone(),
            source: self.source.clone(),
        }
    }
}

/// True when `a` holds exactly the four given texts.
pub open spec fn entry_is(
    a: AppSummary,
    app_id: Seq<char>,
    name: Seq<char>,
    summary: Seq<char>,
    source: Seq<char>,
) -> bool {
    &&& a.app_id@ == app_id
    &&& a.name@ == name
    &&& a.summary@ == summary
    &&& a.source@ == source
}

/// The family a backend belongs to.
#[derive(Debug, Clone, Copy, PartialEq, Eq, Structural)]
pub enum PluginKind {
    Legacy,
    Native,
}

/// The stable identity of one backend instance.
#[derive(Debug, PartialEq, Eq)]
pub struct PluginDescriptor {
    pub id: String,
    pub kind: PluginKind,
}

impl Clone for PluginDescriptor {
    fn clone(&self) -> (r: Self)
        ensures
            r == *self,
    {
        PluginDescriptor { id: self.id.clone(), kind: self.kind }
    }
}

/// An error that a backend reports through its normal return path.
#[derive(Debug, PartialEq, Eq)]
pub enum PluginExecutionError {
    LegacyUnavailable,
    Operation(String),
    Timeout(Duration),
}

impl Clone for PluginExecutionError {
    fn clone(&self) -> (r: Self)
        ensures
            r == *self,
    {
        match self {
            PluginExecutionError::LegacyUnavailable => PluginExecutionError::LegacyUnavailable,
            PluginExecutionError::Operation(m) => PluginExecutionError::Operation(m.clone()),
            PluginExecutionError::Timeout(d) => PluginExecutionError::Timeout(*d),
        }
    }
}

/// The human-readable text of an execution error.
pub open spec fn execution_error_text(e: PluginExecutionError) -> Seq<char> {
    match e {
        PluginExecutionError::LegacyUnavailable => "legacy backend unavailable"@,
        PluginExecutionError::Operation(m) => "operation failed: "@ + m@,
        PluginExecutionError::Timeout(d) => "timed out after "@ + duration_debug_text(d),
    }
}

impl PluginExecutionError {
    pub fn message(&self) -> (r: String)
        ensures
            r@ == execution_error_text(*self),
    {
        match self {
            PluginExecutionError::LegacyUnavailable => "legacy backend unavailable".to_string(),
            PluginExecutionError::Operation(m) => {
                let mut s = "operation failed: ".to_string();
                s.append(m.as_str());
                s
            },
            PluginExecutionError::Timeout(d) => {
                let mut s = "timed out after ".to_string();
                let t = duration_text(d);
                s.append(t.as_str());
                s
            },
        }
    }
}

/// Why one backend did not contribute to a round.
#[derive(Debug, PartialEq, Eq)]
pub enum PluginFailureKind {
    /// The backend returned an error.
    Execution(PluginExecutionError),
    /// The backend's call terminated abnormally instead of returning.
    Panic,
}

impl Clone for PluginFailureKind {
    fn clone(&self) -> (r: Self)
        ensures
            r == *self,
    {
        match self {
            PluginFailureKind::Execution(e) => PluginFailureKind::Execution(e.clone()),
            PluginFailureKind::Panic => PluginFailureKind::Panic,
        }
    }
}

impl From<PluginExecutionError> for PluginFailureKind {
    fn from(e: PluginExecutionError) -> (r: Self) {
        PluginFailureKind::Execution(e)
    }
}

impl vstd::std_specs::convert::FromSpecImpl<PluginExecutionError> for PluginFailureKind {
    open spec fn obeys_from_spec() -> bool {
        true
    }

    open spec fn from_spec(e: PluginExecutionError) -> PluginFailureKind {
        PluginFailureKind::Execution(e)
    }
}

/// The human-readable text of a failure kind.
pub open spec fn failure_kind_text(k: PluginFailureKind) -> Seq<char> {
    match k {
        PluginFailureKind::Execution(e) => execution_error_text(e),
        PluginFailureKind::Panic => "panic in plugin"@,
    }
}

impl PluginFailureKind {
    pub fn message(&self) -> (r: String)
        ensures
            r@ == failure_kind_text(*self),
    {
        match self {
            PluginFailureKind::Execution(e) => e.message(),
            PluginFailureKind::Panic => "panic in plugin".to_string(),
        }
    }
}

/// A failure attributed to the backend that produced it.
#[derive(Debug, PartialEq, Eq)]
pub struct PluginFailure {
    pub plugin: String,
    pub kind: PluginFailureKind,
    pub plugin_kind: PluginKind,
}

impl Clone for PluginFailure {
    fn clone(&self) -> (r: Self)
        ensures
            r == *self,
    {
        PluginFailure {
            plugin: self.plugin.clone(),
            kind: self.kind.clone(),
            plugin_kind: self.plugin_kind,
        }
    }
}

/// A data source of application listings.
///
/// `descriptor` returns the same identity on every call. `list_popular_apps`
/// may be slow and may fail; the host never calls it on one backend while a
/// previous call on that backend is outstanding.
pub trait PluginBackend: Send + Sync {
    fn descriptor(&self) -> &PluginDescriptor;

    fn list_popular_apps(&self) -> Result<Vec<AppSummary>, PluginExecutionError>;
}

/// A backend that stands for a plugin of the legacy native loader. Without
/// that loader in this build, every listing reports the backend unavailable.
pub struct LegacyPluginAdapter {
    descriptor: PluginDescriptor,
    plugin_name: String,
}

impl LegacyPluginAdapter {
    pub closed spec fn spec_descriptor(&self) -> PluginDescriptor {
        self.descriptor
    }

    pub closed spec fn spec_plugin_name(&self) -> Seq<char> {
        self.plugin_name@
    }

    /// An adapter for the legacy plugin `name`, identified as `legacy::<name>`.
    pub fn new(name: &str) -> (r: Self)
        ensures
            r.spec_descriptor().id@ == "legacy::"@ + name@,
            r.spec_descriptor().kind == PluginKind::Legacy,
            r.spec_plugin_name() == name@,
    {
        let mut id = "legacy::".to_string();
        id.append(name);
        LegacyPluginAdapter {
            descriptor: PluginDescriptor { id, kind: PluginKind::Legacy },
            plugin_name: name.to_string(),
        }
    }

    /// The name of the legacy plugin this adapter stands for.
    pub fn plugin_name(&self) -> (r: &str)
        ensures
            r@ == self.spec_plugin_name(),
    {
        self.plugin_name.as_str()
    }
}

impl PluginBackend for LegacyPluginAdapter {
    fn descriptor(&self) -> (r: &PluginDescriptor)
        ensures
            *r == self.spec_descriptor(),
    {
        &self.descriptor
    }

    fn list_popular_apps(&self) -> (r: Result<Vec<AppSummary>, PluginExecutionError>)
        ensures
            r == Err::<Vec<AppSummary>, PluginExecutionError>(PluginExecutionError::LegacyUnavailable),
    {
        Err(PluginExecutionError::LegacyUnavailable)
    }
}

/// The simulated latency of a new `NativeMockPlugin`, in milliseconds.
pub const DEFAULT_MOCK_DELAY_MS: u64 = 250;

/// A native backend that serves a fixed catalogue of three applications.
pub struct NativeMockPlugin {
    descriptor: PluginDescriptor,
    delay: Duration,
}

/// True when `apps` is the fixed catalogue that `NativeMockPlugin` serves.
pub open spec fn is_mock_catalogue(apps: Seq<AppSummary>) -> bool {
    &&& apps.len() == 3
    &&& entry_is(
        apps[0],
        "org.gnome.Fractal"@,
        "Fractal"@,
        "Matrix messaging client for GNOME."@,
        "mock::flatpak"@,
    )
    &&& entry_is(
        apps[1],
        "org.gimp.GIMP"@,
        "GNU Image Manipulation Program"@,
        "Powerful graphics editor."@,
        "mock::flatpak"@,
    )
    &&& entry_is(
        apps[2],
        "org.mozilla.firefox"@,
        "Firefox"@,
        "Web browser focused on privacy."@,
        "mock::packagekit"@,
    )
}

impl NativeMockPlugin {
    pub closed spec fn spec_descriptor(&self) -> PluginDescriptor {
        self.descriptor
    }

    pub closed spec fn spec_delay(&self) -> Duration {
        self.delay
    }

    /// A mock backend identified by `id`, with the default simulated latency.
    pub fn new(id: &str) -> (r: Self)
        ensures
            r.spec_descriptor().id@ == id@,
            r.spec_descriptor().kind == PluginKind::Native,
            r.spec_delay() == duration_of_millis(DEFAULT_MOCK_DELAY_MS),
    {
        NativeMockPlugin {
            descriptor: PluginDescriptor { id: id.to_string(), kind: PluginKind::Native },
            delay: Duration::from_millis(DEFAULT_MOCK_DELAY_MS),
        }
    }

    /// The same backend with its simulated latency set to `delay`.
    pub fn with_delay(self, delay: Duration) -> (r: Self)
        ensures
            r.spec_descriptor() == self.spec_descriptor(),
            r.spec_delay() == delay,
    {
        let mut s = self;
        s.delay = delay;
        s
    }

    /// The simulated latency that a caller should wait before each listing.
    pub fn delay(&self) -> (r: Duration)
        ensures
            r == self.spec_delay(),
    {
        self.delay
    }
}

impl PluginBackend for NativeMockPlugin {
    fn descriptor(&self) -> (r: &PluginDescriptor)
        ensures
            *r == self.spec_descriptor(),
    {
        &self.descriptor
    }

    fn list_popular_apps(&self) -> (r: Result<Vec<AppSummary>, PluginExecutionError>)
        ensures
            r is Ok,
            is_mock_catalogue(r->Ok_0@),
    {
        let apps = vec![
            AppSummary {
                app_id: "org.gnome.Fractal".to_string(),
                name: "Fractal".to_string(),
                summary: "Matrix messaging client for GNOME.".to_string(),
                source: "mock::flatpak".to_string(),
            },
            AppSummary {
                app_id: "org.gimp.GIMP".to_string(),
                name: "GNU Image Manipulation Program".to_string(),
                summary: "Powerful graphics editor.".to_string(),
                source: "mock::flatpak".to_string(),
            },
            AppSummary {
                app_id: "org.mozilla.firefox".to_string(),
                name: "Firefox".to_string(),
                summary: "Web browser focused on privacy.".to_string(),
                source: "mock::packagekit".to_string(),
            },
        ];
        Ok(apps)
    }
}

} // verus!
