use vstd::prelude::*;

verus! {

/// The three mutually exclusive places a clipboard operation can be sent to.
#[derive(Clone, Copy, Debug, PartialEq, Eq, Structural)]
pub enum Backend {
    /// A Linux compatibility layer on a Windows host: the host's helper is used.
    Bridged,
    /// A remote terminal session: the terminal is asked through OSC 52.
    Remote,
    /// A desktop session with a platform clipboard service.
    Native,
}

/// The environment of the process as seen at the start of one operation.
pub struct EnvironmentContext {
    /// Whether the process runs inside a Linux compatibility layer hosted on Windows.
    pub compat_layer: bool,
    /// The value of the remote-session variable (`SSH_CLIENT`), if it is set.
    pub remote_indicator: Option<String>,
}

/// The fixed priority order: bridged before remote, native as the fallback.
pub open spec fn classify_spec(compat_layer: bool, remote_session: bool) -> Backend {
    if compat_layer {
        Backend::Bridged
    } else if remote_session {
        Backend::Remote
    } else {
        Backend::Native
    }
}

/// Relies on is_wsl::is_wsl: reads the kernel's release strings, so its
/// answer depends on the machine and nothing is promised of it.
#[verifier::external_body]
fn running_under_wsl() -> (r: bool) {
    is_wsl::is_wsl()
}

impl EnvironmentContext {
    /// A remote session is active when its variable is present and non-empty.
    pub open spec fn remote_session(&self) -> bool {
        self.remote_indicator matches Some(v) && v@.len() > 0
    }

    /// The backend that every operation in this environment goes to.
    pub open spec fn selected(&self) -> Backend {
        classify_spec(self.compat_layer, self.remote_session())
    }

    /// An environment given explicitly, for callers and tests that inject it.
    pub fn new(compat_layer: bool, remote_indicator: Option<String>) -> (r: Self)
        ensures
            r.compat_layer == compat_layer,
            r.remote_indicator == remote_indicator,
    {
        EnvironmentContext { compat_layer, remote_indicator }
    }

    /// The environment of this process: the compatibility layer is detected
    /// here, the remote-session variable is read by the caller.
    pub fn detect(remote_indicator: Option<String>) -> (r: Self)
        ensures
            r.remote_indicator == remote_indicator,
    {
        let compat_layer = running_under_wsl();
        EnvironmentContext { compat_layer, remote_indicator }
    }

    /// Whether the remote-session variable marks an active session.
    pub fn is_remote_session(&self) -> (r: bool)
        ensures
            r == self.remote_session(),
    {
        match &self.remote_indicator {
            Some(v) => !v.as_str().is_empty(),
            None => false,
        }
    }

    /// Picks exactly one backend, in the order bridged, remote, native.
    pub fn classify(&self) -> (r: Backend)
        ensures
            r == self.selected(),
    {
        if self.compat_layer {
            Backend::Bridged
        } else if self.is_remote_session() {
            Backend::Remote
        } else {
            Backend::Native
        }
    }
}

/// Classification is total and bridged wins over remote: whatever the
/// environment, the selected backend is one of the three, it is `Bridged`
/// exactly when the compatibility layer is present, `Remote` exactly when only
/// a remote session is, and `Native` otherwise.
pub proof fn classification_is_total_and_ordered(ctx: EnvironmentContext)
    ensures
        ctx.selected() == Backend::Bridged || ctx.selected() == Backend::Remote
            || ctx.selected() == Backend::Native,
        ctx.selected() == Backend::Bridged <==> ctx.compat_layer,
        ctx.selected() == Backend::Remote <==> (!ctx.compat_layer && ctx.remote_session()),
        ctx.selected() == Backend::Native <==> (!ctx.compat_layer && !ctx.remote_session()),
{
}

} // verus!
