//! The command dispatcher: a fixed table of named operations callable by the
//! UI layer, routed to the directory resolver, the build-time introspection,
//! or the external launcher.
//!
//! Dispatch is stateless between invocations: every reply is a function of
//! the host snapshot and the command alone, so no call can corrupt, or wait
//! on, another.

use vstd::prelude::*;

use crate::info::app_name_text;
use crate::info::app_version_text;
use crate::info::get_app_version;
use crate::info::AppInfo;
use crate::resolver::get_app_path;
use crate::resolver::resolution;
use crate::resolver::HostPaths;
use crate::singleton::launch_transition;
use crate::singleton::CoordinatorState;
use crate::singleton::FocusAction;
use crate::singleton::StartupAction;

verus! {

/// One request from the UI layer: the dispatcher's whole operation table.
#[derive(Debug, PartialEq, Eq)]
pub enum Command {
    /// Request the build-time version/name pair.
    GetAppVersion,
    /// Resolve a symbolic directory key to a path.
    GetAppPath(String),
    /// Open a URL in the OS default handler.
    OpenExternalLink(String),
}

/// One reply serialized back to the UI layer.
#[derive(Debug, PartialEq, Eq)]
pub enum Response {
    /// The build-time metadata.
    Version(AppInfo),
    /// The resolved path, or `None` for an unrecognized key or an unresolved
    /// directory family.
    Path(Option<String>),
    /// The external launcher reported success.
    LaunchOk,
    /// The external launcher failed; the single opaque error text, passed on
    /// verbatim.
    LaunchFailed(String),
}

/// What dispatching one command yields: an immediate reply, or an instruction
/// to the external launcher, which the surrounding binary performs off the UI
/// loop and answers through [`Bridge::launch_reply`].
#[derive(Debug, PartialEq, Eq)]
pub enum Dispatched {
    /// The command was answered synchronously.
    Reply(Response),
    /// Hand this URL to the OS default handler. The URL is forwarded as
    /// received: no syntax validation and no scheme allow-listing, since the
    /// UI surface is part of the trusted application.
    Launch(String),
}

/// The dispatcher's contract, one clause per operation: the reply to
/// `GetAppVersion` carries the build-time constants, the reply to
/// `GetAppPath` is exactly the resolver's answer, and `OpenExternalLink`
/// forwards its URL to the launcher untouched.
pub open spec fn dispatched_correctly(host: HostPaths, cmd: Command, r: Dispatched) -> bool {
    match cmd {
        Command::GetAppVersion => r matches Dispatched::Reply(Response::Version(info))
            && info.version@ == app_version_text() && info.name@ == app_name_text(),
        Command::GetAppPath(key) => r == Dispatched::Reply(Response::Path(resolution(host, key@))),
        Command::OpenExternalLink(url) => r == Dispatched::Launch(url),
    }
}

/// The native bridge of one process instance: the singleton-coordination
/// state and the host snapshot that dispatch answers from.
pub struct Bridge {
    /// Where this instance stands with respect to the singleton marker.
    pub state: CoordinatorState,
    /// The platform path-provider's answers, queried once by the surrounding
    /// binary at startup; the underlying OS paths are assumed stable for the
    /// process lifetime.
    pub host: HostPaths,
}

impl Bridge {
    /// A bridge for a process that has not yet attempted to acquire the
    /// singleton marker.
    pub fn new(host: HostPaths) -> (b: Bridge)
        ensures
            b.state == CoordinatorState::Unstarted,
            b.host == host,
    {
        Bridge { state: CoordinatorState::Unstarted, host }
    }

    /// Called once at process start with the outcome of the one
    /// marker-acquisition attempt; walks the launch transition and tells the
    /// surrounding binary whether to initialize and serve or to forward and
    /// terminate.
    pub fn on_launch(&mut self, acquired: bool) -> (a: StartupAction)
        requires
            old(self).state == CoordinatorState::Unstarted,
        ensures
            final(self).host == old(self).host,
            (final(self).state, a) == launch_transition(acquired),
    {
        if acquired {
            self.state = CoordinatorState::Primary;
            StartupAction::InitializeAndServe
        } else {
            self.state = CoordinatorState::SecondaryExiting;
            StartupAction::ForwardAndExit
        }
    }

    /// The primary consumes one forwarded second-instance signal: raise the
    /// main surface when one exists, drop the signal otherwise.
    pub fn on_second_instance(&self, has_main_surface: bool) -> (a: FocusAction)
        requires
            self.state == CoordinatorState::Primary,
        ensures
            a == crate::singleton::focus_transition(has_main_surface),
    {
        if has_main_surface {
            FocusAction::RaiseMainSurface
        } else {
            FocusAction::DropSignal
        }
    }

    /// Serves one command. Only the instance holding the singleton marker
    /// dispatches; no handler can fail, and none writes any state.
    pub fn dispatch(&self, cmd: &Command) -> (r: Dispatched)
        requires
            self.state == CoordinatorState::Primary,
        ensures
            dispatched_correctly(self.host, *cmd, r),
    {
        match cmd {
            Command::GetAppVersion => Dispatched::Reply(Response::Version(get_app_version())),
            Command::GetAppPath(key) => Dispatched::Reply(
                Response::Path(get_app_path(&self.host, key.as_str())),
            ),
            Command::OpenExternalLink(url) => Dispatched::Launch(url.clone()),
        }
    }

    /// Serves a batch of commands issued from the UI loop. Each reply is
    /// determined by the snapshot and its own command alone — dispatch holds
    /// no state between invocations — so no command's outcome depends on any
    /// other in the batch, in particular not on an in-flight launch.
    pub fn dispatch_all(&self, cmds: &Vec<Command>) -> (rs: Vec<Dispatched>)
        requires
            self.state == CoordinatorState::Primary,
        ensures
            rs@.len() == cmds@.len(),
            forall|i: int|
                0 <= i < cmds@.len() ==> dispatched_correctly(
                    self.host,
                    cmds@[i],
                    #[trigger] rs@[i],
                ),
    {
        let mut rs: Vec<Dispatched> = Vec::new();
        let mut i: usize = 0;
        while i < cmds.len()
            invariant
                self.state == CoordinatorState::Primary,
                i <= cmds@.len(),
                rs@.len() == i as nat,
                forall|j: int|
                    0 <= j < i ==> dispatched_correctly(self.host, cmds@[j], #[trigger] rs@[j]),
            decreases cmds@.len() - i,
        {
            let r = self.dispatch(&cmds[i]);
            rs.push(r);
            i += 1;
        }
        rs
    }

    /// Folds the external launcher's outcome into the reply for
    /// `OpenExternalLink`: success is the plain acknowledgement; every
    /// failure — handler not found, launch failed, permission denied — is the
    /// single opaque error text, passed on verbatim, never retried.
    pub fn launch_reply(&self, outcome: Result<(), String>) -> (r: Response)
        ensures
            outcome is Ok ==> r == Response::LaunchOk,
            outcome matches Err(e) ==> r == Response::LaunchFailed(e),
    {
        match outcome {
            Ok(()) => Response::LaunchOk,
            Err(e) => Response::LaunchFailed(e),
        }
    }
}

} // verus!
