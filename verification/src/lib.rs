//! Native-side bridge of a desktop application: a fixed set of host
//! capabilities (version introspection, directory resolution, external link
//! launching) exposed to an embedded UI layer, together with the process
//! singleton coordination that decides which instance serves them.
//!
//! The windowing shell, the OS path provider and the OS URL handler are
//! external collaborators: the surrounding binary queries them and hands the
//! bridge plain values, so everything the bridge decides is verified here.

pub mod dispatch;
pub mod info;
pub mod resolver;
pub mod singleton;

pub use dispatch::Bridge;
pub use dispatch::Command;
pub use dispatch::Dispatched;
pub use dispatch::Response;
pub use info::get_app_version;
pub use info::AppInfo;
pub use resolver::get_app_path;
pub use resolver::HostPaths;
