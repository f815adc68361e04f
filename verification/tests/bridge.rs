use native_bridge::dispatch::Bridge;
use native_bridge::dispatch::Command;
use native_bridge::dispatch::Dispatched;
use native_bridge::dispatch::Response;
use native_bridge::get_app_version;
use native_bridge::singleton::CoordinatorState;
use native_bridge::singleton::FocusAction;
use native_bridge::singleton::StartupAction;
use native_bridge::HostPaths;

fn host() -> HostPaths {
    HostPaths {
        app_data: Some(String::from("/home/u/.local/share/app")),
        app_cache: Some(String::from("/home/u/.cache/app")),
        app_log: Some(String::from("/home/u/.local/share/app/logs")),
        home: Some(String::from("/home/u")),
        temp: Some(String::from("/tmp")),
    }
}

fn primary() -> Bridge {
    let mut b = Bridge::new(host());
    let action = b.on_launch(true);
    assert_eq!(action, StartupAction::InitializeAndServe);
    b
}

#[test]
fn version_reports_build_time_metadata_on_every_call() {
    let first = get_app_version();
    assert_eq!(first.version, "0.1.0");
    assert_eq!(first.name, "native_bridge");
    let second = get_app_version();
    assert_eq!(first, second);
}

#[test]
fn second_launch_does_not_become_primary() {
    let mut first = Bridge::new(host());
    let mut second = Bridge::new(host());
    // The OS marker admits one holder: the first attempt wins, the second
    // must find it taken.
    let a1 = first.on_launch(true);
    let a2 = second.on_launch(false);
    assert_eq!(a1, StartupAction::InitializeAndServe);
    assert_eq!(first.state, CoordinatorState::Primary);
    assert_eq!(a2, StartupAction::ForwardAndExit);
    assert_eq!(second.state, CoordinatorState::SecondaryExiting);
}

#[test]
fn primary_raises_surface_or_drops_signal() {
    let b = primary();
    assert_eq!(b.on_second_instance(true), FocusAction::RaiseMainSurface);
    assert_eq!(b.on_second_instance(false), FocusAction::DropSignal);
}

#[test]
fn dispatch_answers_each_operation() {
    let b = primary();
    assert!(matches!(
        b.dispatch(&Command::GetAppVersion),
        Dispatched::Reply(Response::Version(info))
            if info.version == "0.1.0" && info.name == "native_bridge"
    ));
    assert_eq!(
        b.dispatch(&Command::GetAppPath(String::from("temp"))),
        Dispatched::Reply(Response::Path(Some(String::from("/tmp"))))
    );
    assert_eq!(
        b.dispatch(&Command::GetAppPath(String::from("nowhere"))),
        Dispatched::Reply(Response::Path(None))
    );
    assert_eq!(
        b.dispatch(&Command::OpenExternalLink(String::from("https://example.com"))),
        Dispatched::Launch(String::from("https://example.com"))
    );
}

#[test]
fn launch_failure_is_reported_and_isolated() {
    let b = primary();
    // An unroutable scheme is forwarded untouched: validation is the OS
    // handler's, by design.
    let url = String::from("bogus-scheme://nothing");
    assert_eq!(
        b.dispatch(&Command::OpenExternalLink(url.clone())),
        Dispatched::Launch(url)
    );
    // The OS handler failed; the error text comes back verbatim.
    let reply = b.launch_reply(Err(String::from("no handler for scheme")));
    assert_eq!(
        reply,
        Response::LaunchFailed(String::from("no handler for scheme"))
    );
    // The dispatcher still serves every other request, unchanged.
    assert_eq!(
        b.dispatch(&Command::GetAppPath(String::from("home"))),
        Dispatched::Reply(Response::Path(Some(String::from("/home/u"))))
    );
    assert!(matches!(
        b.dispatch(&Command::GetAppVersion),
        Dispatched::Reply(Response::Version(_))
    ));
}

#[test]
fn launch_success_is_acknowledged() {
    let b = primary();
    assert_eq!(b.launch_reply(Ok(())), Response::LaunchOk);
}

#[test]
fn batch_replies_do_not_wait_on_the_launcher() {
    let b = primary();
    // A launch sits in the middle of the batch; the other commands complete
    // with their own replies regardless of its outcome.
    let cmds = vec![
        Command::GetAppVersion,
        Command::OpenExternalLink(String::from("https://example.com")),
        Command::GetAppPath(String::from("appCache")),
    ];
    let replies = b.dispatch_all(&cmds);
    assert_eq!(replies.len(), 3);
    assert!(matches!(
        &replies[0],
        Dispatched::Reply(Response::Version(info))
            if info.version == "0.1.0" && info.name == "native_bridge"
    ));
    assert_eq!(
        replies[1],
        Dispatched::Launch(String::from("https://example.com"))
    );
    assert_eq!(
        replies[2],
        Dispatched::Reply(Response::Path(Some(String::from("/home/u/.cache/app"))))
    );
}
