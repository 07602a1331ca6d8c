use rpatchur::config::{
    LaunchConfiguration, PatcherConfiguration, WebConfiguration, WindowConfiguration,
};
use rpatchur::messages::{status_effect, PatcherCommand, PatchingStatus, UiEffect};
use rpatchur::request::{parse_request, request_from_json, LoginParameters, Request, RequestError};
use rpatchur::user_data::{
    cache_file_name, compose_login_arguments, report_send, Action, LaunchRequest, WebViewUserData,
};

fn strings(v: &[&str]) -> Vec<String> {
    v.iter().map(|s| s.to_string()).collect()
}

fn config(play_args: &[&str]) -> PatcherConfiguration {
    PatcherConfiguration {
        window: WindowConfiguration { width: 800, height: 600, resizable: false },
        web: WebConfiguration { index_url: "http://localhost/index.html".to_string() },
        play: LaunchConfiguration {
            path: "client.exe".to_string(),
            arguments: strings(play_args),
            exit_on_success: None,
        },
        setup: LaunchConfiguration {
            path: "setup.exe".to_string(),
            arguments: strings(&["--setup"]),
            exit_on_success: None,
        },
    }
}

struct Harness {
    d: WebViewUserData,
    tx: flume::Sender<PatcherCommand>,
}

impl Harness {
    /// Hands the commands among the actions to the channel, as the front end
    /// does, and returns the rest together with the reports of failed sends.
    fn perform(&self, actions: Vec<Action>) -> Vec<Action> {
        let mut out = Vec::new();
        for a in actions {
            match a {
                Action::Send(c) => {
                    let delivered = self.tx.try_send(c.clone()).is_ok();
                    report_send(c, delivered, &mut out);
                }
                other => out.push(other),
            }
        }
        out
    }

    fn handle_request(&mut self, text: &str) -> Vec<Action> {
        let actions = self.d.handle_request(text);
        self.perform(actions)
    }

    fn patch_file_chosen(&mut self, path: Option<String>) -> Vec<Action> {
        let actions = self.d.patch_file_chosen(path);
        self.perform(actions)
    }

    fn set_patch_in_progress(&mut self, value: bool) {
        self.d.set_patch_in_progress(value);
    }

    fn patching_in_progress(&self) -> bool {
        self.d.patching_in_progress()
    }

    fn teardown(&mut self) {
        if let Some(c) = self.d.teardown() {
            let _ = self.tx.try_send(c);
        }
    }
}

fn user_data(play_args: &[&str]) -> (Harness, flume::Receiver<PatcherCommand>) {
    let (tx, rx) = flume::unbounded();
    (Harness { d: WebViewUserData::new(config(play_args)), tx }, rx)
}

fn drain(rx: &flume::Receiver<PatcherCommand>) -> Vec<PatcherCommand> {
    rx.try_iter().collect()
}

#[test]
fn login_arguments_order() {
    let (mut d, rx) = user_data(&["x"]);
    let actions =
        d.handle_request(r#"{"function": "login", "parameters": {"login": "alice", "password": "p@ss"}}"#);
    assert_eq!(
        actions,
        vec![Action::Launch(LaunchRequest {
            executable: "client.exe".to_string(),
            arguments: strings(&["-t:p@ss", "alice", "server", "x"]),
            exit_on_success: true,
        })]
    );
    assert!(drain(&rx).is_empty());
}

#[test]
fn compose_login_arguments_without_extra() {
    let p = LoginParameters { login: "bob".to_string(), password: "pw".to_string() };
    assert_eq!(compose_login_arguments(&p, &Vec::new()), strings(&["-t:pw", "bob", "server"]));
}

#[test]
fn login_parameters_as_array() {
    let (mut d, _rx) = user_data(&[]);
    let actions = d.handle_request(r#"{"function": "login", "parameters": ["alice", "p@ss"]}"#);
    assert_eq!(
        actions,
        vec![Action::Launch(LaunchRequest {
            executable: "client.exe".to_string(),
            arguments: strings(&["-t:p@ss", "alice", "server"]),
            exit_on_success: true,
        })]
    );
}

#[test]
fn login_with_invalid_parameters() {
    let (mut d, rx) = user_data(&[]);
    for text in [
        r#"{"function": "login", "parameters": {"login": "alice"}}"#,
        r#"{"function": "login", "parameters": {"login": "alice", "password": 3}}"#,
        r#"{"function": "login", "parameters": ["alice"]}"#,
        r#"{"function": "login", "parameters": ["alice", "p", "q"]}"#,
        r#"{"function": "login"}"#,
    ] {
        let actions = d.handle_request(text);
        assert_eq!(
            actions,
            vec![Action::Report(RequestError::InvalidArguments("login".to_string()))]
        );
    }
    assert!(drain(&rx).is_empty());
}

#[test]
fn login_ignores_extra_members() {
    let r = parse_request(r#"{"function": "login", "parameters": {"password": "b", "login": "a", "z": 1}}"#);
    assert_eq!(
        r,
        Request::Login(LoginParameters { login: "a".to_string(), password: "b".to_string() })
    );
}

#[test]
fn open_url_request() {
    let (mut d, rx) = user_data(&[]);
    let actions = d.handle_request(r#"{"function": "open_url", "parameters": {"url": "https://example.com"}}"#);
    assert_eq!(actions, vec![Action::OpenUrl("https://example.com".to_string())]);
    let actions = d.handle_request(r#"{"function": "open_url", "parameters": {"link": "x"}}"#);
    assert_eq!(
        actions,
        vec![Action::Report(RequestError::InvalidArguments("open_url".to_string()))]
    );
    assert!(drain(&rx).is_empty());
}

#[test]
fn unknown_function_is_reported_once() {
    let (mut d, rx) = user_data(&[]);
    let actions = d.handle_request(r#"{"function": "format_disk", "parameters": {}}"#);
    assert_eq!(
        actions,
        vec![Action::Report(RequestError::UnknownFunction("format_disk".to_string()))]
    );
    assert!(drain(&rx).is_empty());
}

#[test]
fn malformed_json_is_reported_once() {
    let (mut d, rx) = user_data(&[]);
    for text in ["{\"function\": ", "launch", ""] {
        assert_eq!(d.handle_request(text), vec![Action::Report(RequestError::InvalidJson)]);
    }
    assert!(drain(&rx).is_empty());
}

#[test]
fn json_without_function_is_reported() {
    let (mut d, rx) = user_data(&[]);
    for text in [r#"{"parameters": {}}"#, r#"{"function": 7}"#, "[1, 2]", "\"play\""] {
        assert_eq!(
            d.handle_request(text),
            vec![Action::Report(RequestError::MissingFunction)]
        );
    }
    assert!(drain(&rx).is_empty());
}

#[test]
fn failed_sends_are_reported() {
    let (mut d, rx) = user_data(&[]);
    drop(rx);
    assert_eq!(
        d.handle_request("start_update"),
        vec![Action::SendFailed(PatcherCommand::StartUpdate)]
    );
    assert_eq!(
        d.handle_request("cancel_update"),
        vec![Action::SendFailed(PatcherCommand::CancelUpdate)]
    );
    assert_eq!(
        d.patch_file_chosen(Some("a.thor".to_string())),
        vec![Action::SendFailed(PatcherCommand::ApplyPatch("a.thor".to_string()))]
    );
}

#[test]
fn full_channel_does_not_block() {
    let (tx, rx) = flume::bounded(1);
    let mut d = Harness { d: WebViewUserData::new(config(&[])), tx };
    assert!(d.handle_request("cancel_update").is_empty());
    assert_eq!(
        d.handle_request("start_update"),
        vec![Action::SendFailed(PatcherCommand::StartUpdate)]
    );
    d.teardown();
    assert_eq!(drain(&rx), vec![PatcherCommand::CancelUpdate]);
}

#[test]
fn request_from_parsed_json() {
    let v: serde_json::Value =
        serde_json::from_str(r#"{"function": "open_url", "parameters": ["u"]}"#).unwrap();
    assert_eq!(request_from_json(&v), Request::OpenUrl("u".to_string()));
    let v: serde_json::Value = serde_json::from_str(r#"{"function": "nope"}"#).unwrap();
    assert_eq!(
        request_from_json(&v),
        Request::Rejected(RequestError::UnknownFunction("nope".to_string()))
    );
}

#[test]
fn command_names() {
    assert_eq!(parse_request("play"), Request::Play);
    assert_eq!(parse_request("setup"), Request::Setup);
    assert_eq!(parse_request("exit"), Request::Exit);
    assert_eq!(parse_request("start_update"), Request::StartUpdate);
    assert_eq!(parse_request("cancel_update"), Request::CancelUpdate);
    assert_eq!(parse_request("reset_cache"), Request::ResetCache);
    assert_eq!(parse_request("manual_patch"), Request::ManualPatch);
    assert_eq!(parse_request("\"play\""), Request::Rejected(RequestError::MissingFunction));
    assert_eq!(parse_request("Play"), Request::Rejected(RequestError::InvalidJson));
}

#[test]
fn start_update_when_idle_sends_command() {
    let (mut d, rx) = user_data(&[]);
    assert!(d.handle_request("start_update").is_empty());
    assert_eq!(drain(&rx), vec![PatcherCommand::StartUpdate]);
}

#[test]
fn start_update_while_in_progress_notifies() {
    let (mut d, rx) = user_data(&[]);
    d.set_patch_in_progress(true);
    assert!(d.patching_in_progress());
    for _ in 0..3 {
        assert_eq!(
            d.handle_request("start_update"),
            vec![Action::Show(UiEffect::NotificationInProgress)]
        );
    }
    assert!(drain(&rx).is_empty());
    d.set_patch_in_progress(false);
    assert!(d.handle_request("start_update").is_empty());
    assert_eq!(drain(&rx), vec![PatcherCommand::StartUpdate]);
}

#[test]
fn manual_patch_flow() {
    let (mut d, rx) = user_data(&[]);
    assert_eq!(d.handle_request("manual_patch"), vec![Action::PickPatchFile]);
    assert!(d.patch_file_chosen(None).is_empty());
    assert!(drain(&rx).is_empty());
    assert!(d.patch_file_chosen(Some("a.thor".to_string())).is_empty());
    assert_eq!(drain(&rx), vec![PatcherCommand::ApplyPatch("a.thor".to_string())]);
}

#[test]
fn manual_patch_while_in_progress_notifies() {
    let (mut d, rx) = user_data(&[]);
    d.set_patch_in_progress(true);
    assert_eq!(
        d.handle_request("manual_patch"),
        vec![Action::Show(UiEffect::NotificationInProgress)]
    );
    assert_eq!(
        d.patch_file_chosen(Some("a.thor".to_string())),
        vec![Action::Show(UiEffect::NotificationInProgress)]
    );
    assert!(drain(&rx).is_empty());
}

#[test]
fn cancel_update_is_always_sent() {
    let (mut d, rx) = user_data(&[]);
    d.set_patch_in_progress(true);
    assert!(d.handle_request("cancel_update").is_empty());
    assert_eq!(drain(&rx), vec![PatcherCommand::CancelUpdate]);
}

#[test]
fn reset_cache_only_removes_file() {
    let (mut d, rx) = user_data(&[]);
    assert_eq!(d.handle_request("reset_cache"), vec![Action::RemoveCacheFile]);
    assert!(drain(&rx).is_empty());
    assert_eq!(cache_file_name("rpatchur"), "rpatchur.dat");
    assert_eq!(cache_file_name(""), ".dat");
}

#[test]
fn play_and_setup_launch() {
    let (mut d, _rx) = user_data(&["-a", "-b"]);
    assert_eq!(
        d.handle_request("play"),
        vec![Action::Launch(LaunchRequest {
            executable: "client.exe".to_string(),
            arguments: strings(&["-a", "-b"]),
            exit_on_success: true,
        })]
    );
    assert_eq!(
        d.handle_request("setup"),
        vec![Action::Launch(LaunchRequest {
            executable: "setup.exe".to_string(),
            arguments: strings(&["--setup"]),
            exit_on_success: false,
        })]
    );
    assert_eq!(d.handle_request("exit"), vec![Action::Exit]);
}

#[test]
fn configured_exit_flags_win() {
    let mut c = config(&[]);
    c.play.exit_on_success = Some(false);
    c.setup.exit_on_success = Some(true);
    let d = WebViewUserData::new(c);
    assert!(matches!(&d.handle_request("play")[0], Action::Launch(l) if !l.exit_on_success));
    assert!(matches!(&d.handle_request("setup")[0], Action::Launch(l) if l.exit_on_success));
}

#[test]
fn teardown_sends_one_quit() {
    let (mut d, rx) = user_data(&[]);
    d.handle_request("cancel_update");
    d.teardown();
    d.teardown();
    assert_eq!(
        d.handle_request("start_update"),
        vec![Action::SendFailed(PatcherCommand::StartUpdate)]
    );
    assert_eq!(drain(&rx), vec![PatcherCommand::CancelUpdate, PatcherCommand::Quit]);
}

#[test]
fn teardown_with_worker_gone() {
    let (mut d, rx) = user_data(&[]);
    drop(rx);
    d.teardown();
    d.teardown();
    assert_eq!(
        d.handle_request("cancel_update"),
        vec![Action::SendFailed(PatcherCommand::CancelUpdate)]
    );
}

#[test]
fn status_effects_keep_arguments() {
    assert_eq!(status_effect(PatchingStatus::Ready), UiEffect::ShowReady);
    assert_eq!(
        status_effect(PatchingStatus::Error("boom".to_string())),
        UiEffect::StatusError("boom".to_string())
    );
    assert_eq!(
        status_effect(PatchingStatus::DownloadInProgress(3, 10, 1024)),
        UiEffect::StatusDownloading(3, 10, 1024)
    );
    assert_eq!(
        status_effect(PatchingStatus::InstallationInProgress(2, 5)),
        UiEffect::StatusInstalling(2, 5)
    );
    assert_eq!(
        status_effect(PatchingStatus::ManualPatchApplied("p.thor".to_string())),
        UiEffect::StatusPatchApplied("p.thor".to_string())
    );
}

#[test]
fn commands_are_returned_as_actions() {
    let mut d = WebViewUserData::new(config(&[]));
    assert_eq!(d.handle_request("start_update"), vec![Action::Send(PatcherCommand::StartUpdate)]);
    assert_eq!(d.handle_request("cancel_update"), vec![Action::Send(PatcherCommand::CancelUpdate)]);
    assert_eq!(
        d.patch_file_chosen(Some("p.thor".to_string())),
        vec![Action::Send(PatcherCommand::ApplyPatch("p.thor".to_string()))]
    );
    assert_eq!(d.teardown(), Some(PatcherCommand::Quit));
    assert_eq!(d.teardown(), None);
    assert_eq!(
        d.handle_request("start_update"),
        vec![Action::SendFailed(PatcherCommand::StartUpdate)]
    );
}

#[test]
fn report_send_only_on_failure() {
    let mut out = Vec::new();
    report_send(PatcherCommand::Quit, true, &mut out);
    assert!(out.is_empty());
    report_send(PatcherCommand::CancelUpdate, false, &mut out);
    assert_eq!(out, vec![Action::SendFailed(PatcherCommand::CancelUpdate)]);
}
