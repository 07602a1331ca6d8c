use vstd::prelude::*;
use crate::config::{LaunchConfiguration, PatcherConfiguration};
use crate::json::texts;
use crate::messages::{PatcherCommand, UiEffect};
use crate::request::{parse_request, request_of_text, LoginParameters, Request, RequestError, RequestModel};

verus! {

/// An external program to start, and whether the patcher closes once it has
/// started.
#[derive(Debug, Clone, PartialEq, Eq)]
pub struct LaunchRequest {
    pub executable: String,
    pub arguments: Vec<String>,
    pub exit_on_success: bool,
}

/// Work that the front end's thread carries out for a request.
#[derive(Debug, Clone, PartialEq, Eq)]
pub enum Action {
    Show(UiEffect),
    Launch(LaunchRequest),
    /// Asks the user for a patch file; the answer goes to
    /// `WebViewUserData::patch_file_chosen`.
    PickPatchFile,
    /// Deletes the patcher's cache file.
    RemoveCacheFile,
    OpenUrl(String),
    Exit,
    /// Logs why a request was dropped.
    Report(RequestError),
    /// Hands the command to the worker's channel without blocking; where the
    /// channel refuses it, `report_send` says what to log.
    Send(PatcherCommand),
    /// Logs that the worker could not be handed a command: its side of the
    /// channel is gone, the channel is full, or the worker was asked to quit.
    SendFailed(PatcherCommand),
}


/// An action with its texts seen as character sequences.
pub enum ActionModel {
    Show(UiEffect),
    Launch { executable: Seq<char>, arguments: Seq<Seq<char>>, exit_on_success: bool },
    PickPatchFile,
    RemoveCacheFile,
    OpenUrl(Seq<char>),
    Exit,
    /// The request that was dropped.
    Report(RequestModel),
    Send(PatcherCommand),
    SendFailed(PatcherCommand),
}

impl View for Action {
    type V = ActionModel;

    open spec fn view(&self) -> ActionModel {
        match self {
            Action::Show(e) => ActionModel::Show(*e),
            Action::Launch(l) => ActionModel::Launch {
                executable: l.executable@,
                arguments: texts(l.arguments@),
                exit_on_success: l.exit_on_success,
            },
            Action::PickPatchFile => ActionModel::PickPatchFile,
            Action::RemoveCacheFile => ActionModel::RemoveCacheFile,
            Action::OpenUrl(u) => ActionModel::OpenUrl(u@),
            Action::Exit => ActionModel::Exit,
            Action::Report(RequestError::InvalidJson) => ActionModel::Report(RequestModel::InvalidJson),
            Action::Report(RequestError::UnknownFunction(f)) => ActionModel::Report(
                RequestModel::UnknownFunction(f@),
            ),
            Action::Report(RequestError::InvalidArguments(f)) => ActionModel::Report(
                RequestModel::InvalidArguments(f@),
            ),
            Action::Report(RequestError::MissingFunction) => ActionModel::Report(
                RequestModel::MissingFunction,
            ),
            Action::Send(c) => ActionModel::Send(*c),
            Action::SendFailed(c) => ActionModel::SendFailed(*c),
        }
    }
}

/// The views of a list of actions.
pub open spec fn actions_view(a: Seq<Action>) -> Seq<ActionModel> {
    a.map_values(|x: Action| x@)
}

/// Starts a configured program with the given arguments.
pub open spec fn launch_of(
    program: LaunchConfiguration,
    arguments: Seq<Seq<char>>,
    default_exit: bool,
) -> ActionModel {
    ActionModel::Launch {
        executable: program.path@,
        arguments,
        exit_on_success: match program.exit_on_success {
            Some(b) => b,
            None => default_exit,
        },
    }
}

/// The arguments of a login: password flag, login, a fixed literal, then the
/// configured arguments of the game client.
pub open spec fn login_arguments(
    login: Seq<char>,
    password: Seq<char>,
    configured: Seq<Seq<char>>,
) -> Seq<Seq<char>> {
    seq!["-t:"@ + password, login, "server"@] + configured
}

/// The commands that a request hands to the worker.
pub open spec fn commands_for(in_progress: bool, request: RequestModel) -> Seq<PatcherCommand> {
    match request {
        RequestModel::StartUpdate => if in_progress {
            seq![]
        } else {
            seq![PatcherCommand::StartUpdate]
        },
        RequestModel::CancelUpdate => seq![PatcherCommand::CancelUpdate],
        _ => seq![],
    }
}

/// How a command is handed on: sent to the worker, or, once the worker has
/// been asked to quit, reported as undeliverable.
pub open spec fn delivery(torn_down: bool, command: PatcherCommand) -> ActionModel {
    if torn_down {
        ActionModel::SendFailed(command)
    } else {
        ActionModel::Send(command)
    }
}

/// The actions for a request other than handing commands to the worker.
pub open spec fn local_actions_for(
    config: PatcherConfiguration,
    in_progress: bool,
    request: RequestModel,
) -> Seq<ActionModel> {
    match request {
        RequestModel::Play => seq![launch_of(config.play, texts(config.play.arguments@), true)],
        RequestModel::Setup => seq![launch_of(config.setup, texts(config.setup.arguments@), false)],
        RequestModel::Exit => seq![ActionModel::Exit],
        RequestModel::StartUpdate => if in_progress {
            seq![ActionModel::Show(UiEffect::NotificationInProgress)]
        } else {
            seq![]
        },
        RequestModel::CancelUpdate => seq![],
        RequestModel::ResetCache => seq![ActionModel::RemoveCacheFile],
        RequestModel::ManualPatch => if in_progress {
            seq![ActionModel::Show(UiEffect::NotificationInProgress)]
        } else {
            seq![ActionModel::PickPatchFile]
        },
        RequestModel::Login { login, password } => seq![
            launch_of(
                config.play,
                login_arguments(login, password, texts(config.play.arguments@)),
                true,
            ),
        ],
        RequestModel::OpenUrl(url) => seq![ActionModel::OpenUrl(url)],
        RequestModel::MissingFunction => seq![ActionModel::Report(RequestModel::MissingFunction)],
        RequestModel::InvalidJson => seq![ActionModel::Report(RequestModel::InvalidJson)],
        RequestModel::UnknownFunction(f) => seq![ActionModel::Report(RequestModel::UnknownFunction(f))],
        RequestModel::InvalidArguments(f) => seq![ActionModel::Report(RequestModel::InvalidArguments(f))],
    }
}

/// Every action for a request: the commands it hands to the worker, then the
/// rest.
pub open spec fn actions_for(
    config: PatcherConfiguration,
    in_progress: bool,
    torn_down: bool,
    request: RequestModel,
) -> Seq<ActionModel> {
    commands_for(in_progress, request).map_values(|c: PatcherCommand| delivery(torn_down, c))
        + local_actions_for(config, in_progress, request)
}

/// What is logged once a command was handed to the worker's channel: one
/// failure report where the channel refused it, else nothing.
pub open spec fn send_outcome(command: PatcherCommand, delivered: bool) -> Seq<ActionModel> {
    if delivered {
        seq![]
    } else {
        seq![ActionModel::SendFailed(command)]
    }
}

/// Appends the report that a command was not delivered, where it was not.
pub fn report_send(command: PatcherCommand, delivered: bool, out: &mut Vec<Action>)
    ensures
        actions_view(final(out)@) == actions_view(old(out)@) + send_outcome(command, delivered),
{
    let ghost before = out@;
    if !delivered {
        out.push(Action::SendFailed(command));
    }
    proof {
        assert(actions_view(out@) =~= actions_view(before) + send_outcome(command, delivered));
    }
}

/// The state that the front end's thread owns: the configuration, whether an
/// update or a patch is running, and whether the worker was asked to quit.
pub struct WebViewUserData {
    patcher_config: PatcherConfiguration,
    patching_in_progress: bool,
    torn_down: bool,
}

impl WebViewUserData {
    pub closed spec fn config(&self) -> PatcherConfiguration {
        self.patcher_config
    }

    pub closed spec fn in_progress(&self) -> bool {
        self.patching_in_progress
    }

    pub closed spec fn is_torn_down(&self) -> bool {
        self.torn_down
    }

    pub fn new(patcher_config: PatcherConfiguration) -> (r: WebViewUserData)
        ensures
            r.config() == patcher_config,
            !r.in_progress(),
            !r.is_torn_down(),
    {
        WebViewUserData { patcher_config, patching_in_progress: false, torn_down: false }
    }

    pub fn patcher_config(&self) -> (r: &PatcherConfiguration)
        ensures
            *r == self.config(),
    {
        &self.patcher_config
    }

    pub fn patching_in_progress(&self) -> (r: bool)
        ensures
            r == self.in_progress(),
    {
        self.patching_in_progress
    }

    /// Records whether an update or a patch is running. The code that starts
    /// and stops the worker's operations calls this around their lifetime.
    pub fn set_patch_in_progress(&mut self, value: bool)
        ensures
            final(self).in_progress() == value,
            final(self).config() == old(self).config(),
            final(self).is_torn_down() == old(self).is_torn_down(),
    {
        self.patching_in_progress = value;
    }

    /// How a command is handed on from this state.
    fn deliver(&self, command: PatcherCommand) -> (r: Action)
        ensures
            r@ == delivery(self.torn_down, command),
    {
        if self.torn_down {
            Action::SendFailed(command)
        } else {
            Action::Send(command)
        }
    }

    /// Handles a raw front-end request: recognises it, then acts on it as
    /// `handle` does.
    pub fn handle_request(&self, request: &str) -> (r: Vec<Action>)
        ensures
            actions_view(r@) == actions_for(
                self.config(),
                self.in_progress(),
                self.is_torn_down(),
                request_of_text(request@),
            ),
    {
        let parsed = parse_request(request);
        self.handle(parsed)
    }

    /// Acts on a recognised request: the commands it hands to the worker,
    /// then what else is left to do on the front end's thread. While an
    /// update or a patch is running, a request to start another is answered
    /// with a notification and hands nothing on.
    pub fn handle(&self, request: Request) -> (r: Vec<Action>)
        ensures
            actions_view(r@) == actions_for(
                self.config(),
                self.in_progress(),
                self.is_torn_down(),
                request@,
            ),
    {
        let mut out: Vec<Action> = Vec::new();
        match request {
            Request::Play => {
                let play = &self.patcher_config.play;
                let arguments = copy_texts(&play.arguments);
                out.push(Action::Launch(launch(play, arguments, true)));
            },
            Request::Setup => {
                let setup = &self.patcher_config.setup;
                let arguments = copy_texts(&setup.arguments);
                out.push(Action::Launch(launch(setup, arguments, false)));
            },
            Request::Exit => {
                out.push(Action::Exit);
            },
            Request::StartUpdate => {
                if self.patching_in_progress {
                    out.push(Action::Show(UiEffect::NotificationInProgress));
                } else {
                    out.push(self.deliver(PatcherCommand::StartUpdate));
                }
            },
            Request::CancelUpdate => {
                out.push(self.deliver(PatcherCommand::CancelUpdate));
            },
            Request::ResetCache => {
                out.push(Action::RemoveCacheFile);
            },
            Request::ManualPatch => {
                if self.patching_in_progress {
                    out.push(Action::Show(UiEffect::NotificationInProgress));
                } else {
                    out.push(Action::PickPatchFile);
                }
            },
            Request::Login(params) => {
                let play = &self.patcher_config.play;
                let arguments = compose_login_arguments(&params, &play.arguments);
                out.push(Action::Launch(launch(play, arguments, true)));
            },
            Request::OpenUrl(url) => {
                out.push(Action::OpenUrl(url));
            },
            Request::Rejected(e) => {
                out.push(Action::Report(e));
            },
        }
        proof {
            assert(actions_view(out@) =~= actions_for(
                self.config(),
                self.in_progress(),
                self.is_torn_down(),
                request@,
            ));
        }
        out
    }

    /// Acts on the answer to `Action::PickPatchFile`: hands the chosen patch
    /// file to the worker, unless no file was chosen or an update or a patch
    /// is running (then the user is notified).
    pub fn patch_file_chosen(&self, path: Option<String>) -> (r: Vec<Action>)
        ensures
            actions_view(r@) == if self.in_progress() {
                seq![ActionModel::Show(UiEffect::NotificationInProgress)]
            } else {
                match path {
                    Some(p) => seq![delivery(self.is_torn_down(), PatcherCommand::ApplyPatch(p))],
                    None => seq![],
                }
            },
    {
        let mut out: Vec<Action> = Vec::new();
        if self.patching_in_progress {
            out.push(Action::Show(UiEffect::NotificationInProgress));
        } else {
            match path {
                Some(p) => out.push(self.deliver(PatcherCommand::ApplyPatch(p))),
                None => {},
            }
        }
        proof {
            assert(actions_view(out@) =~= if self.in_progress() {
                seq![ActionModel::Show(UiEffect::NotificationInProgress)]
            } else {
                match path {
                    Some(p) => seq![delivery(self.is_torn_down(), PatcherCommand::ApplyPatch(p))],
                    None => seq![],
                }
            });
        }
        out
    }

    /// Asks the worker to quit, once: the first call returns the `Quit`
    /// command to hand to the channel without blocking, whatever comes of it;
    /// later calls return nothing. Afterwards every other command is
    /// reported as undeliverable.
    pub fn teardown(&mut self) -> (r: Option<PatcherCommand>)
        ensures
            r == if old(self).is_torn_down() {
                None
            } else {
                Some(PatcherCommand::Quit)
            },
            final(self).is_torn_down(),
            final(self).config() == old(self).config(),
            final(self).in_progress() == old(self).in_progress(),
    {
        if self.torn_down {
            None
        } else {
            self.torn_down = true;
            Some(PatcherCommand::Quit)
        }
    }
}

/// `Quit` is handed to the worker at teardown alone: no request and no chosen
/// patch file ever hands it on, and teardown hands it on only the first time.
pub proof fn lemma_quit_only_at_teardown(
    config: PatcherConfiguration,
    in_progress: bool,
    torn_down: bool,
    request: RequestModel,
    path: Seq<char>,
)
    ensures
        forall|i: int| 0 <= i < actions_for(config, in_progress, torn_down, request).len()
            ==> #[trigger] actions_for(config, in_progress, torn_down, request)[i]
            != ActionModel::Send(PatcherCommand::Quit),
{
    let cmds = commands_for(in_progress, request);
    assert forall|i: int| 0 <= i < cmds.len() implies !(#[trigger] cmds[i] is Quit) by {}
}

/// While an update or a patch is running, no request hands the worker a
/// command that starts another, and each request to start one is answered
/// with exactly one in-progress notification.
pub proof fn lemma_single_flight(config: PatcherConfiguration, torn_down: bool, request: RequestModel)
    ensures
        forall|i: int| 0 <= i < actions_for(config, true, torn_down, request).len()
            ==> !(#[trigger] actions_for(config, true, torn_down, request)[i] matches ActionModel::Send(c)
            && c.starts_operation()),
        request is StartUpdate || request is ManualPatch ==> actions_for(config, true, torn_down, request)
            == seq![ActionModel::Show(UiEffect::NotificationInProgress)],
{
    let cmds = commands_for(true, request);
    assert(forall|i: int| 0 <= i < cmds.len() ==> !(#[trigger] cmds[i]).starts_operation());
    if request is StartUpdate || request is ManualPatch {
        assert(actions_for(config, true, torn_down, request) =~= seq![
            ActionModel::Show(UiEffect::NotificationInProgress),
        ]);
    }
}

/// A JSON request that names an unknown function is reported once, as that,
/// and causes nothing else.
pub proof fn lemma_unknown_function_reported(
    config: PatcherConfiguration,
    in_progress: bool,
    torn_down: bool,
    text: Seq<char>,
    v: serde_json::Value,
    function: Seq<char>,
)
    requires
        crate::request::named_request(text) is None,
        crate::json::parsed_json(text) == Some(v),
        crate::json::json_as_str(crate::json::json_member(v, "function"@)) == Some(function),
        function != "login"@,
        function != "open_url"@,
    ensures
        actions_for(config, in_progress, torn_down, request_of_text(text)) == seq![
            ActionModel::Report(RequestModel::UnknownFunction(function)),
        ],
{
    assert(actions_for(config, in_progress, torn_down, request_of_text(text)) =~= seq![
        ActionModel::Report(RequestModel::UnknownFunction(function)),
    ]);
}

/// Text that is neither a command name nor well-formed JSON is reported once,
/// as malformed, and causes nothing else. (A command name is not JSON either,
/// but it is recognised before any parsing.)
pub proof fn lemma_malformed_json_reported(
    config: PatcherConfiguration,
    in_progress: bool,
    torn_down: bool,
    text: Seq<char>,
)
    requires
        crate::request::named_request(text) is None,
        crate::json::parsed_json(text) is None,
    ensures
        actions_for(config, in_progress, torn_down, request_of_text(text)) == seq![
            ActionModel::Report(RequestModel::InvalidJson),
        ],
{
    assert(actions_for(config, in_progress, torn_down, request_of_text(text)) =~= seq![
        ActionModel::Report(RequestModel::InvalidJson),
    ]);
}

/// A JSON request without a string `function` member is reported once, as
/// that, and causes nothing else.
pub proof fn lemma_missing_function_reported(
    config: PatcherConfiguration,
    in_progress: bool,
    torn_down: bool,
    text: Seq<char>,
    v: serde_json::Value,
)
    requires
        crate::request::named_request(text) is None,
        crate::json::parsed_json(text) == Some(v),
        crate::json::json_as_str(crate::json::json_member(v, "function"@)) is None,
    ensures
        actions_for(config, in_progress, torn_down, request_of_text(text)) == seq![
            ActionModel::Report(RequestModel::MissingFunction),
        ],
{
    assert(actions_for(config, in_progress, torn_down, request_of_text(text)) =~= seq![
        ActionModel::Report(RequestModel::MissingFunction),
    ]);
}

/// Resetting the cache only removes the cache file: it hands the worker no
/// command and shows no effect.
pub proof fn lemma_reset_cache_only_removes(
    config: PatcherConfiguration,
    in_progress: bool,
    torn_down: bool,
)
    ensures
        actions_for(config, in_progress, torn_down, RequestModel::ResetCache) == seq![
            ActionModel::RemoveCacheFile,
        ],
{
    assert(actions_for(config, in_progress, torn_down, RequestModel::ResetCache) =~= seq![
        ActionModel::RemoveCacheFile,
    ]);
}

/// The name of the cache file that keeps track of applied patches: the
/// patcher's name with the `dat` extension.
pub fn cache_file_name(patcher_name: &str) -> (r: String)
    ensures
        r@ == patcher_name@ + ".dat"@,
{
    patcher_name.to_owned().concat(".dat")
}

/// A copy of a list of texts.
fn copy_texts(v: &Vec<String>) -> (r: Vec<String>)
    ensures
        r@ == v@,
{
    let mut out: Vec<String> = Vec::new();
    let mut i: usize = 0;
    while i < v.len()
        invariant
            i <= v@.len(),
            out@ == v@.subrange(0, i as int),
        decreases v@.len() - i,
    {
        out.push(v[i].clone());
        i = i + 1;
    }
    assert(out@ =~= v@);
    out
}

/// The launch of a configured program with the given arguments.
fn launch(program: &LaunchConfiguration, arguments: Vec<String>, default_exit: bool) -> (r: LaunchRequest)
    ensures
        Action::Launch(r)@ == launch_of(*program, texts(arguments@), default_exit),
{
    let exit_on_success = match program.exit_on_success {
        Some(b) => b,
        None => default_exit,
    };
    LaunchRequest { executable: program.path.clone(), arguments, exit_on_success }
}

/// The arguments that start the game client with the given credentials,
/// followed by its configured arguments.
pub fn compose_login_arguments(params: &LoginParameters, configured: &Vec<String>) -> (r: Vec<String>)
    ensures
        texts(r@) == login_arguments(params.login@, params.password@, texts(configured@)),
{
    proof {
        reveal_strlit("-t:");
        reveal_strlit("server");
    }
    let flag = "-t:".to_owned().concat(params.password.as_str());
    let mut out: Vec<String> = vec![flag, params.login.clone(), "server".to_owned()];
    let mut i: usize = 0;
    while i < configured.len()
        invariant
            i <= configured@.len(),
            texts(out@) == login_arguments(
                params.login@,
                params.password@,
                texts(configured@.subrange(0, i as int)),
            ),
        decreases configured@.len() - i,
    {
        let ghost before = out@;
        out.push(configured[i].clone());
        proof {
            let prefix = configured@.subrange(0, i as int);
            assert(configured@.subrange(0, i + 1) =~= prefix.push(configured@[i as int]));
            assert(texts(out@) =~= texts(before).push(configured@[i as int]@));
            assert(texts(prefix.push(configured@[i as int])) =~= texts(prefix).push(configured@[i as int]@));
            assert(texts(out@) =~= login_arguments(
                params.login@,
                params.password@,
                texts(configured@.subrange(0, i + 1)),
            ));
        }
        i = i + 1;
    }
    proof {
        assert(configured@.subrange(0, configured@.len() as int) =~= configured@);
    }
    out
}

} // verus!
