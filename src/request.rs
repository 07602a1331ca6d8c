use vstd::prelude::*;
use crate::json::{
    as_string, json_as_str, json_member, member, parse_json, parsed_json, same_text, string_fields, string_record, texts,
};

verus! {

/// Credentials given to the `login` function.
#[derive(Debug, Clone, PartialEq, Eq)]
pub struct LoginParameters {
    pub login: String,
    pub password: String,
}

/// Why a front-end request was dropped.
#[derive(Debug, Clone, PartialEq, Eq)]
pub enum RequestError {
    /// The request is neither a command name nor well-formed JSON.
    InvalidJson,
    /// The `function` member names no known function.
    UnknownFunction(String),
    /// The `parameters` of the named function do not fit its schema.
    InvalidArguments(String),
    /// The JSON request has no string `function` member.
    MissingFunction,
}

/// A front-end request, once recognised.
#[derive(Debug, Clone, PartialEq, Eq)]
pub enum Request {
    Play,
    Setup,
    Exit,
    StartUpdate,
    CancelUpdate,
    ResetCache,
    ManualPatch,
    Login(LoginParameters),
    OpenUrl(String),
    Rejected(RequestError),
}

/// A request with its texts seen as character sequences.
pub enum RequestModel {
    Play,
    Setup,
    Exit,
    StartUpdate,
    CancelUpdate,
    ResetCache,
    ManualPatch,
    Login { login: Seq<char>, password: Seq<char> },
    OpenUrl(Seq<char>),
    MissingFunction,
    InvalidJson,
    UnknownFunction(Seq<char>),
    InvalidArguments(Seq<char>),
}

impl View for Request {
    type V = RequestModel;

    open spec fn view(&self) -> RequestModel {
        match self {
            Request::Play => RequestModel::Play,
            Request::Setup => RequestModel::Setup,
            Request::Exit => RequestModel::Exit,
            Request::StartUpdate => RequestModel::StartUpdate,
            Request::CancelUpdate => RequestModel::CancelUpdate,
            Request::ResetCache => RequestModel::ResetCache,
            Request::ManualPatch => RequestModel::ManualPatch,
            Request::Login(p) => RequestModel::Login { login: p.login@, password: p.password@ },
            Request::OpenUrl(u) => RequestModel::OpenUrl(u@),
            Request::Rejected(RequestError::InvalidJson) => RequestModel::InvalidJson,
            Request::Rejected(RequestError::UnknownFunction(f)) => RequestModel::UnknownFunction(f@),
            Request::Rejected(RequestError::InvalidArguments(f)) => RequestModel::InvalidArguments(f@),
            Request::Rejected(RequestError::MissingFunction) => RequestModel::MissingFunction,
        }
    }
}

/// The command that a bare name stands for, if any.
pub open spec fn named_request(text: Seq<char>) -> Option<RequestModel> {
    if text == "play"@ {
        Some(RequestModel::Play)
    } else if text == "setup"@ {
        Some(RequestModel::Setup)
    } else if text == "exit"@ {
        Some(RequestModel::Exit)
    } else if text == "start_update"@ {
        Some(RequestModel::StartUpdate)
    } else if text == "cancel_update"@ {
        Some(RequestModel::CancelUpdate)
    } else if text == "reset_cache"@ {
        Some(RequestModel::ResetCache)
    } else if text == "manual_patch"@ {
        Some(RequestModel::ManualPatch)
    } else {
        None
    }
}

/// What a JSON request `{"function": .., "parameters": ..}` asks for.
pub open spec fn json_request(v: serde_json::Value) -> RequestModel {
    match json_as_str(json_member(v, "function"@)) {
        None => RequestModel::MissingFunction,
        Some(f) => {
            let params = json_member(v, "parameters"@);
            if f == "login"@ {
                match string_record(params, seq!["login"@, "password"@]) {
                    Some(fields) => RequestModel::Login { login: fields[0], password: fields[1] },
                    None => RequestModel::InvalidArguments(f),
                }
            } else if f == "open_url"@ {
                match string_record(params, seq!["url"@]) {
                    Some(fields) => RequestModel::OpenUrl(fields[0]),
                    None => RequestModel::InvalidArguments(f),
                }
            } else {
                RequestModel::UnknownFunction(f)
            }
        },
    }
}

/// What a raw front-end request asks for: a bare command name first, else a
/// JSON request, else malformed input.
pub open spec fn request_of_text(text: Seq<char>) -> RequestModel {
    match named_request(text) {
        Some(r) => r,
        None => match parsed_json(text) {
            Some(v) => json_request(v),
            None => RequestModel::InvalidJson,
        },
    }
}

/// Recognises a JSON request: the `function` it names, checked against the
/// known functions, and its `parameters`, checked against that function's
/// schema.
pub fn request_from_json(v: &serde_json::Value) -> (r: Request)
    ensures
        r@ == json_request(*v),
{
    proof {
        reveal_strlit("function");
        reveal_strlit("parameters");
        reveal_strlit("login");
        reveal_strlit("password");
        reveal_strlit("open_url");
        reveal_strlit("url");
    }
    let function_value = member(v, "function");
    let function = match as_string(&function_value) {
        Some(f) => f,
        None => return Request::Rejected(RequestError::MissingFunction),
    };
    let params = member(v, "parameters");
    if same_text(function.as_str(), "login") {
        let keys: [&str; 2] = ["login", "password"];
        proof {
            assert(keys@.map_values(|k: &str| k@) =~= seq!["login"@, "password"@]);
        }
        match string_fields(&params, &keys) {
            Some(fields) => {
                let login = fields[0].clone();
                let password = fields[1].clone();
                proof {
                    assert(texts(fields@)[0] == fields@[0]@);
                    assert(texts(fields@)[1] == fields@[1]@);
                }
                Request::Login(LoginParameters { login, password })
            },
            None => Request::Rejected(RequestError::InvalidArguments(function)),
        }
    } else if same_text(function.as_str(), "open_url") {
        let keys: [&str; 1] = ["url"];
        proof {
            assert(keys@.map_values(|k: &str| k@) =~= seq!["url"@]);
        }
        match string_fields(&params, &keys) {
            Some(fields) => {
                let url = fields[0].clone();
                proof {
                    assert(texts(fields@)[0] == fields@[0]@);
                }
                Request::OpenUrl(url)
            },
            None => Request::Rejected(RequestError::InvalidArguments(function)),
        }
    } else {
        Request::Rejected(RequestError::UnknownFunction(function))
    }
}

/// Recognises a raw front-end request.
pub fn parse_request(text: &str) -> (r: Request)
    ensures
        r@ == request_of_text(text@),
{
    proof {
        reveal_strlit("play");
        reveal_strlit("setup");
        reveal_strlit("exit");
        reveal_strlit("start_update");
        reveal_strlit("cancel_update");
        reveal_strlit("reset_cache");
        reveal_strlit("manual_patch");
    }
    if same_text(text, "play") {
        Request::Play
    } else if same_text(text, "setup") {
        Request::Setup
    } else if same_text(text, "exit") {
        Request::Exit
    } else if same_text(text, "start_update") {
        Request::StartUpdate
    } else if same_text(text, "cancel_update") {
        Request::CancelUpdate
    } else if same_text(text, "reset_cache") {
        Request::ResetCache
    } else if same_text(text, "manual_patch") {
        Request::ManualPatch
    } else {
        match parse_json(text) {
            Ok(v) => request_from_json(&v),
            Err(_) => Request::Rejected(RequestError::InvalidJson),
        }
    }
}

} // verus!
