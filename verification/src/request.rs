//! From a caller's run request to the request that opens (or resumes) a
//! Gemini session.
use vstd::prelude::*;
use crate::config::GeminiConfig;

verus! {

/// A request to run (or resume) an agent, as far as the provider reads it.
pub struct AgentRunRequest {
    /// The session to resume, if any.
    pub session_id: Option<String>,
    pub prompt: String,
    /// The model to use; the configuration's default when absent.
    pub model: Option<String>,
    pub cwd: std::path::PathBuf,
    pub project_root: Option<std::path::PathBuf>,
    pub permission_mode: Option<String>,
    pub timeout_secs: Option<u64>,
    /// Environment variables for the session, as name and value.
    pub env: Vec<(String, String)>,
    pub mcp_servers: Option<serde_json::Value>,
    pub tools: Option<serde_json::Value>,
    pub response_schema: Option<serde_json::Value>,
    pub runtime_contract: Option<serde_json::Value>,
}

pub struct AgentRunRequestModel {
    pub session_id: Option<Seq<char>>,
    pub prompt: Seq<char>,
    pub model: Option<Seq<char>>,
    pub cwd: std::path::PathBuf,
    pub project_root: Option<std::path::PathBuf>,
    pub permission_mode: Option<Seq<char>>,
    pub timeout_secs: Option<u64>,
    pub env: Seq<(Seq<char>, Seq<char>)>,
    pub mcp_servers: Option<serde_json::Value>,
    pub tools: Option<serde_json::Value>,
    pub response_schema: Option<serde_json::Value>,
    pub runtime_contract: Option<serde_json::Value>,
}

/// The model of a list of name and value pairs.
pub open spec fn pairs_model(pairs: Seq<(String, String)>) -> Seq<(Seq<char>, Seq<char>)> {
    pairs.map_values(|p: (String, String)| (p.0@, p.1@))
}

impl View for AgentRunRequest {
    type V = AgentRunRequestModel;

    open spec fn view(&self) -> AgentRunRequestModel {
        AgentRunRequestModel {
            session_id: self.session_id.deep_view(),
            prompt: self.prompt@,
            model: self.model.deep_view(),
            cwd: self.cwd,
            project_root: self.project_root,
            permission_mode: self.permission_mode.deep_view(),
            timeout_secs: self.timeout_secs,
            env: pairs_model(self.env@),
            mcp_servers: self.mcp_servers,
            tools: self.tools,
            response_schema: self.response_schema,
            runtime_contract: self.runtime_contract,
        }
    }
}

/// The request that opens a Gemini session.
pub struct SessionRequest {
    /// The tool the session runs: always `gemini`.
    pub tool: String,
    pub model: String,
    pub prompt: String,
    pub cwd: std::path::PathBuf,
    pub project_root: Option<std::path::PathBuf>,
    /// The MCP endpoint handed to the session: none.
    pub mcp_endpoint: Option<String>,
    pub permission_mode: Option<String>,
    pub timeout_secs: Option<u64>,
    pub env_vars: Vec<(String, String)>,
    /// The fields of the extras object, by name, in the order they were added.
    pub extras: Vec<(String, serde_json::Value)>,
}

pub struct SessionRequestModel {
    pub tool: Seq<char>,
    pub model: Seq<char>,
    pub prompt: Seq<char>,
    pub cwd: std::path::PathBuf,
    pub project_root: Option<std::path::PathBuf>,
    pub mcp_endpoint: Option<Seq<char>>,
    pub permission_mode: Option<Seq<char>>,
    pub timeout_secs: Option<u64>,
    pub env_vars: Seq<(Seq<char>, Seq<char>)>,
    pub extras: Seq<(Seq<char>, serde_json::Value)>,
}

/// The model of the fields of an extras object.
pub open spec fn fields_model(fields: Seq<(String, serde_json::Value)>) -> Seq<(Seq<char>, serde_json::Value)> {
    fields.map_values(|f: (String, serde_json::Value)| (f.0@, f.1))
}

impl View for SessionRequest {
    type V = SessionRequestModel;

    open spec fn view(&self) -> SessionRequestModel {
        SessionRequestModel {
            tool: self.tool@,
            model: self.model@,
            prompt: self.prompt@,
            cwd: self.cwd,
            project_root: self.project_root,
            mcp_endpoint: self.mcp_endpoint.deep_view(),
            permission_mode: self.permission_mode.deep_view(),
            timeout_secs: self.timeout_secs,
            env_vars: pairs_model(self.env_vars@),
            extras: fields_model(self.extras@),
        }
    }
}

/// The field `name: value` of an extras object, present only when the value is.
pub open spec fn optional_field(name: Seq<char>, value: Option<serde_json::Value>) -> Seq<
    (Seq<char>, serde_json::Value),
> {
    match value {
        Some(v) => seq![(name, v)],
        None => Seq::empty(),
    }
}

/// The extras object of a session: the request's runtime contract, MCP
/// servers, tools and response schema, each under its own name and each only
/// when the request has it.
pub open spec fn extras_model(r: AgentRunRequestModel) -> Seq<(Seq<char>, serde_json::Value)> {
    optional_field("runtime_contract"@, r.runtime_contract) + optional_field(
        "mcp_servers"@,
        r.mcp_servers,
    ) + optional_field("tools"@, r.tools) + optional_field("response_schema"@, r.response_schema)
}

/// The session request for a run request under a configuration whose default
/// model is `default_model`.
pub open spec fn session_request_model(default_model: Seq<char>, r: AgentRunRequestModel) -> SessionRequestModel {
    SessionRequestModel {
        tool: "gemini"@,
        model: match r.model {
            Some(m) => m,
            None => default_model,
        },
        prompt: r.prompt,
        cwd: r.cwd,
        project_root: r.project_root,
        mcp_endpoint: None,
        permission_mode: r.permission_mode,
        timeout_secs: r.timeout_secs,
        env_vars: r.env,
        extras: extras_model(r),
    }
}

/// The extras object never names a field twice, so each field of the request
/// that is present lands under its own name.
pub proof fn lemma_extras_fields_distinct(r: AgentRunRequestModel)
    ensures
        forall|i: int, j: int|
            0 <= i < j < extras_model(r).len() ==> (#[trigger] extras_model(r)[i]).0
                != (#[trigger] extras_model(r)[j]).0,
{
    reveal_strlit("runtime_contract");
    reveal_strlit("mcp_servers");
    reveal_strlit("tools");
    reveal_strlit("response_schema");
    let e = extras_model(r);
    assert forall|i: int, j: int| 0 <= i < j < e.len() implies (#[trigger] e[i]).0 != (
    #[trigger] e[j]).0 by {
        assert(e[i].0.len() != e[j].0.len());
    }
}

/// Whether the extras hold no field called `name`.
pub open spec fn lacks_field(fields: Seq<(Seq<char>, serde_json::Value)>, name: Seq<char>) -> bool {
    forall|i: int| 0 <= i < fields.len() ==> (#[trigger] fields[i]).0 != name
}

/// What the extras of a session request hold: each of the request's runtime
/// contract, MCP servers, tools and response schema that is present, under
/// its own name, and no field of that name for one that is absent.
pub proof fn lemma_extras_fields(d: Seq<char>, r: AgentRunRequestModel)
    ensures
        ({
            let e = session_request_model(d, r).extras;
            &&& match r.runtime_contract {
                Some(v) => e.contains(("runtime_contract"@, v)),
                None => lacks_field(e, "runtime_contract"@),
            }
            &&& match r.mcp_servers {
                Some(v) => e.contains(("mcp_servers"@, v)),
                None => lacks_field(e, "mcp_servers"@),
            }
            &&& match r.tools {
                Some(v) => e.contains(("tools"@, v)),
                None => lacks_field(e, "tools"@),
            }
            &&& match r.response_schema {
                Some(v) => e.contains(("response_schema"@, v)),
                None => lacks_field(e, "response_schema"@),
            }
            &&& e.len() <= 4
        }),
{
    reveal_strlit("runtime_contract");
    reveal_strlit("mcp_servers");
    reveal_strlit("tools");
    reveal_strlit("response_schema");
    let a = optional_field("runtime_contract"@, r.runtime_contract);
    let b = optional_field("mcp_servers"@, r.mcp_servers);
    let c = optional_field("tools"@, r.tools);
    let f = optional_field("response_schema"@, r.response_schema);
    let e = session_request_model(d, r).extras;
    assert(e == a + b + c + f);
    assert forall|i: int| 0 <= i < e.len() implies {
        let name = (#[trigger] e[i]).0;
        &&& (name == "runtime_contract"@ ==> r.runtime_contract is Some)
        &&& (name == "mcp_servers"@ ==> r.mcp_servers is Some)
        &&& (name == "tools"@ ==> r.tools is Some)
        &&& (name == "response_schema"@ ==> r.response_schema is Some)
    } by {
        assert("runtime_contract"@.len() == 16);
        assert("mcp_servers"@.len() == 11);
        assert("tools"@.len() == 5);
        assert("response_schema"@.len() == 15);
        if i < a.len() {
            assert(e[i] == a[i]);
            assert(r.runtime_contract is Some && e[i].0 == "runtime_contract"@);
        } else if i < a.len() + b.len() {
            assert(e[i] == b[i - a.len()]);
            assert(r.mcp_servers is Some && e[i].0 == "mcp_servers"@);
        } else if i < a.len() + b.len() + c.len() {
            assert(e[i] == c[i - a.len() - b.len()]);
            assert(r.tools is Some && e[i].0 == "tools"@);
        } else {
            assert(e[i] == f[i - a.len() - b.len() - c.len()]);
            assert(r.response_schema is Some && e[i].0 == "response_schema"@);
        }
    }
    if let Some(v) = r.runtime_contract {
        assert(e[0] == ("runtime_contract"@, v));
    }
    if let Some(v) = r.mcp_servers {
        assert(e[a.len() as int] == ("mcp_servers"@, v));
    }
    if let Some(v) = r.tools {
        assert(e[(a.len() + b.len()) as int] == ("tools"@, v));
    }
    if let Some(v) = r.response_schema {
        assert(e[(a.len() + b.len() + c.len()) as int] == ("response_schema"@, v));
    }
}

/// The session request does not depend on whether the run request names a
/// session to resume: resuming a session asks for what running it would, and
/// the model is the requested one, or the default only when none is requested.
pub proof fn lemma_session_request_ignores_session_id(
    d: Seq<char>,
    r: AgentRunRequestModel,
    session_id: Option<Seq<char>>,
)
    ensures
        session_request_model(d, AgentRunRequestModel { session_id, ..r }) == session_request_model(
            d,
            r,
        ),
        session_request_model(d, r).model == match r.model {
            Some(m) => m,
            None => d,
        },
        session_request_model(d, r).tool == "gemini"@,
        session_request_model(d, r).prompt == r.prompt,
        session_request_model(d, r).env_vars == r.env,
{
}

/// Why a run could not be carried out.
pub enum BackendError {
    /// The session backend could not start or resume the session.
    SessionStartFailed(String),
    /// The request cannot be run as it stands.
    RunFailed(String),
    /// Anything else that failed, such as cancelling a session.
    Other(String),
}

/// The message of the error a resume without a session id gets.
pub open spec fn spec_missing_session_message() -> Seq<char> {
    "resume requires a session_id"@
}

/// Appends `name: value` to the extras fields when the value is present.
fn push_optional_field(
    fields: &mut Vec<(String, serde_json::Value)>,
    name: &str,
    value: Option<serde_json::Value>,
)
    ensures
        fields_model(final(fields)@) == fields_model(old(fields)@) + optional_field(name@, value),
{
    match value {
        Some(v) => {
            let ghost before = fields@;
            fields.push((String::from_str(name), v));
            proof {
                assert(fields_model(fields@) =~= fields_model(before) + optional_field(name@, value));
            }
        },
        None => {
            assert(fields_model(fields@) =~= fields_model(fields@) + optional_field(name@, value));
        },
    }
}

impl GeminiConfig {
    /// The request that opens a Gemini session for `request`: the `gemini`
    /// tool, the request's model or else the configured default, the request's
    /// prompt, directories, permission mode, timeout and environment, no MCP
    /// endpoint, and the extras of `extras_model`.
    pub fn build_session_request(&self, request: AgentRunRequest) -> (session: SessionRequest)
        ensures
            session@ == session_request_model(self.default_model@, request@),
            session.tool@ == "gemini"@,
            session.model@ == match request.model {
                Some(m) => m@,
                None => self.default_model@,
            },
            session.prompt@ == request.prompt@,
            session.cwd == request.cwd,
            session.project_root == request.project_root,
            session.mcp_endpoint is None,
            session.permission_mode.deep_view() == request.permission_mode.deep_view(),
            session.timeout_secs == request.timeout_secs,
            session@.env_vars == request@.env,
            match request.runtime_contract {
                Some(v) => session@.extras.contains(("runtime_contract"@, v)),
                None => lacks_field(session@.extras, "runtime_contract"@),
            },
            match request.mcp_servers {
                Some(v) => session@.extras.contains(("mcp_servers"@, v)),
                None => lacks_field(session@.extras, "mcp_servers"@),
            },
            match request.tools {
                Some(v) => session@.extras.contains(("tools"@, v)),
                None => lacks_field(session@.extras, "tools"@),
            },
            match request.response_schema {
                Some(v) => session@.extras.contains(("response_schema"@, v)),
                None => lacks_field(session@.extras, "response_schema"@),
            },
    {
        let ghost r = request@;
        proof {
            lemma_extras_fields(self.default_model@, r);
        }
        let model = match request.model {
            Some(m) => m,
            None => self.default_model.clone(),
        };
        let mut extras: Vec<(String, serde_json::Value)> = Vec::new();
        push_optional_field(&mut extras, "runtime_contract", request.runtime_contract);
        push_optional_field(&mut extras, "mcp_servers", request.mcp_servers);
        push_optional_field(&mut extras, "tools", request.tools);
        push_optional_field(&mut extras, "response_schema", request.response_schema);
        proof {
            assert(fields_model(Seq::<(String, serde_json::Value)>::empty()) =~= Seq::<
                (Seq<char>, serde_json::Value),
            >::empty());
            assert(fields_model(extras@) =~= extras_model(r));
        }
        SessionRequest {
            tool: String::from_str("gemini"),
            model,
            prompt: request.prompt,
            cwd: request.cwd,
            project_root: request.project_root,
            mcp_endpoint: None,
            permission_mode: request.permission_mode,
            timeout_secs: request.timeout_secs,
            env_vars: request.env,
            extras,
        }
    }

    /// The session to resume and the request that resumes it; a request that
    /// names no session is refused with `RunFailed`.
    pub fn build_resume_request(&self, request: AgentRunRequest) -> (result: Result<
        (String, SessionRequest),
        BackendError,
    >)
        ensures
            match request.session_id {
                Some(id) => match result {
                    Ok((resumed, session)) => resumed@ == id@ && session@ == session_request_model(
                        self.default_model@,
                        request@,
                    ) && session.model@ == match request.model {
                        Some(m) => m@,
                        None => self.default_model@,
                    } && session.prompt@ == request.prompt@ && session.tool@ == "gemini"@,
                    Err(_) => false,
                },
                None => match result {
                    Err(BackendError::RunFailed(message)) => message@
                        == "resume requires a session_id"@,
                    _ => false,
                },
            },
    {
        match request.session_id.clone() {
            Some(id) => Ok((id, self.build_session_request(request))),
            None => Err(BackendError::RunFailed(String::from_str("resume requires a session_id"))),
        }
    }
}

} // verus!
