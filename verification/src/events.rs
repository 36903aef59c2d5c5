//! Turning the event stream of one Gemini session into notifications for the
//! caller and, once the session is over, into the run's response.
//!
//! The stream is consumed one event at a time: `DrainState::apply` folds an
//! event into the state and says which notification, if any, to forward.
//! Whoever owns the channel runs the loop; everything it decides is here.
use vstd::prelude::*;
use crate::values::copy_json;

verus! {

/// One event reported by a session backend while a session runs.
pub enum SessionEvent {
    /// The backend picked a driver and possibly a session id.
    Started { backend: String, session_id: Option<String> },
    /// A piece of output text, to be appended to what came before.
    TextDelta { text: String },
    /// The complete output text, replacing what came before.
    FinalText { text: String },
    /// A piece of the model's reasoning.
    Thinking { text: String },
    /// The model called a tool.
    ToolCall { tool_name: String, arguments: serde_json::Value, server: Option<String> },
    /// A tool answered.
    ToolResult { tool_name: String, output: serde_json::Value, success: bool },
    /// The session produced an artifact.
    Artifact { artifact_id: String, metadata: serde_json::Value },
    /// Free-form metadata about the session.
    Metadata { metadata: serde_json::Value },
    /// Something went wrong; unless it is recoverable the run fails.
    Error { message: String, recoverable: bool },
    /// The session is over.
    Finished { exit_code: Option<i32> },
}

/// The mathematical model of a `SessionEvent`: strings are character sequences.
pub enum EventModel {
    Started { backend: Seq<char>, session_id: Option<Seq<char>> },
    TextDelta { text: Seq<char> },
    FinalText { text: Seq<char> },
    Thinking { text: Seq<char> },
    ToolCall { tool_name: Seq<char>, arguments: serde_json::Value, server: Option<Seq<char>> },
    ToolResult { tool_name: Seq<char>, output: serde_json::Value, success: bool },
    Artifact { artifact_id: Seq<char>, metadata: serde_json::Value },
    Metadata { metadata: serde_json::Value },
    Error { message: Seq<char>, recoverable: bool },
    Finished { exit_code: Option<i32> },
}

impl View for SessionEvent {
    type V = EventModel;

    open spec fn view(&self) -> EventModel {
        match self {
            SessionEvent::Started { backend, session_id } => EventModel::Started {
                backend: backend@,
                session_id: session_id.deep_view(),
            },
            SessionEvent::TextDelta { text } => EventModel::TextDelta { text: text@ },
            SessionEvent::FinalText { text } => EventModel::FinalText { text: text@ },
            SessionEvent::Thinking { text } => EventModel::Thinking { text: text@ },
            SessionEvent::ToolCall { tool_name, arguments, server } => EventModel::ToolCall {
                tool_name: tool_name@,
                arguments: *arguments,
                server: server.deep_view(),
            },
            SessionEvent::ToolResult { tool_name, output, success } => EventModel::ToolResult {
                tool_name: tool_name@,
                output: *output,
                success: *success,
            },
            SessionEvent::Artifact { artifact_id, metadata } => EventModel::Artifact {
                artifact_id: artifact_id@,
                metadata: *metadata,
            },
            SessionEvent::Metadata { metadata } => EventModel::Metadata { metadata: *metadata },
            SessionEvent::Error { message, recoverable } => EventModel::Error {
                message: message@,
                recoverable: *recoverable,
            },
            SessionEvent::Finished { exit_code } => EventModel::Finished { exit_code: *exit_code },
        }
    }
}

/// A tool call as it is recorded in the run's response.
pub struct ToolCallRecord {
    pub tool_name: String,
    pub arguments: serde_json::Value,
    pub server: Option<String>,
}

pub struct ToolCallModel {
    pub tool_name: Seq<char>,
    pub arguments: serde_json::Value,
    pub server: Option<Seq<char>>,
}

impl View for ToolCallRecord {
    type V = ToolCallModel;

    open spec fn view(&self) -> ToolCallModel {
        ToolCallModel {
            tool_name: self.tool_name@,
            arguments: self.arguments,
            server: self.server.deep_view(),
        }
    }
}

/// A tool result as it is recorded in the run's response.
pub struct ToolResultRecord {
    pub tool_name: String,
    pub output: serde_json::Value,
    pub success: bool,
}

pub struct ToolResultModel {
    pub tool_name: Seq<char>,
    pub output: serde_json::Value,
    pub success: bool,
}

impl View for ToolResultRecord {
    type V = ToolResultModel;

    open spec fn view(&self) -> ToolResultModel {
        ToolResultModel { tool_name: self.tool_name@, output: self.output, success: self.success }
    }
}

/// One entry of the run's metadata: an artifact with its metadata, or
/// metadata reported as such.
pub enum MetadataEntry {
    Artifact { artifact_id: String, metadata: serde_json::Value },
    Reported { metadata: serde_json::Value },
}

pub enum MetadataModel {
    Artifact { artifact_id: Seq<char>, metadata: serde_json::Value },
    Reported { metadata: serde_json::Value },
}

impl View for MetadataEntry {
    type V = MetadataModel;

    open spec fn view(&self) -> MetadataModel {
        match self {
            MetadataEntry::Artifact { artifact_id, metadata } => MetadataModel::Artifact {
                artifact_id: artifact_id@,
                metadata: *metadata,
            },
            MetadataEntry::Reported { metadata } => MetadataModel::Reported { metadata: *metadata },
        }
    }
}

/// A notification streamed to the caller while the session runs.
pub enum AgentNotification {
    Output { session_id: String, text: String, is_final: bool },
    Thinking { session_id: String, text: String },
    ToolCall {
        session_id: String,
        name: String,
        arguments: serde_json::Value,
        server: Option<String>,
    },
    ToolResult { session_id: String, name: String, output: serde_json::Value, success: bool },
    Error { session_id: String, message: String, recoverable: bool },
}

pub enum NotificationModel {
    Output { session_id: Seq<char>, text: Seq<char>, is_final: bool },
    Thinking { session_id: Seq<char>, text: Seq<char> },
    ToolCall {
        session_id: Seq<char>,
        name: Seq<char>,
        arguments: serde_json::Value,
        server: Option<Seq<char>>,
    },
    ToolResult { session_id: Seq<char>, name: Seq<char>, output: serde_json::Value, success: bool },
    Error { session_id: Seq<char>, message: Seq<char>, recoverable: bool },
}

impl View for AgentNotification {
    type V = NotificationModel;

    open spec fn view(&self) -> NotificationModel {
        match self {
            AgentNotification::Output { session_id, text, is_final } => NotificationModel::Output {
                session_id: session_id@,
                text: text@,
                is_final: *is_final,
            },
            AgentNotification::Thinking { session_id, text } => NotificationModel::Thinking {
                session_id: session_id@,
                text: text@,
            },
            AgentNotification::ToolCall { session_id, name, arguments, server } =>
                NotificationModel::ToolCall {
                    session_id: session_id@,
                    name: name@,
                    arguments: *arguments,
                    server: server.deep_view(),
                },
            AgentNotification::ToolResult { session_id, name, output, success } =>
                NotificationModel::ToolResult {
                    session_id: session_id@,
                    name: name@,
                    output: *output,
                    success: *success,
                },
            AgentNotification::Error { session_id, message, recoverable } =>
                NotificationModel::Error {
                    session_id: session_id@,
                    message: message@,
                    recoverable: *recoverable,
                },
        }
    }
}

impl NotificationModel {
    /// The session id a notification is addressed to.
    pub open spec fn session_id(self) -> Seq<char> {
        match self {
            NotificationModel::Output { session_id, .. } => session_id,
            NotificationModel::Thinking { session_id, .. } => session_id,
            NotificationModel::ToolCall { session_id, .. } => session_id,
            NotificationModel::ToolResult { session_id, .. } => session_id,
            NotificationModel::Error { session_id, .. } => session_id,
        }
    }
}

/// The model of an optional notification.
pub open spec fn notification_model(n: Option<AgentNotification>) -> Option<NotificationModel> {
    match n {
        Some(n) => Some(n@),
        None => None,
    }
}

/// What the provider has gathered so far from one session's events.
pub struct DrainState {
    pub output: String,
    pub thinking: Vec<String>,
    pub errors: Vec<String>,
    pub tool_calls: Vec<ToolCallRecord>,
    pub tool_results: Vec<ToolResultRecord>,
    pub metadata: Vec<MetadataEntry>,
    pub session_id: Option<String>,
    pub backend_label: String,
    pub exit_code: i32,
    pub finished: bool,
}

pub struct DrainModel {
    pub output: Seq<char>,
    pub thinking: Seq<Seq<char>>,
    pub errors: Seq<Seq<char>>,
    pub tool_calls: Seq<ToolCallModel>,
    pub tool_results: Seq<ToolResultModel>,
    pub metadata: Seq<MetadataModel>,
    pub session_id: Option<Seq<char>>,
    pub backend_label: Seq<char>,
    pub exit_code: i32,
    pub finished: bool,
}

impl View for DrainState {
    type V = DrainModel;

    open spec fn view(&self) -> DrainModel {
        DrainModel {
            output: self.output@,
            thinking: self.thinking.deep_view(),
            errors: self.errors.deep_view(),
            tool_calls: self.tool_calls@.map_values(|r: ToolCallRecord| r@),
            tool_results: self.tool_results@.map_values(|r: ToolResultRecord| r@),
            metadata: self.metadata@.map_values(|m: MetadataEntry| m@),
            session_id: self.session_id.deep_view(),
            backend_label: self.backend_label@,
            exit_code: self.exit_code,
            finished: self.finished,
        }
    }
}

/// The state before any event of a session that the backend opened with the
/// given session id and driver label.
pub open spec fn initial_model(session_id: Option<Seq<char>>, backend_label: Seq<char>) -> DrainModel {
    DrainModel {
        output: Seq::empty(),
        thinking: Seq::empty(),
        errors: Seq::empty(),
        tool_calls: Seq::empty(),
        tool_results: Seq::empty(),
        metadata: Seq::empty(),
        session_id,
        backend_label,
        exit_code: 0,
        finished: false,
    }
}

/// The session id that notifications carry: the known one, or the empty string.
pub open spec fn addressed_to(s: DrainModel) -> Seq<char> {
    match s.session_id {
        Some(id) => id,
        None => Seq::empty(),
    }
}

/// One step of the session: the state after the event and the notification to
/// forward. Nothing changes and nothing is forwarded once the session finished.
pub open spec fn step_model(s: DrainModel, e: EventModel) -> (DrainModel, Option<NotificationModel>) {
    if s.finished {
        (s, None)
    } else {
        let to = addressed_to(s);
        match e {
            EventModel::Started { backend, session_id } => (
                DrainModel {
                    backend_label: if backend.len() > 0 { backend } else { s.backend_label },
                    session_id: if s.session_id is None { session_id } else { s.session_id },
                    ..s
                },
                None,
            ),
            EventModel::TextDelta { text } => (
                DrainModel { output: s.output + text, ..s },
                Some(NotificationModel::Output { session_id: to, text, is_final: false }),
            ),
            EventModel::FinalText { text } => (
                DrainModel { output: text, ..s },
                Some(NotificationModel::Output { session_id: to, text, is_final: true }),
            ),
            EventModel::Thinking { text } => (
                DrainModel { thinking: s.thinking.push(text), ..s },
                Some(NotificationModel::Thinking { session_id: to, text }),
            ),
            EventModel::ToolCall { tool_name, arguments, server } => (
                DrainModel {
                    tool_calls: s.tool_calls.push(ToolCallModel { tool_name, arguments, server }),
                    ..s
                },
                Some(NotificationModel::ToolCall { session_id: to, name: tool_name, arguments, server }),
            ),
            EventModel::ToolResult { tool_name, output, success } => (
                DrainModel {
                    tool_results: s.tool_results.push(ToolResultModel { tool_name, output, success }),
                    ..s
                },
                Some(NotificationModel::ToolResult { session_id: to, name: tool_name, output, success }),
            ),
            EventModel::Artifact { artifact_id, metadata } => (
                DrainModel {
                    metadata: s.metadata.push(MetadataModel::Artifact { artifact_id, metadata }),
                    ..s
                },
                None,
            ),
            EventModel::Metadata { metadata } => (
                DrainModel { metadata: s.metadata.push(MetadataModel::Reported { metadata }), ..s },
                None,
            ),
            EventModel::Error { message, recoverable } => (
                DrainModel {
                    errors: s.errors.push(message),
                    exit_code: if recoverable { s.exit_code } else { 1 },
                    ..s
                },
                Some(NotificationModel::Error { session_id: to, message, recoverable }),
            ),
            EventModel::Finished { exit_code } => (
                DrainModel {
                    exit_code: match exit_code {
                        Some(code) => code,
                        None => s.exit_code,
                    },
                    finished: true,
                    ..s
                },
                None,
            ),
        }
    }
}


/// What a run reports once its session is over.
pub struct AgentRunResponse {
    pub session_id: String,
    pub exit_code: i32,
    pub output: String,
    pub metadata: Vec<MetadataEntry>,
    pub tool_calls: Vec<ToolCallRecord>,
    pub tool_results: Vec<ToolResultRecord>,
    pub thinking: Vec<String>,
    pub errors: Vec<String>,
    pub duration_ms: u64,
    pub backend: String,
}

pub struct ResponseModel {
    pub session_id: Seq<char>,
    pub exit_code: i32,
    pub output: Seq<char>,
    pub metadata: Seq<MetadataModel>,
    pub tool_calls: Seq<ToolCallModel>,
    pub tool_results: Seq<ToolResultModel>,
    pub thinking: Seq<Seq<char>>,
    pub errors: Seq<Seq<char>>,
    pub duration_ms: u64,
    pub backend: Seq<char>,
}

impl View for AgentRunResponse {
    type V = ResponseModel;

    open spec fn view(&self) -> ResponseModel {
        ResponseModel {
            session_id: self.session_id@,
            exit_code: self.exit_code,
            output: self.output@,
            metadata: self.metadata@.map_values(|m: MetadataEntry| m@),
            tool_calls: self.tool_calls@.map_values(|r: ToolCallRecord| r@),
            tool_results: self.tool_results@.map_values(|r: ToolResultRecord| r@),
            thinking: self.thinking.deep_view(),
            errors: self.errors.deep_view(),
            duration_ms: self.duration_ms,
            backend: self.backend@,
        }
    }
}

/// The backend a response names: `gemini:<model>` when no driver label was
/// ever known, `gemini-native:<model>` otherwise.
pub open spec fn backend_name(driver_label: Seq<char>, model: Seq<char>) -> Seq<char> {
    if driver_label.len() == 0 {
        "gemini:"@ + model
    } else {
        "gemini-native:"@ + model
    }
}

/// The response of a run whose session left the state `s`, for the given
/// model label and elapsed time.
pub open spec fn response_model(s: DrainModel, model: Seq<char>, duration_ms: u64) -> ResponseModel {
    ResponseModel {
        session_id: addressed_to(s),
        exit_code: s.exit_code,
        output: s.output,
        metadata: s.metadata,
        tool_calls: s.tool_calls,
        tool_results: s.tool_results,
        thinking: s.thinking,
        errors: s.errors,
        duration_ms,
        backend: backend_name(s.backend_label, model),
    }
}

impl DrainState {
    /// The state of a session that the backend opened with the given session
    /// id and driver label, before any event.
    pub fn new(session_id: Option<String>, backend_label: String) -> (state: DrainState)
        ensures
            state@ == initial_model(session_id.deep_view(), backend_label@),
            state.output@ == Seq::<char>::empty(),
            state.thinking@.len() == 0,
            state.errors@.len() == 0,
            state.tool_calls@.len() == 0,
            state.tool_results@.len() == 0,
            state.metadata@.len() == 0,
            state.session_id.deep_view() == session_id.deep_view(),
            state.backend_label@ == backend_label@,
            state.exit_code == 0,
            !state.finished,
    {
        let state = DrainState {
            output: String::new(),
            thinking: Vec::new(),
            errors: Vec::new(),
            tool_calls: Vec::new(),
            tool_results: Vec::new(),
            metadata: Vec::new(),
            session_id,
            backend_label,
            exit_code: 0,
            finished: false,
        };
        proof {
            assert(state.thinking.deep_view() =~= Seq::<Seq<char>>::empty());
            assert(state.errors.deep_view() =~= Seq::<Seq<char>>::empty());
            assert(state@.tool_calls =~= Seq::<ToolCallModel>::empty());
            assert(state@.tool_results =~= Seq::<ToolResultModel>::empty());
            assert(state@.metadata =~= Seq::<MetadataModel>::empty());
        }
        state
    }

    /// The session id that notifications carry now.
    fn current_session_id(&self) -> (id: String)
        ensures
            id@ == addressed_to(self@),
    {
        match &self.session_id {
            Some(id) => id.clone(),
            None => String::new(),
        }
    }

    /// Folds one event into the state and returns the notification to forward,
    /// as `step_model` says.
    pub fn apply(&mut self, event: SessionEvent) -> (notification: Option<AgentNotification>)
        ensures
            (final(self)@, notification_model(notification)) == step_model(old(self)@, event@),
            old(self).finished ==> final(self)@ == old(self)@ && notification is None,
            !old(self).finished ==> ({
                let before = old(self)@;
                let after = final(self)@;
                let to = match before.session_id {
                    Some(id) => id,
                    None => Seq::<char>::empty(),
                };
                match event@ {
                    EventModel::Started { backend, session_id } => {
                        &&& after.backend_label == (if backend.len() > 0 {
                            backend
                        } else {
                            before.backend_label
                        })
                        &&& after.session_id == (if before.session_id is Some {
                            before.session_id
                        } else {
                            session_id
                        })
                        &&& after.output == before.output
                        &&& notification is None
                    },
                    EventModel::TextDelta { text } => {
                        &&& after.output == before.output + text
                        &&& notification_model(notification) == Some(
                            NotificationModel::Output { session_id: to, text, is_final: false },
                        )
                    },
                    EventModel::FinalText { text } => {
                        &&& after.output == text
                        &&& notification_model(notification) == Some(
                            NotificationModel::Output { session_id: to, text, is_final: true },
                        )
                    },
                    EventModel::Thinking { text } => {
                        &&& after.thinking == before.thinking.push(text)
                        &&& after.output == before.output
                        &&& notification_model(notification) == Some(
                            NotificationModel::Thinking { session_id: to, text },
                        )
                    },
                    EventModel::ToolCall { tool_name, arguments, server } => {
                        &&& after.tool_calls == before.tool_calls.push(
                            ToolCallModel { tool_name, arguments, server },
                        )
                        &&& notification_model(notification) == Some(
                            NotificationModel::ToolCall {
                                session_id: to,
                                name: tool_name,
                                arguments,
                                server,
                            },
                        )
                    },
                    EventModel::ToolResult { tool_name, output, success } => {
                        &&& after.tool_results == before.tool_results.push(
                            ToolResultModel { tool_name, output, success },
                        )
                        &&& notification_model(notification) == Some(
                            NotificationModel::ToolResult {
                                session_id: to,
                                name: tool_name,
                                output,
                                success,
                            },
                        )
                    },
                    EventModel::Artifact { artifact_id, metadata } => {
                        &&& after.metadata == before.metadata.push(
                            MetadataModel::Artifact { artifact_id, metadata },
                        )
                        &&& notification is None
                    },
                    EventModel::Metadata { metadata } => {
                        &&& after.metadata == before.metadata.push(MetadataModel::Reported { metadata })
                        &&& notification is None
                    },
                    EventModel::Error { message, recoverable } => {
                        &&& after.errors == before.errors.push(message)
                        &&& after.exit_code == (if recoverable {
                            before.exit_code
                        } else {
                            1
                        })
                        &&& notification_model(notification) == Some(
                            NotificationModel::Error { session_id: to, message, recoverable },
                        )
                    },
                    EventModel::Finished { exit_code } => {
                        &&& after.finished
                        &&& after.exit_code == (match exit_code {
                            Some(code) => code,
                            None => before.exit_code,
                        })
                        &&& after.output == before.output
                        &&& notification is None
                    },
                }
            }),
    {
        if self.finished {
            return None;
        }
        let ghost s = self@;
        let to = self.current_session_id();
        match event {
            SessionEvent::Started { backend, session_id } => {
                if !backend.as_str().is_empty() {
                    self.backend_label = backend;
                }
                if self.session_id.is_none() {
                    self.session_id = session_id;
                }
                None
            },
            SessionEvent::TextDelta { text } => {
                self.output.append(text.as_str());
                Some(AgentNotification::Output { session_id: to, text, is_final: false })
            },
            SessionEvent::FinalText { text } => {
                self.output = text.clone();
                Some(AgentNotification::Output { session_id: to, text, is_final: true })
            },
            SessionEvent::Thinking { text } => {
                self.thinking.push(text.clone());
                proof {
                    assert(self.thinking.deep_view() =~= s.thinking.push(text@));
                }
                Some(AgentNotification::Thinking { session_id: to, text })
            },
            SessionEvent::ToolCall { tool_name, arguments, server } => {
                let record = ToolCallRecord {
                    tool_name: tool_name.clone(),
                    arguments: copy_json(&arguments),
                    server: server.clone(),
                };
                self.tool_calls.push(record);
                proof {
                    assert(self@.tool_calls =~= s.tool_calls.push(record@));
                }
                Some(AgentNotification::ToolCall { session_id: to, name: tool_name, arguments, server })
            },
            SessionEvent::ToolResult { tool_name, output, success } => {
                let record = ToolResultRecord {
                    tool_name: tool_name.clone(),
                    output: copy_json(&output),
                    success,
                };
                self.tool_results.push(record);
                proof {
                    assert(self@.tool_results =~= s.tool_results.push(record@));
                }
                Some(AgentNotification::ToolResult { session_id: to, name: tool_name, output, success })
            },
            SessionEvent::Artifact { artifact_id, metadata } => {
                let entry = MetadataEntry::Artifact { artifact_id, metadata };
                self.metadata.push(entry);
                proof {
                    assert(self@.metadata =~= s.metadata.push(entry@));
                }
                None
            },
            SessionEvent::Metadata { metadata } => {
                let entry = MetadataEntry::Reported { metadata };
                self.metadata.push(entry);
                proof {
                    assert(self@.metadata =~= s.metadata.push(entry@));
                }
                None
            },
            SessionEvent::Error { message, recoverable } => {
                self.errors.push(message.clone());
                proof {
                    assert(self.errors.deep_view() =~= s.errors.push(message@));
                }
                if !recoverable {
                    self.exit_code = 1;
                }
                Some(AgentNotification::Error { session_id: to, message, recoverable })
            },
            SessionEvent::Finished { exit_code } => {
                if let Some(code) = exit_code {
                    self.exit_code = code;
                }
                self.finished = true;
                None
            },
        }
    }

    /// The response of the run, once the session is over: everything gathered,
    /// the session id (empty when none was ever known) and the backend name.
    pub fn into_response(self, model_label: String, duration_ms: u64) -> (response: AgentRunResponse)
        ensures
            response@ == response_model(self@, model_label@, duration_ms),
            response.duration_ms == duration_ms,
            response.exit_code == self.exit_code,
            response.output@ == self.output@,
            response.thinking.deep_view() == self.thinking.deep_view(),
            response.errors.deep_view() == self.errors.deep_view(),
            response@.tool_calls == self@.tool_calls,
            response@.tool_results == self@.tool_results,
            response@.metadata == self@.metadata,
            response.session_id@ == match self.session_id {
                Some(id) => id@,
                None => Seq::<char>::empty(),
            },
            response.backend@ == (if self.backend_label@.len() == 0 {
                "gemini:"@ + model_label@
            } else {
                "gemini-native:"@ + model_label@
            }),
    {
        let session_id = match self.session_id {
            Some(id) => id,
            None => String::new(),
        };
        let backend = if self.backend_label.as_str().is_empty() {
            String::from_str("gemini:").concat(model_label.as_str())
        } else {
            String::from_str("gemini-native:").concat(model_label.as_str())
        };
        AgentRunResponse {
            session_id,
            exit_code: self.exit_code,
            output: self.output,
            metadata: self.metadata,
            tool_calls: self.tool_calls,
            tool_results: self.tool_results,
            thinking: self.thinking,
            errors: self.errors,
            duration_ms,
            backend,
        }
    }
}

} // verus!
