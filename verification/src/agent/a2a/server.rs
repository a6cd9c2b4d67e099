//! The server side of the agent-to-agent protocol: who may call, which
//! method a request names, and how a task moves through its states.
//!
//! Listening is left to whoever runs the server. Every step that reads the
//! clock has a twin that takes the time as an argument.
use crate::agent::a2a::types::error_codes::{
    AUTHENTICATION_FAILED, INVALID_PARAMS, METHOD_NOT_FOUND, PARSE_ERROR, TASK_CANCEL_FAILED,
    TASK_NOT_FOUND,
};
use crate::agent::a2a::types::{
    A2ARequest, A2AResponse, AgentCard, AgentMessage, ErrorMessage, StateTransition, TaskStatus,
};
use crate::agent::a2a::wire::{optional_message, transition_encodings};
use crate::json::{
    get_text, json_get, json_model, json_null, json_object, json_parsed, member, members_new,
    no_members, put_text, text_member, with_optional, JsonModel,
};
use crate::clock::{fresh_id, milliseconds_now, timestamp_now};
use crate::text::{holds, is_among, str_eq, strip_prefix};
use std::collections::HashMap;
use vstd::prelude::*;

verus! {

/// The largest request body that is read, in bytes.
pub const MAX_BODY_SIZE: usize = 65_536;

/// The time a request may take, in seconds.
pub const REQUEST_TIMEOUT_SECS: u64 = 30;

#[derive(Clone)]
pub struct A2AServerConfig {
    pub host: String,
    pub port: u16,
    pub api_keys: Vec<String>,
    pub oauth_clients: HashMap<String, OAuthClient>,
    pub require_authentication: bool,
}

impl Default for A2AServerConfig {
    fn default() -> (r: Self)
        ensures
            r.host@ == "127.0.0.1"@,
            r.port == 42618,
            r.api_keys@.len() == 0,
            r.require_authentication,
    {
        Self {
            host: "127.0.0.1".to_owned(),
            port: 42618,
            api_keys: Vec::new(),
            oauth_clients: HashMap::new(),
            require_authentication: true,
        }
    }
}

#[derive(Clone)]
pub struct OAuthClient {
    pub client_id: String,
    pub client_secret: String,
    pub redirect_uri: String,
}

pub struct A2AServer {
    config: A2AServerConfig,
    agent_card: AgentCard,
}

impl A2AServer {
    pub closed spec fn config_of(&self) -> A2AServerConfig {
        self.config
    }

    pub closed spec fn card_of(&self) -> AgentCard {
        self.agent_card
    }

    pub fn new(config: A2AServerConfig, agent_card: AgentCard) -> (r: Self)
        ensures
            r.config_of() == config,
            r.card_of() == agent_card,
    {
        Self { config, agent_card }
    }

    pub fn config(&self) -> (r: &A2AServerConfig)
        ensures
            *r == self.config_of(),
    {
        &self.config
    }

    pub fn agent_card(&self) -> (r: &AgentCard)
        ensures
            *r == self.card_of(),
    {
        &self.agent_card
    }
}

/// Why a caller is turned away.
#[derive(Debug, Clone, Copy, PartialEq, Eq, Structural)]
pub enum AuthFailure {
    /// The caller showed a key that the server does not know.
    InvalidKey,
    /// The caller showed no key.
    Missing,
}

impl AuthFailure {
    /// The words with which the caller is turned away.
    pub open spec fn text(&self) -> Seq<char> {
        match *self {
            AuthFailure::InvalidKey => "Invalid API key"@,
            AuthFailure::Missing => "Authentication required"@,
        }
    }

    pub fn message(&self) -> (r: String)
        ensures
            r@ == self.text(),
    {
        match self {
            AuthFailure::InvalidKey => "Invalid API key".to_owned(),
            AuthFailure::Missing => "Authentication required".to_owned(),
        }
    }
}

/// What an `Authorization` header earns its bearer. A server that asks for
/// no authentication lets everyone in. Otherwise the header must name a key
/// of the server, after `Bearer ` or after `ApiKey `.
pub open spec fn authentication_of(config: A2AServerConfig, header: Seq<char>) -> Result<
    (),
    AuthFailure,
> {
    if !config.require_authentication {
        Ok(())
    } else if "Bearer "@.is_prefix_of(header) {
        if is_among(config.api_keys@, header.skip("Bearer "@.len() as int)) {
            Ok(())
        } else {
            Err(AuthFailure::InvalidKey)
        }
    } else if "ApiKey "@.is_prefix_of(header) {
        if is_among(config.api_keys@, header.skip("ApiKey "@.len() as int)) {
            Ok(())
        } else {
            Err(AuthFailure::InvalidKey)
        }
    } else {
        Err(AuthFailure::Missing)
    }
}

/// Decides whether the bearer of an `Authorization` header may call. A
/// request without the header is judged as one with an empty header.
pub fn authenticate(config: &A2AServerConfig, header: &str) -> (r: Result<(), AuthFailure>)
    ensures
        r == authentication_of(*config, header@),
{
    if !config.require_authentication {
        return Ok(());
    }
    match strip_prefix(header, "Bearer ") {
        Some(key) => {
            assert(key@ =~= header@.skip("Bearer "@.len() as int));
            assert("Bearer "@.is_prefix_of(header@));
            return if holds(&config.api_keys, key) {
                Ok(())
            } else {
                Err(AuthFailure::InvalidKey)
            };
        },
        None => {},
    }
    match strip_prefix(header, "ApiKey ") {
        Some(key) => {
            assert(key@ =~= header@.skip("ApiKey "@.len() as int));
            assert("ApiKey "@.is_prefix_of(header@));
            if holds(&config.api_keys, key) {
                Ok(())
            } else {
                Err(AuthFailure::InvalidKey)
            }
        },
        None => Err(AuthFailure::Missing),
    }
}

/// The methods of the protocol.
#[derive(Debug, Clone, Copy, PartialEq, Eq, Structural)]
pub enum A2AMethod {
    TaskSubmit,
    TaskGet,
    TaskCancel,
    AgentCard,
}

/// The method that a name stands for.
pub open spec fn method_named(name: Seq<char>) -> Option<A2AMethod> {
    if name == "tasks/submit"@ {
        Some(A2AMethod::TaskSubmit)
    } else if name == "tasks/get"@ {
        Some(A2AMethod::TaskGet)
    } else if name == "tasks/cancel"@ {
        Some(A2AMethod::TaskCancel)
    } else if name == "agent/card"@ {
        Some(A2AMethod::AgentCard)
    } else {
        None
    }
}

/// Routes a request by the name of its method. An unknown name is answered
/// with the method-not-found error.
pub fn handle_method(name: &str) -> (r: Result<A2AMethod, ErrorMessage>)
    ensures
        match r {
            Ok(method) => method_named(name@) == Some(method),
            Err(e) => method_named(name@) is None && e.code == METHOD_NOT_FOUND && e.message@
                == "Method not found"@ && e.data is None,
        },
{
    if str_eq(name, "tasks/submit") {
        Ok(A2AMethod::TaskSubmit)
    } else if str_eq(name, "tasks/get") {
        Ok(A2AMethod::TaskGet)
    } else if str_eq(name, "tasks/cancel") {
        Ok(A2AMethod::TaskCancel)
    } else if str_eq(name, "agent/card") {
        Ok(A2AMethod::AgentCard)
    } else {
        Err(ErrorMessage::new(METHOD_NOT_FOUND, "Method not found"))
    }
}

/// Reads the identifier of the task that a request is about. A request
/// without parameters, or without a string `id` among them, is answered
/// with the invalid-params error.
pub fn task_id_param(params: Option<&serde_json::Value>) -> (r: Result<String, ErrorMessage>)
    ensures
        match params {
            None => r matches Err(e) && e.code == INVALID_PARAMS && e.message@ == "Missing params"@
                && e.data is None,
            Some(p) => match text_member(json_model(*p), "id"@) {
                Some(id) => r matches Ok(s) && s@ == id,
                None => r matches Err(e) && e.code == INVALID_PARAMS && e.message@
                    == "Missing task id"@ && e.data is None,
            },
        },
{
    match params {
        None => Err(ErrorMessage::new(INVALID_PARAMS, "Missing params")),
        Some(p) => match get_text(p, "id") {
            Some(id) => Ok(id),
            None => Err(ErrorMessage::new(INVALID_PARAMS, "Missing task id")),
        },
    }
}

/// Whether a task has come to its end.
pub open spec fn is_finished(status: TaskStatus) -> bool {
    status == TaskStatus::Completed || status == TaskStatus::Failed || status
        == TaskStatus::Canceled
}

/// Tells whether a task has come to its end.
pub fn finished(status: TaskStatus) -> (r: bool)
    ensures
        r == is_finished(status),
{
    match status {
        TaskStatus::Completed => true,
        TaskStatus::Failed => true,
        TaskStatus::Canceled => true,
        _ => false,
    }
}

/// One task as the server holds it. Times are milliseconds on the clock of
/// whoever runs the server; timestamps are texts that it formats.
pub struct TaskContext {
    pub id: String,
    pub status: TaskStatus,
    pub message: Option<AgentMessage>,
    pub history: Vec<StateTransition>,
    pub created_at: u64,
    pub updated_at: u64,
}

impl TaskContext {
    /// A task that is submitted at the time of the call. Its history
    /// begins with the submission.
    pub fn new(id: String, message: AgentMessage) -> (r: Self)
        ensures
            r.id == id,
            r.status == TaskStatus::Submitted,
            r.message == Some(message),
            r.history@.len() == 1,
            r.history@[0].from == TaskStatus::Submitted,
            r.history@[0].to == TaskStatus::Submitted,
            r.history@[0].message is None,
            r.created_at == r.updated_at,
    {
        let timestamp = timestamp_now();
        Self::at(id, message, milliseconds_now(), timestamp.as_str())
    }

    /// A task that was submitted at a time. Its history begins with the
    /// submission.
    pub fn at(id: String, message: AgentMessage, now: u64, timestamp: &str) -> (r: Self)
        ensures
            r.id == id,
            r.status == TaskStatus::Submitted,
            r.message == Some(message),
            r.history@.len() == 1,
            r.history@[0].from == TaskStatus::Submitted,
            r.history@[0].to == TaskStatus::Submitted,
            r.history@[0].timestamp@ == timestamp@,
            r.history@[0].message is None,
            r.created_at == now,
            r.updated_at == now,
    {
        let mut history = Vec::new();
        history.push(StateTransition::new(TaskStatus::Submitted, TaskStatus::Submitted, timestamp));
        Self {
            id,
            status: TaskStatus::Submitted,
            message: Some(message),
            history,
            created_at: now,
            updated_at: now,
        }
    }

    /// Moves the task to a status at the time of the call.
    pub fn update_status(&mut self, status: TaskStatus, message: Option<AgentMessage>)
        ensures
            final(self).id == old(self).id,
            final(self).status == status,
            final(self).created_at == old(self).created_at,
            final(self).history@.len() == old(self).history@.len() + 1,
            final(self).history@.subrange(0, old(self).history@.len() as int)
                == old(self).history@,
            final(self).history@.last().from == old(self).status,
            final(self).history@.last().to == status,
            final(self).history@.last().message is Some <==> message is Some,
            match message {
                Some(m) => final(self).message == Some(m),
                None => final(self).message == old(self).message,
            },
    {
        let timestamp = timestamp_now();
        self.update_status_at(status, message, milliseconds_now(), timestamp.as_str())
    }

    /// Moves the task to a status at a time. The move is appended to the
    /// history; a message that comes with it is noted there and becomes the
    /// message of the task.
    pub fn update_status_at(
        &mut self,
        status: TaskStatus,
        message: Option<AgentMessage>,
        now: u64,
        timestamp: &str,
    )
        ensures
            final(self).id == old(self).id,
            final(self).status == status,
            final(self).created_at == old(self).created_at,
            final(self).updated_at == now,
            final(self).history@.len() == old(self).history@.len() + 1,
            final(self).history@.subrange(0, old(self).history@.len() as int)
                == old(self).history@,
            final(self).history@.last().from == old(self).status,
            final(self).history@.last().to == status,
            final(self).history@.last().timestamp@ == timestamp@,
            final(self).history@.last().message is Some <==> message is Some,
            match message {
                Some(m) => final(self).message == Some(m),
                None => final(self).message == old(self).message,
            },
    {
        let transition = StateTransition::new(self.status, status, timestamp);
        let transition = match &message {
            Some(m) => transition.with_message(m.clone()),
            None => transition,
        };
        let ghost before = self.history@;
        self.history.push(transition);
        assert(self.history@.subrange(0, before.len() as int) =~= before);
        self.status = status;
        self.updated_at = now;
        match message {
            Some(m) => {
                self.message = Some(m);
            },
            None => {},
        }
    }

    /// Cancels the task. A task that has come to its end cannot be
    /// canceled: it stays as it is, and the cancel-failed error says so.
    pub fn cancel(&mut self, now: u64, timestamp: &str) -> (r: Result<(), ErrorMessage>)
        ensures
            match r {
                Ok(_) => {
                    &&& !is_finished(old(self).status)
                    &&& final(self).status == TaskStatus::Canceled
                    &&& final(self).id == old(self).id
                    &&& final(self).message == old(self).message
                    &&& final(self).history@.len() == old(self).history@.len() + 1
                    &&& final(self).history@.last().from == old(self).status
                    &&& final(self).history@.last().to == TaskStatus::Canceled
                    &&& final(self).history@.last().timestamp@ == timestamp@
                },
                Err(e) => {
                    &&& is_finished(old(self).status)
                    &&& *final(self) == *old(self)
                    &&& e.code == TASK_CANCEL_FAILED
                    &&& e.message@ == "Task already finished"@
                    &&& e.data is None
                },
            },
    {
        if finished(self.status) {
            return Err(ErrorMessage::new(TASK_CANCEL_FAILED, "Task already finished"));
        }
        self.update_status_at(TaskStatus::Canceled, None, now, timestamp);
        Ok(())
    }
}

/// The error that answers a request about a task that the server does not
/// hold.
pub fn task_not_found() -> (r: ErrorMessage)
    ensures
        r.code == TASK_NOT_FOUND,
        r.message@ == "Task not found"@,
        r.data is None,
{
    ErrorMessage::new(TASK_NOT_FOUND, "Task not found")
}

/// Whether no two tasks share an identifier.
pub open spec fn distinct_tasks(tasks: Seq<TaskContext>) -> bool {
    forall|i: int, j: int|
        0 <= i < tasks.len() && 0 <= j < tasks.len() && i != j ==> (#[trigger] tasks[i]).id@
            != (#[trigger] tasks[j]).id@
}

/// Whether some task has an identifier.
pub open spec fn holds_task(tasks: Seq<TaskContext>, id: Seq<char>) -> bool {
    exists|k: int| 0 <= k < tasks.len() && (#[trigger] tasks[k]).id@ == id
}

/// The tasks that a server holds, in the order in which their identifiers
/// were first submitted.
pub struct TaskStore {
    tasks: Vec<TaskContext>,
}

/// What is reported of a task.
pub struct TaskReport<'a> {
    pub id: &'a str,
    pub status: TaskStatus,
    pub message: Option<&'a AgentMessage>,
    pub history: &'a Vec<StateTransition>,
}

impl TaskStore {
    /// The tasks.
    pub closed spec fn entries(&self) -> Seq<TaskContext> {
        self.tasks@
    }

    /// What holds of every store: no two tasks share an identifier.
    pub open spec fn wf(&self) -> bool {
        distinct_tasks(self.entries())
    }

    /// A store without tasks.
    pub fn new() -> (r: Self)
        ensures
            r.wf(),
            r.entries().len() == 0,
    {
        Self { tasks: Vec::new() }
    }

    pub fn len(&self) -> (r: usize)
        ensures
            r == self.entries().len(),
    {
        self.tasks.len()
    }

    fn position(&self, id: &str) -> (r: Option<usize>)
        ensures
            match r {
                Some(k) => k < self.entries().len() && self.entries()[k as int].id@ == id@,
                None => !holds_task(self.entries(), id@),
            },
    {
        let mut i: usize = 0;
        while i < self.tasks.len()
            invariant
                i <= self.tasks.len(),
                forall|j: int| 0 <= j < i ==> (#[trigger] self.tasks@[j]).id@ != id@,
            decreases self.tasks.len() - i,
        {
            if str_eq(self.tasks[i].id.as_str(), id) {
                return Some(i);
            }
            i += 1;
        }
        None
    }

    /// The task of an identifier, if the store holds one.
    pub fn get(&self, id: &str) -> (r: Option<&TaskContext>)
        ensures
            match r {
                Some(task) => task.id@ == id@ && exists|k: int|
                    0 <= k < self.entries().len() && #[trigger] self.entries()[k] == *task,
                None => !holds_task(self.entries(), id@),
            },
    {
        match self.position(id) {
            Some(k) => Some(&self.tasks[k]),
            None => None,
        }
    }

    /// Puts a task into the store. A task that the store held under the
    /// same identifier is replaced; every other task stays.
    pub fn insert(&mut self, task: TaskContext)
        requires
            old(self).wf(),
        ensures
            final(self).wf(),
            if holds_task(old(self).entries(), task.id@) {
                exists|k: int|
                    0 <= k < old(self).entries().len() && old(self).entries()[k].id@ == task.id@
                        && final(self).entries() == #[trigger] old(self).entries().update(k, task)
            } else {
                final(self).entries() == old(self).entries().push(task)
            },
    {
        match self.position(task.id.as_str()) {
            Some(k) => {
                let ghost before = self.tasks@;
                self.tasks.set(k, task);
                assert(self.tasks@ == before.update(k as int, task));
            },
            None => {
                self.tasks.push(task);
            },
        }
    }

    /// Files a task that was submitted under an identifier, and answers
    /// with the identifier and the status.
    pub fn submit_as(&mut self, id: String, message: AgentMessage, now: u64, timestamp: &str) -> (r:
        serde_json::Value)
        requires
            old(self).wf(),
        ensures
            final(self).wf(),
            json_model(r) == submitted_document(id@),
            holds_task(final(self).entries(), id@),
            forall|k: int|
                0 <= k < final(self).entries().len() && (#[trigger] final(self).entries()[k]).id@
                    == id@ ==> {
                    let task = final(self).entries()[k];
                    &&& task.status == TaskStatus::Submitted
                    &&& task.message == Some(message)
                    &&& task.history@.len() == 1
                    &&& task.created_at == now
                    &&& task.updated_at == now
                },
            final(self).entries().len() == if holds_task(old(self).entries(), id@) {
                old(self).entries().len()
            } else {
                old(self).entries().len() + 1
            },
            forall|k: int|
                0 <= k < old(self).entries().len() && (#[trigger] old(self).entries()[k]).id@ != id@
                    ==> final(self).entries()[k] == old(self).entries()[k],
    {
        let mut document = members_new();
        put_text(&mut document, "id", id.as_str());
        put_text(&mut document, "status", "submitted");
        let task = TaskContext::at(id, message, now, timestamp);
        let ghost before = self.tasks@;
        self.insert(task);
        proof {
            if holds_task(before, id@) {
                let k = choose|k: int|
                    0 <= k < before.len() && before[k].id@ == task.id@ && self.tasks@
                        == #[trigger] before.update(k, task);
                assert(self.tasks@[k].id@ == id@);
            } else {
                assert(self.tasks@[before.len() as int].id@ == id@);
            }
        }
        json_object(document)
    }

    /// Reports the task of an identifier. The message of the task is
    /// reported where `with_message` asks for it.
    pub fn report(&self, id: &str, with_message: bool) -> (r: Result<TaskReport<'_>, ErrorMessage>)
        ensures
            match r {
                Ok(report) => exists|k: int|
                    0 <= k < self.entries().len() && reports(
                        report,
                        #[trigger] self.entries()[k],
                        with_message,
                    ) && report.id@ == id@,
                Err(e) => !holds_task(self.entries(), id@) && e.code == TASK_NOT_FOUND && e.message@
                    == "Task not found"@ && e.data is None,
            },
    {
        match self.position(id) {
            Some(k) => {
                let task = &self.tasks[k];
                Ok(
                    TaskReport {
                        id: task.id.as_str(),
                        status: task.status,
                        message: if with_message {
                            task.message.as_ref()
                        } else {
                            None
                        },
                        history: &task.history,
                    },
                )
            },
            None => Err(task_not_found()),
        }
    }

    /// Cancels the task of an identifier. A task that has come to its end
    /// stays as it is, and so does every other task.
    pub fn cancel(&mut self, id: &str, now: u64, timestamp: &str) -> (r: Result<(), ErrorMessage>)
        requires
            old(self).wf(),
        ensures
            final(self).wf(),
            final(self).entries().len() == old(self).entries().len(),
            forall|k: int|
                0 <= k < old(self).entries().len() && (#[trigger] old(self).entries()[k]).id@ != id@
                    ==> final(self).entries()[k] == old(self).entries()[k],
            match r {
                Ok(_) => exists|k: int|
                    0 <= k < old(self).entries().len() && canceled_from(
                        final(self).entries()[k],
                        #[trigger] old(self).entries()[k],
                        now,
                        timestamp@,
                    ) && old(self).entries()[k].id@ == id@,
                Err(e) => final(self).entries() == old(self).entries() && e.data is None && (
                if holds_task(old(self).entries(), id@) {
                    e.code == TASK_CANCEL_FAILED && e.message@ == "Task already finished"@
                } else {
                    e.code == TASK_NOT_FOUND && e.message@ == "Task not found"@
                }),
            },
    {
        let k = match self.position(id) {
            Some(k) => k,
            None => {
                return Err(task_not_found());
            },
        };
        if finished(self.tasks[k].status) {
            return Err(ErrorMessage::new(TASK_CANCEL_FAILED, "Task already finished"));
        }
        let ghost before = self.tasks@;
        let mut task = self.tasks.remove(k);
        let canceled = task.cancel(now, timestamp);
        self.tasks.insert(k, task);
        assert(self.tasks@ =~= before.update(k as int, task));
        assert(canceled is Ok);
        assert(canceled_from(self.tasks@[k as int], before[k as int], now, timestamp@));
        Ok(())
    }
}

/// The document that answers a submission.
pub open spec fn submitted_document(id: Seq<char>) -> JsonModel {
    JsonModel::Object(
        no_members().insert("id"@, JsonModel::Text(id)).insert(
            "status"@,
            JsonModel::Text("submitted"@),
        ),
    )
}

/// Whether a report is that of a task.
pub open spec fn reports(report: TaskReport<'_>, task: TaskContext, with_message: bool) -> bool {
    &&& report.id@ == task.id@
    &&& report.status == task.status
    &&& *report.history == task.history
    &&& match report.message {
        Some(m) => with_message && task.message == Some(*m),
        None => !with_message || task.message is None,
    }
}

/// Whether a task is another one after it was canceled at a time.
pub open spec fn canceled_from(
    after: TaskContext,
    before: TaskContext,
    now: u64,
    timestamp: Seq<char>,
) -> bool {
    &&& !is_finished(before.status)
    &&& after.id == before.id
    &&& after.status == TaskStatus::Canceled
    &&& after.message == before.message
    &&& after.history@.len() == before.history@.len() + 1
    &&& after.history@.last().from == before.status
    &&& after.history@.last().to == TaskStatus::Canceled
    &&& after.history@.last().timestamp@ == timestamp
}

/// Answers `tasks/submit`. The task is filed under the `id` of the
/// parameters, or under a fresh random identifier where they name none.
/// `message` is the message that the parameters carry, if they carry one
/// that can be read.
pub fn handle_task_submit(
    store: &mut TaskStore,
    params: Option<&serde_json::Value>,
    message: Option<AgentMessage>,
    now: u64,
    timestamp: &str,
) -> (r: Result<serde_json::Value, ErrorMessage>)
    requires
        old(store).wf(),
    ensures
        final(store).wf(),
        match r {
            Ok(document) => params matches Some(p) && message is Some && exists|id: Seq<char>|
                json_model(document) == #[trigger] submitted_document(id) && holds_task(
                    final(store).entries(),
                    id,
                ) && (text_member(json_model(*p), "id"@) matches Some(given) ==> id == given),
            Err(e) => final(store).entries() == old(store).entries() && e.code == INVALID_PARAMS
                && e.data is None && e.message@ == if params is None {
                "Missing params"@
            } else {
                "Missing message"@
            } && (params is None || message is None),
        },
{
    let p = match params {
        Some(p) => p,
        None => {
            return Err(ErrorMessage::new(INVALID_PARAMS, "Missing params"));
        },
    };
    let id = match get_text(p, "id") {
        Some(id) => id,
        None => fresh_id(),
    };
    match message {
        Some(message) => Ok(store.submit_as(id, message, now, timestamp)),
        None => Err(ErrorMessage::new(INVALID_PARAMS, "Missing message")),
    }
}

/// Answers `tasks/get`: the report of the task that the parameters name,
/// with its message.
pub fn handle_task_get_rpc<'a>(store: &'a TaskStore, params: Option<&serde_json::Value>) -> (r:
    Result<TaskReport<'a>, ErrorMessage>)
    ensures
        match r {
            Ok(report) => params matches Some(p) && text_member(json_model(*p), "id"@) == Some(
                report.id@,
            ) && exists|k: int|
                0 <= k < store.entries().len() && reports(report, #[trigger] store.entries()[k], true),
            Err(e) => e.data is None && match params {
                None => e.code == INVALID_PARAMS && e.message@ == "Missing params"@,
                Some(p) => match text_member(json_model(*p), "id"@) {
                    None => e.code == INVALID_PARAMS && e.message@ == "Missing task id"@,
                    Some(id) => !holds_task(store.entries(), id) && e.code == TASK_NOT_FOUND
                        && e.message@ == "Task not found"@,
                },
            },
        },
{
    match task_id_param(params) {
        Ok(id) => store.report(id.as_str(), true),
        Err(e) => Err(e),
    }
}

/// Answers `tasks/cancel`: cancels the task that the parameters name and
/// tells its identifier, under which its report is had.
pub fn handle_task_cancel_rpc(
    store: &mut TaskStore,
    params: Option<&serde_json::Value>,
    now: u64,
    timestamp: &str,
) -> (r: Result<String, ErrorMessage>)
    requires
        old(store).wf(),
    ensures
        final(store).wf(),
        final(store).entries().len() == old(store).entries().len(),
        match r {
            Ok(id) => params matches Some(p) && text_member(json_model(*p), "id"@) == Some(id@)
                && exists|k: int|
                0 <= k < old(store).entries().len() && canceled_from(
                    final(store).entries()[k],
                    #[trigger] old(store).entries()[k],
                    now,
                    timestamp@,
                ) && old(store).entries()[k].id@ == id@,
            Err(e) => final(store).entries() == old(store).entries() && e.data is None
                && match params {
                None => e.code == INVALID_PARAMS && e.message@ == "Missing params"@,
                Some(p) => match text_member(json_model(*p), "id"@) {
                    None => e.code == INVALID_PARAMS && e.message@ == "Missing task id"@,
                    Some(id) => if holds_task(old(store).entries(), id) {
                        e.code == TASK_CANCEL_FAILED && e.message@ == "Task already finished"@
                    } else {
                        e.code == TASK_NOT_FOUND && e.message@ == "Task not found"@
                    },
                },
            },
        },
{
    match task_id_param(params) {
        Ok(id) => match store.cancel(id.as_str(), now, timestamp) {
            Ok(_) => Ok(id),
            Err(e) => Err(e),
        },
        Err(e) => Err(e),
    }
}

/// The status with which a request by path is answered: `200` for a
/// report, `404` for a task that is not held, `400` for any other error.
pub fn http_status(outcome: Result<(), i32>) -> (r: u16)
    ensures
        r == match outcome {
            Ok(_) => 200u16,
            Err(code) => if code == TASK_NOT_FOUND {
                404u16
            } else {
                400u16
            },
        },
{
    match outcome {
        Ok(_) => 200,
        Err(code) => if code == TASK_NOT_FOUND {
            404
        } else {
            400
        },
    }
}

/// The response that turns away a caller who may not call.
pub fn authentication_failed(failure: AuthFailure) -> (r: A2AResponse)
    ensures
        json_model(r.id) == JsonModel::Null,
        r.result is None,
        r.error matches Some(e) && e.code == AUTHENTICATION_FAILED && e.message@ == failure.text()
            && e.data is None,
{
    let message = failure.message();
    A2AResponse::error(json_null(), ErrorMessage::new(AUTHENTICATION_FAILED, message.as_str()))
}

/// The response to a body that cannot be read: one that is no UTF-8, or
/// no request.
pub fn unreadable_body(is_text: bool) -> (r: A2AResponse)
    ensures
        json_model(r.id) == JsonModel::Null,
        r.result is None,
        r.error matches Some(e) && e.code == PARSE_ERROR && e.data is None && e.message@ == if is_text {
            "Invalid JSON"@
        } else {
            "Invalid UTF-8"@
        },
{
    let message = if is_text {
        "Invalid JSON"
    } else {
        "Invalid UTF-8"
    };
    A2AResponse::error(json_null(), ErrorMessage::new(PARSE_ERROR, message))
}

/// The message that the parameters of a submission carry, if they carry
/// one that can be read.
pub open spec fn submitted_message(params: JsonModel) -> Option<JsonModel> {
    match member(params, "message"@) {
        Some(m) if AgentMessage::decodable(m) => Some(m),
        _ => None,
    }
}

fn read_message(params: Option<&serde_json::Value>) -> (r: Option<AgentMessage>)
    ensures
        match r {
            Some(message) => params matches Some(p) && submitted_message(json_model(*p)) matches Some(
                m,
            ) && message.decoded_from(m),
            None => match params {
                Some(p) => submitted_message(json_model(*p)) is None,
                None => true,
            },
        },
{
    match params {
        Some(p) => match json_get(p, "message") {
            Some(m) => AgentMessage::from_json(m),
            None => None,
        },
        None => None,
    }
}

/// The document that reports a task: its identifier and status, its
/// message where that is asked for, and its history.
pub open spec fn task_document(task: TaskContext, with_message: bool) -> JsonModel {
    JsonModel::Object(
        with_optional(
            no_members().insert("id"@, JsonModel::Text(task.id@)).insert(
                "status"@,
                JsonModel::Text(task.status.wire_name()),
            ),
            "message"@,
            if with_message {
                optional_message(task.message)
            } else {
                None
            },
        ).insert("history"@, JsonModel::Array(transition_encodings(task.history@))),
    )
}

/// Whether an error is the one with which a request about a task fails
/// before the task is looked at: the request has no parameters, they name
/// no task, or the task is not held.
pub open spec fn lookup_failure(
    e: ErrorMessage,
    entries: Seq<TaskContext>,
    params: Option<serde_json::Value>,
) -> bool {
    match params {
        None => e.code == INVALID_PARAMS && e.message@ == "Missing params"@,
        Some(p) => match text_member(json_model(p), "id"@) {
            None => e.code == INVALID_PARAMS && e.message@ == "Missing task id"@,
            Some(id) => !holds_task(entries, id) && e.code == TASK_NOT_FOUND && e.message@
                == "Task not found"@,
        },
    }
}

/// Whether an error is the one with which the canceling of a task fails:
/// as a lookup fails, or because the task has come to its end.
pub open spec fn cancel_failure(
    e: ErrorMessage,
    entries: Seq<TaskContext>,
    params: Option<serde_json::Value>,
) -> bool {
    match params {
        None => e.code == INVALID_PARAMS && e.message@ == "Missing params"@,
        Some(p) => match text_member(json_model(p), "id"@) {
            None => e.code == INVALID_PARAMS && e.message@ == "Missing task id"@,
            Some(id) => if holds_task(entries, id) {
                e.code == TASK_CANCEL_FAILED && e.message@ == "Task already finished"@
            } else {
                e.code == TASK_NOT_FOUND && e.message@ == "Task not found"@
            },
        },
    }
}

/// Whether a response answers `tasks/get` on some tasks.
pub open spec fn answers_get(
    r: A2AResponse,
    entries: Seq<TaskContext>,
    params: Option<serde_json::Value>,
) -> bool {
    match r.result {
        Some(document) => {
            &&& r.error is None
            &&& params matches Some(p) && text_member(json_model(p), "id"@) matches Some(id)
                && exists|k: int|
                0 <= k < entries.len() && (#[trigger] entries[k]).id@ == id && json_model(document)
                    == task_document(entries[k], true)
        },
        None => r.error matches Some(e) && e.data is None && lookup_failure(e, entries, params),
    }
}

/// Whether a response answers `tasks/cancel`, which led from some tasks to
/// others.
pub open spec fn answers_cancel(
    r: A2AResponse,
    before: Seq<TaskContext>,
    after: Seq<TaskContext>,
    params: Option<serde_json::Value>,
    now: u64,
    timestamp: Seq<char>,
) -> bool {
    match r.result {
        Some(document) => {
            &&& r.error is None
            &&& after.len() == before.len()
            &&& params matches Some(p) && text_member(json_model(p), "id"@) matches Some(id)
                && exists|k: int|
                0 <= k < before.len() && (#[trigger] before[k]).id@ == id && canceled_from(
                    after[k],
                    before[k],
                    now,
                    timestamp,
                ) && json_model(document) == task_document(after[k], false)
        },
        None => {
            &&& after == before
            &&& r.error matches Some(e) && e.data is None && cancel_failure(e, before, params)
        },
    }
}

/// Whether a response answers `tasks/submit`, which led from some tasks to
/// others.
pub open spec fn answers_submit(
    r: A2AResponse,
    before: Seq<TaskContext>,
    after: Seq<TaskContext>,
    params: Option<serde_json::Value>,
) -> bool {
    match r.result {
        Some(document) => {
            &&& r.error is None
            &&& params matches Some(p) && submitted_message(json_model(p)) is Some && exists|
                id: Seq<char>,
            |
                json_model(document) == #[trigger] submitted_document(id) && holds_task(after, id)
                    && (text_member(json_model(p), "id"@) matches Some(given) ==> id == given)
        },
        None => {
            &&& after == before
            &&& r.error matches Some(e) && e.data is None && e.code == INVALID_PARAMS
                && e.message@ == match params {
                None => "Missing params"@,
                Some(_) => "Missing message"@,
            }
            &&& params matches Some(p) ==> submitted_message(json_model(p)) is None
        },
    }
}

impl A2AServer {
    /// Answers a request: routes it by the name of its method, and wraps
    /// what the method yields, or the error with which it fails, under the
    /// `id` of the request.
    pub fn handle_request(
        &self,
        store: &mut TaskStore,
        request: &A2ARequest,
        now: u64,
        timestamp: &str,
    ) -> (r: A2AResponse)
        requires
            old(store).wf(),
        ensures
            final(store).wf(),
            r.jsonrpc@ == "2.0"@,
            json_model(r.id) == json_model(request.id),
            match method_named(request.method@) {
                Some(A2AMethod::TaskSubmit) => answers_submit(
                    r,
                    old(store).entries(),
                    final(store).entries(),
                    request.params,
                ),
                Some(A2AMethod::TaskGet) => final(store).entries() == old(store).entries()
                    && answers_get(r, old(store).entries(), request.params),
                Some(A2AMethod::TaskCancel) => answers_cancel(
                    r,
                    old(store).entries(),
                    final(store).entries(),
                    request.params,
                    now,
                    timestamp@,
                ),
                Some(A2AMethod::AgentCard) => {
                    &&& final(store).entries() == old(store).entries()
                    &&& r.error is None
                    &&& r.result matches Some(card) && json_model(card)
                        == self.card_of().encoding()
                },
                None => {
                    &&& final(store).entries() == old(store).entries()
                    &&& r.result is None
                    &&& r.error matches Some(e) && e.code == METHOD_NOT_FOUND && e.message@
                        == "Method not found"@ && e.data is None
                },
            },
    {
        let ghost before = store.entries();
        let outcome = match handle_method(request.method.as_str()) {
            Ok(A2AMethod::TaskSubmit) => {
                let message = read_message(request.params.as_ref());
                handle_task_submit(store, request.params.as_ref(), message, now, timestamp)
            },
            Ok(A2AMethod::TaskGet) => match handle_task_get_rpc(store, request.params.as_ref()) {
                Ok(report) => {
                    proof {
                        let k = choose|k: int|
                            0 <= k < store.entries().len() && reports(
                                report,
                                #[trigger] store.entries()[k],
                                true,
                            );
                        assert(report.encoding() == task_document(store.entries()[k], true));
                    }
                    Ok(report.to_json())
                },
                Err(e) => Err(e),
            },
            Ok(A2AMethod::TaskCancel) => match handle_task_cancel_rpc(
                store,
                request.params.as_ref(),
                now,
                timestamp,
            ) {
                Ok(id) => {
                    let ghost k0 = choose|k: int|
                        0 <= k < before.len() && canceled_from(
                            store.entries()[k],
                            #[trigger] before[k],
                            now,
                            timestamp@,
                        ) && before[k].id@ == id@;
                    match store.report(id.as_str(), false) {
                        Ok(report) => {
                            proof {
                                let k = choose|k: int|
                                    0 <= k < store.entries().len() && reports(
                                        report,
                                        #[trigger] store.entries()[k],
                                        false,
                                    ) && report.id@ == id@;
                                assert(store.entries()[k0].id@ == id@);
                                assert(k == k0);
                                assert(report.encoding() == task_document(
                                    store.entries()[k],
                                    false,
                                ));
                            }
                            Ok(report.to_json())
                        },
                        Err(e) => {
                            proof {
                                assert(store.entries()[k0].id@ == id@);
                                assert(holds_task(store.entries(), id@));
                            }
                            Err(e)
                        },
                    }
                },
                Err(e) => Err(e),
            },
            Ok(A2AMethod::AgentCard) => Ok(self.agent_card.to_json()),
            Err(e) => Err(e),
        };
        match outcome {
            Ok(result) => A2AResponse::success(request.id.clone(), result),
            Err(e) => A2AResponse::error(request.id.clone(), e),
        }
    }

    /// Answers the body of a request that came with an `Authorization`
    /// header: tells the status with which to answer, and the response. A
    /// caller who may not call is turned away; a body that is no text, or
    /// no request, is refused with status `400`.
    pub fn handle_body(
        &self,
        store: &mut TaskStore,
        authorization: &str,
        body: Option<&str>,
        now: u64,
        timestamp: &str,
    ) -> (r: (u16, A2AResponse))
        requires
            old(store).wf(),
        ensures
            final(store).wf(),
            match authentication_of(self.config_of(), authorization@) {
                Err(failure) => {
                    &&& r.0 == 200
                    &&& final(store).entries() == old(store).entries()
                    &&& r.1.error matches Some(e) && e.code == AUTHENTICATION_FAILED && e.message@
                        == failure.text()
                },
                Ok(_) => match body {
                    None => {
                        &&& r.0 == 400
                        &&& final(store).entries() == old(store).entries()
                        &&& r.1.error matches Some(e) && e.code == PARSE_ERROR && e.message@
                            == "Invalid UTF-8"@
                    },
                    Some(text) => if json_parsed(text@) matches Some(m) && A2ARequest::decodable(m) {
                        r.0 == 200
                    } else {
                        &&& r.0 == 400
                        &&& final(store).entries() == old(store).entries()
                        &&& r.1.error matches Some(e) && e.code == PARSE_ERROR && e.message@
                            == "Invalid JSON"@
                    },
                },
            },
    {
        match authenticate(&self.config, authorization) {
            Err(failure) => (200, authentication_failed(failure)),
            Ok(_) => match body {
                None => (400, unreadable_body(false)),
                Some(text) => match A2ARequest::parse(text) {
                    Some(request) => (200, self.handle_request(store, &request, now, timestamp)),
                    None => (400, unreadable_body(true)),
                },
            },
        }
    }
}

} // verus!
