//! Server state as reported to the front end, and the checks made before
//! a launch.
use vstd::prelude::*;
use crate::error::AppError;

verus! {

/// Where the managed server is in its life.
#[derive(PartialEq, Eq, Structural, Clone, Copy)]
pub enum ServerState {
    Stopped,
    Starting,
    Running,
    Stopping,
    Crashed,
}

/// A running server instance (the process handle itself stays with the caller).
pub struct ServerRuntime {
    pub pid: u32,
    pub port: u16,
    pub host: String,
    pub model: String,
    pub started_at: i64,
}

/// The server status the front end can query.
pub struct ServerStatus {
    pub state: ServerState,
    pub pid: Option<u32>,
    pub port: Option<u16>,
    pub host: Option<String>,
    pub model: Option<String>,
    pub started_at: Option<i64>,
    pub message: Option<String>,
}

impl ServerStatus {
    /// A state-change notice: only the state and an optional message.
    pub fn notice(state: ServerState, message: Option<String>) -> (s: ServerStatus)
        ensures
            s.state == state,
            s.message == message,
            s.pid is None && s.port is None && s.host is None && s.model is None && s.started_at is None,
    {
        ServerStatus { state, pid: None, port: None, host: None, model: None, started_at: None, message }
    }
}

/// The status of the managed server: running with its details while an
/// instance exists, stopped otherwise.
pub fn server_status_of(runtime: &Option<ServerRuntime>) -> (s: ServerStatus)
    ensures
        s.message is None,
        match runtime {
            Some(rt) => s.state == ServerState::Running && s.pid == Some(rt.pid) && s.port == Some(rt.port)
                && s.host == Some(rt.host) && s.model == Some(rt.model) && s.started_at == Some(rt.started_at),
            None => s.state == ServerState::Stopped && s.pid is None && s.port is None && s.host is None
                && s.model is None && s.started_at is None,
        },
{
    match runtime {
        Some(rt) => ServerStatus {
            state: ServerState::Running,
            pid: Some(rt.pid),
            port: Some(rt.port),
            host: Some(rt.host.clone()),
            model: Some(rt.model.clone()),
            started_at: Some(rt.started_at),
            message: None,
        },
        None => ServerStatus::notice(ServerState::Stopped, None),
    }
}

/// The status sent once the server answers its health check.
pub fn ready_status(pid: u32, port: u16, host: String, model: String, now: i64) -> (s: ServerStatus)
    ensures
        s.state == ServerState::Running,
        s.pid == Some(pid),
        s.port == Some(port),
        s.host == Some(host),
        s.model == Some(model),
        s.started_at == Some(now),
        s.message matches Some(m) && m@ == "服务已就绪"@,
{
    ServerStatus {
        state: ServerState::Running,
        pid: Some(pid),
        port: Some(port),
        host: Some(host),
        model: Some(model),
        started_at: Some(now),
        message: Some(String::from_str("服务已就绪")),
    }
}

/// The name a launched model is shown under: the preset's alias when set,
/// else the model file's stem, else `model`.
pub fn model_display_name(alias: Option<String>, file_stem: Option<String>) -> (name: String)
    ensures
        name@ == match alias {
            Some(a) => a@,
            None => match file_stem {
                Some(f) => f@,
                None => "model"@,
            },
        },
{
    match alias {
        Some(a) => a,
        None => match file_stem {
            Some(f) => f,
            None => String::from_str("model"),
        },
    }
}

/// The checks made before launching a server, in order.
#[derive(PartialEq, Eq, Structural, Clone, Copy)]
pub enum StartCheck {
    /// The server executable exists.
    ServerPath,
    /// The model file exists.
    ModelPath,
    /// No server instance is running.
    NotRunning,
    /// The port is free.
    PortFree,
    /// All checks passed: launch.
    Launch,
}

/// The check after `c`.
pub open spec fn next_check(c: StartCheck) -> StartCheck {
    match c {
        StartCheck::ServerPath => StartCheck::ModelPath,
        StartCheck::ModelPath => StartCheck::NotRunning,
        StartCheck::NotRunning => StartCheck::PortFree,
        _ => StartCheck::Launch,
    }
}

/// Decides on the outcome of check `check`: the next check when it passed,
/// else the error the launch fails with.
pub fn after_check(check: StartCheck, passed: bool, server_path: &str, model_path: &str, port: u16) -> (r: Result<StartCheck, AppError>)
    ensures
        passed ==> r == Ok::<StartCheck, AppError>(next_check(check)),
        !passed ==> match check {
            StartCheck::ServerPath => r matches Err(AppError::Config(m)) && m@ == "llama-server 路径不存在: "@ + server_path@,
            StartCheck::ModelPath => r matches Err(AppError::Config(m)) && m@ == "模型文件不存在: "@ + model_path@,
            StartCheck::NotRunning => r matches Err(AppError::AlreadyRunning),
            StartCheck::PortFree => r matches Err(AppError::PortInUse { port: p }) && p == port,
            StartCheck::Launch => r == Ok::<StartCheck, AppError>(StartCheck::Launch),
        },
{
    if passed {
        return Ok(match check {
            StartCheck::ServerPath => StartCheck::ModelPath,
            StartCheck::ModelPath => StartCheck::NotRunning,
            StartCheck::NotRunning => StartCheck::PortFree,
            _ => StartCheck::Launch,
        });
    }
    match check {
        StartCheck::ServerPath => {
            let mut m = String::from_str("llama-server 路径不存在: ");
            m.append(server_path);
            Err(AppError::Config(m))
        },
        StartCheck::ModelPath => {
            let mut m = String::from_str("模型文件不存在: ");
            m.append(model_path);
            Err(AppError::Config(m))
        },
        StartCheck::NotRunning => Err(AppError::AlreadyRunning),
        StartCheck::PortFree => Err(AppError::PortInUse { port }),
        StartCheck::Launch => Ok(StartCheck::Launch),
    }
}

/// Texts joined with `sep` between them.
pub open spec fn joined(parts: Seq<Seq<char>>, sep: Seq<char>) -> Seq<char>
    decreases parts.len(),
{
    if parts.len() == 0 {
        Seq::empty()
    } else if parts.len() == 1 {
        parts[0]
    } else {
        joined(parts.drop_last(), sep) + sep + parts.last()
    }
}

/// The label of a file dialog's extension filter: the extensions joined by
/// `, `; no filter when the list is empty.
pub fn filter_label(exts: &Vec<String>) -> (label: Option<String>)
    ensures
        exts@.len() == 0 ==> label is None,
        exts@.len() > 0 ==> (label matches Some(l) && l@ == joined(exts@.map_values(|e: String| e@), ", "@)),
{
    let n = exts.len();
    if n == 0 {
        return None;
    }
    let ghost parts = exts@.map_values(|e: String| e@);
    let mut label = exts[0].clone();
    let mut i: usize = 1;
    assert(parts.take(1) =~= seq![parts[0]]);
    while i < n
        invariant
            n == exts@.len(),
            parts == exts@.map_values(|e: String| e@),
            1 <= i <= n,
            label@ == joined(parts.take(i as int), ", "@),
        decreases n - i,
    {
        label.append(", ");
        label.append(exts[i].as_str());
        assert(parts.take(i + 1).drop_last() =~= parts.take(i as int));
        i = i + 1;
    }
    assert(parts.take(n as int) =~= parts);
    Some(label)
}

} // verus!
