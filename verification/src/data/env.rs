//! The container-level configuration that the Lambda service hands to a
//! runtime through environment variables, read once and cached.

use vstd::prelude::*;
use crate::text::{as_text, parse_usize, same_text, text, text_ref, to_owned_text, usize_from_text};

verus! {

/// The name of the variable through which the current trace id is shared
/// with whatever the handler calls.
pub const TRACE_ID_VAR: &'static str = "_X_AMZN_TRACE_ID";

/// How the execution environment was initialized.
#[derive(Clone, Copy, Debug, PartialEq, Eq, Structural)]
pub enum InitializationType {
    OnDemand,
    ProvisionedConcurrency,
    Unknown,
}

/// The initialization type that a text names. Any other text is unknown.
pub open spec fn init_type_of(itype: Seq<char>) -> InitializationType {
    if itype == "on-demand"@ {
        InitializationType::OnDemand
    } else if itype == "provisioned-concurrency"@ {
        InitializationType::ProvisionedConcurrency
    } else {
        InitializationType::Unknown
    }
}

impl InitializationType {
    /// Returns the initialization type that `itype`, in lower case, names.
    pub fn from_string(itype: &str) -> (r: InitializationType)
        ensures
            r == init_type_of(itype@),
    {
        if same_text(itype, "on-demand") {
            InitializationType::OnDemand
        } else if same_text(itype, "provisioned-concurrency") {
            InitializationType::ProvisionedConcurrency
        } else {
            InitializationType::Unknown
        }
    }
}

/// The mathematical content of an environment snapshot.
pub struct EnvSnapshot {
    pub handler: Option<Seq<char>>,
    pub region: Option<Seq<char>>,
    pub trace_id: Option<Seq<char>>,
    pub execution_env: Option<Seq<char>>,
    pub function_name: Option<Seq<char>>,
    pub function_memory_size: Option<usize>,
    pub function_version: Option<Seq<char>>,
    pub initialization_type: InitializationType,
    pub log_group_name: Option<Seq<char>>,
    pub log_stream_name: Option<Seq<char>>,
    pub access_key: Option<Seq<char>>,
    pub access_key_id: Option<Seq<char>>,
    pub secret_access_key: Option<Seq<char>>,
    pub session_token: Option<Seq<char>>,
    pub runtime_api: Option<Seq<char>>,
    pub task_root: Option<Seq<char>>,
    pub runtime_dir: Option<Seq<char>>,
    pub tz: Option<Seq<char>>,
}

/// The value of the first variable called `name` in a list of variables.
pub open spec fn lookup(vars: Seq<(String, String)>, name: Seq<char>) -> Option<Seq<char>>
    decreases vars.len(),
{
    if vars.len() == 0 {
        None
    } else if vars[0].0@ == name {
        Some(vars[0].1@)
    } else {
        lookup(vars.drop_first(), name)
    }
}

/// The memory size that a variable's text stands for.
pub open spec fn memory_size_of(value: Option<Seq<char>>) -> Option<usize> {
    match value {
        Some(t) => usize_from_text(t),
        None => None,
    }
}

/// The initialization type that a variable's text stands for.
pub open spec fn initialization_of(value: Option<Seq<char>>) -> InitializationType {
    match value {
        Some(t) => init_type_of(t),
        None => InitializationType::Unknown,
    }
}

/// The snapshot that a list of environment variables gives rise to: every
/// recognized variable that is absent leaves its field unset.
pub open spec fn env_of(vars: Seq<(String, String)>) -> EnvSnapshot {
    EnvSnapshot {
        handler: lookup(vars, "_HANDLER"@),
        region: lookup(vars, "AWS_REGION"@),
        trace_id: lookup(vars, "_X_AMZN_TRACE_ID"@),
        execution_env: lookup(vars, "AWS_EXECUTION_ENV"@),
        function_name: lookup(vars, "AWS_LAMBDA_FUNCTION_NAME"@),
        function_memory_size: memory_size_of(lookup(vars, "AWS_LAMBDA_FUNCTION_MEMORY_SIZE"@)),
        function_version: lookup(vars, "AWS_LAMBDA_FUNCTION_VERSION"@),
        initialization_type: initialization_of(lookup(vars, "AWS_LAMBDA_INITIALIZATION_TYPE"@)),
        log_group_name: lookup(vars, "AWS_LAMBDA_LOG_GROUP_NAME"@),
        log_stream_name: lookup(vars, "AWS_LAMBDA_LOG_STREAM_NAME"@),
        access_key: lookup(vars, "AWS_ACCESS_KEY"@),
        access_key_id: lookup(vars, "AWS_ACCESS_KEY_ID"@),
        secret_access_key: lookup(vars, "AWS_SECRET_ACCESS_KEY"@),
        session_token: lookup(vars, "AWS_SESSION_TOKEN"@),
        runtime_api: lookup(vars, "AWS_LAMBDA_RUNTIME_API"@),
        task_root: lookup(vars, "LAMBDA_TASK_ROOT"@),
        runtime_dir: lookup(vars, "LAMBDA_RUNTIME_DIR"@),
        tz: lookup(vars, "TZ"@),
    }
}

/// Read access to the variables that the Lambda service sets, and the one
/// entry point through which the cached trace id changes.
pub trait RuntimeEnvVars {
    /// What the snapshot holds.
    spec fn snapshot(&self) -> EnvSnapshot;

    fn get_handler(&self) -> (r: Option<&str>)
        ensures
            text_ref(r) == self.snapshot().handler,
    ;

    fn get_region(&self) -> (r: Option<&str>)
        ensures
            text_ref(r) == self.snapshot().region,
    ;

    fn get_trace_id(&self) -> (r: Option<&str>)
        ensures
            text_ref(r) == self.snapshot().trace_id,
    ;

    fn get_execution_env(&self) -> (r: Option<&str>)
        ensures
            text_ref(r) == self.snapshot().execution_env,
    ;

    fn get_function_name(&self) -> (r: Option<&str>)
        ensures
            text_ref(r) == self.snapshot().function_name,
    ;

    fn get_function_memory_size(&self) -> (r: Option<usize>)
        ensures
            r == self.snapshot().function_memory_size,
    ;

    fn get_function_version(&self) -> (r: Option<&str>)
        ensures
            text_ref(r) == self.snapshot().function_version,
    ;

    fn get_initialization_type(&self) -> (r: InitializationType)
        ensures
            r == self.snapshot().initialization_type,
    ;

    fn get_log_group_name(&self) -> (r: Option<&str>)
        ensures
            text_ref(r) == self.snapshot().log_group_name,
    ;

    fn get_log_stream_name(&self) -> (r: Option<&str>)
        ensures
            text_ref(r) == self.snapshot().log_stream_name,
    ;

    fn get_access_key(&self) -> (r: Option<&str>)
        ensures
            text_ref(r) == self.snapshot().access_key,
    ;

    fn get_access_key_id(&self) -> (r: Option<&str>)
        ensures
            text_ref(r) == self.snapshot().access_key_id,
    ;

    fn get_secret_access_key(&self) -> (r: Option<&str>)
        ensures
            text_ref(r) == self.snapshot().secret_access_key,
    ;

    fn get_session_token(&self) -> (r: Option<&str>)
        ensures
            text_ref(r) == self.snapshot().session_token,
    ;

    fn get_runtime_api(&self) -> (r: Option<&str>)
        ensures
            text_ref(r) == self.snapshot().runtime_api,
    ;

    fn get_task_root(&self) -> (r: Option<&str>)
        ensures
            text_ref(r) == self.snapshot().task_root,
    ;

    fn get_runtime_dir(&self) -> (r: Option<&str>)
        ensures
            text_ref(r) == self.snapshot().runtime_dir,
    ;

    fn get_tz(&self) -> (r: Option<&str>)
        ensures
            text_ref(r) == self.snapshot().tz,
    ;

    /// Records the trace id of a new event. Nothing else changes.
    fn set_trace_id(&mut self, new_id: Option<&str>)
        ensures
            final(self).snapshot() == (EnvSnapshot {
                trace_id: text_ref(new_id),
                ..old(self).snapshot()
            }),
    ;
}

/// The runtime's environment variables, cached.
#[derive(Debug, Clone, PartialEq, Eq)]
pub struct LambdaRuntimeEnv {
    pub handler: Option<String>,
    pub region: Option<String>,
    pub trace_id: Option<String>,
    pub execution_env: Option<String>,
    pub function_name: Option<String>,
    pub function_memory_size: Option<usize>,
    pub function_version: Option<String>,
    pub initialization_type: InitializationType,
    pub log_group_name: Option<String>,
    pub log_stream_name: Option<String>,
    pub access_key: Option<String>,
    pub access_key_id: Option<String>,
    pub secret_access_key: Option<String>,
    pub session_token: Option<String>,
    pub runtime_api: Option<String>,
    pub task_root: Option<String>,
    pub runtime_dir: Option<String>,
    pub tz: Option<String>,
}

/// Returns the value of the first variable called `var_name`, or `None`
/// where there is no such variable.
pub fn get_var(vars: &Vec<(String, String)>, var_name: &str) -> (r: Option<String>)
    ensures
        text(r) == lookup(vars@, var_name@),
{
    let mut i: usize = 0;
    proof {
        assert(vars@.subrange(0, vars.len() as int) =~= vars@);
    }
    while i < vars.len()
        invariant
            i <= vars.len(),
            lookup(vars@, var_name@) == lookup(
                vars@.subrange(i as int, vars.len() as int),
                var_name@,
            ),
        decreases vars.len() - i,
    {
        if same_text(vars[i].0.as_str(), var_name) {
            return Some(vars[i].1.clone());
        }
        proof {
            assert(vars@.subrange(i as int, vars.len() as int).drop_first() =~= vars@.subrange(
                i + 1,
                vars.len() as int,
            ));
        }
        i += 1;
    }
    None
}

impl LambdaRuntimeEnv {
    /// Builds the snapshot from the process' environment variables, given
    /// as pairs of name and value.
    pub fn from_env(vars: &Vec<(String, String)>) -> (r: LambdaRuntimeEnv)
        ensures
            r.snapshot() == env_of(vars@),
    {
        LambdaRuntimeEnv {
            handler: get_var(vars, "_HANDLER"),
            region: get_var(vars, "AWS_REGION"),
            trace_id: get_var(vars, TRACE_ID_VAR),
            execution_env: get_var(vars, "AWS_EXECUTION_ENV"),
            function_name: get_var(vars, "AWS_LAMBDA_FUNCTION_NAME"),
            function_memory_size: match get_var(vars, "AWS_LAMBDA_FUNCTION_MEMORY_SIZE") {
                Some(v) => parse_usize(v.as_str()),
                None => None,
            },
            function_version: get_var(vars, "AWS_LAMBDA_FUNCTION_VERSION"),
            initialization_type: match get_var(vars, "AWS_LAMBDA_INITIALIZATION_TYPE") {
                Some(v) => InitializationType::from_string(v.as_str()),
                None => InitializationType::Unknown,
            },
            log_group_name: get_var(vars, "AWS_LAMBDA_LOG_GROUP_NAME"),
            log_stream_name: get_var(vars, "AWS_LAMBDA_LOG_STREAM_NAME"),
            access_key: get_var(vars, "AWS_ACCESS_KEY"),
            access_key_id: get_var(vars, "AWS_ACCESS_KEY_ID"),
            secret_access_key: get_var(vars, "AWS_SECRET_ACCESS_KEY"),
            session_token: get_var(vars, "AWS_SESSION_TOKEN"),
            runtime_api: get_var(vars, "AWS_LAMBDA_RUNTIME_API"),
            task_root: get_var(vars, "LAMBDA_TASK_ROOT"),
            runtime_dir: get_var(vars, "LAMBDA_RUNTIME_DIR"),
            tz: get_var(vars, "TZ"),
        }
    }
}

impl RuntimeEnvVars for LambdaRuntimeEnv {
    open spec fn snapshot(&self) -> EnvSnapshot {
        EnvSnapshot {
            handler: text(self.handler),
            region: text(self.region),
            trace_id: text(self.trace_id),
            execution_env: text(self.execution_env),
            function_name: text(self.function_name),
            function_memory_size: self.function_memory_size,
            function_version: text(self.function_version),
            initialization_type: self.initialization_type,
            log_group_name: text(self.log_group_name),
            log_stream_name: text(self.log_stream_name),
            access_key: text(self.access_key),
            access_key_id: text(self.access_key_id),
            secret_access_key: text(self.secret_access_key),
            session_token: text(self.session_token),
            runtime_api: text(self.runtime_api),
            task_root: text(self.task_root),
            runtime_dir: text(self.runtime_dir),
            tz: text(self.tz),
        }
    }

    fn get_handler(&self) -> (r: Option<&str>) {
        as_text(&self.handler)
    }

    fn get_region(&self) -> (r: Option<&str>) {
        as_text(&self.region)
    }

    fn get_trace_id(&self) -> (r: Option<&str>) {
        as_text(&self.trace_id)
    }

    fn get_execution_env(&self) -> (r: Option<&str>) {
        as_text(&self.execution_env)
    }

    fn get_function_name(&self) -> (r: Option<&str>) {
        as_text(&self.function_name)
    }

    fn get_function_memory_size(&self) -> (r: Option<usize>) {
        self.function_memory_size
    }

    fn get_function_version(&self) -> (r: Option<&str>) {
        as_text(&self.function_version)
    }

    fn get_initialization_type(&self) -> (r: InitializationType) {
        self.initialization_type
    }

    fn get_log_group_name(&self) -> (r: Option<&str>) {
        as_text(&self.log_group_name)
    }

    fn get_log_stream_name(&self) -> (r: Option<&str>) {
        as_text(&self.log_stream_name)
    }

    fn get_access_key(&self) -> (r: Option<&str>) {
        as_text(&self.access_key)
    }

    fn get_access_key_id(&self) -> (r: Option<&str>) {
        as_text(&self.access_key_id)
    }

    fn get_secret_access_key(&self) -> (r: Option<&str>) {
        as_text(&self.secret_access_key)
    }

    fn get_session_token(&self) -> (r: Option<&str>) {
        as_text(&self.session_token)
    }

    fn get_runtime_api(&self) -> (r: Option<&str>) {
        as_text(&self.runtime_api)
    }

    fn get_task_root(&self) -> (r: Option<&str>) {
        as_text(&self.task_root)
    }

    fn get_runtime_dir(&self) -> (r: Option<&str>) {
        as_text(&self.runtime_dir)
    }

    fn get_tz(&self) -> (r: Option<&str>) {
        as_text(&self.tz)
    }

    fn set_trace_id(&mut self, new_id: Option<&str>)
        ensures
            *final(self) == (LambdaRuntimeEnv { trace_id: final(self).trace_id, ..*old(self) }),
    {
        self.trace_id = to_owned_text(new_id);
    }
}

} // verus!
