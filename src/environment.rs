use vstd::prelude::*;

verus! {

/// Name of the variable that holds the path to the service-account credentials.
pub const GOOGLE_APPLICATION_CREDENTIALS_KEY: &'static str = "GOOGLE_APPLICATION_CREDENTIALS";

/// Name of the variable that holds the cloud project identifier.
pub const PROJECT_ID_KEY: &'static str = "PROJECT_ID";

/// A credential path and a project id, each of which may be missing.
/// Read once from the process environment, or from the command line.
#[derive(Debug, Clone)]
pub struct Environment {
    pub service_account_path: Option<String>,
    pub project_id: Option<String>,
}

/// The complete pair, as (project id, credential path), when both parts are present.
pub open spec fn complete_pair(e: Environment) -> Option<(Seq<char>, Seq<char>)> {
    match (e.project_id, e.service_account_path) {
        (Some(id), Some(path)) => Some((id@, path@)),
        _ => None,
    }
}

impl Environment {
    pub fn new(service_account_path: Option<String>, project_id: Option<String>) -> (r: Self)
        ensures
            r.service_account_path == service_account_path,
            r.project_id == project_id,
    {
        Environment { service_account_path, project_id }
    }

    /// The project id must be given on the command line when the environment lacks it.
    pub fn project_id_required(&self) -> (r: bool)
        ensures
            r == self.project_id.is_none(),
    {
        self.project_id.is_none()
    }

    /// The credential path must be given on the command line when the environment lacks it.
    pub fn credentials_required(&self) -> (r: bool)
        ensures
            r == self.service_account_path.is_none(),
    {
        self.service_account_path.is_none()
    }
}

/// Root-level options of one invocation: the pair given on the command line.
#[derive(Debug, Clone)]
pub struct Options {
    pub environment: Environment,
}

impl Options {
    pub fn new(environment: Environment) -> (r: Self)
        ensures
            r.environment == environment,
    {
        Options { environment }
    }
}

/// What the database context is built from.
#[derive(Debug, Clone)]
pub struct ContextParams {
    pub project_id: String,
    pub service_account_path: String,
}

/// The pair a context is built from: the command line's when it is complete,
/// else the environment's when that is complete, never one part from each.
pub open spec fn resolved_pair(cli: Environment, env: Environment) -> Option<(Seq<char>, Seq<char>)> {
    if complete_pair(cli) is Some {
        complete_pair(cli)
    } else {
        complete_pair(env)
    }
}

/// Message of the failure when neither source gives a complete pair.
pub const MISSING_CREDENTIALS: &'static str =
    "Failed to create database context, not provided in environment variables or cli args";

fn complete(e: &Environment) -> (r: Option<ContextParams>)
    ensures
        match r {
            Some(p) => complete_pair(*e) == Some((p.project_id@, p.service_account_path@)),
            None => complete_pair(*e) is None,
        },
{
    match (&e.project_id, &e.service_account_path) {
        (Some(id), Some(path)) => Some(ContextParams { project_id: id.clone(), service_account_path: path.clone() }),
        _ => None,
    }
}

/// Chooses the (project id, credential path) pair for the database context:
/// the command line's pair when both parts were given there, else the
/// environment's pair, else an error with a non-empty message.
pub fn resolve_context(options: &Options, environ: &Environment) -> (r: Result<ContextParams, String>)
    ensures
        r is Ok <==> resolved_pair(options.environment, *environ) is Some,
        match r {
            Ok(p) => resolved_pair(options.environment, *environ) == Some((p.project_id@, p.service_account_path@)),
            Err(msg) => msg@.len() > 0,
        },
{
    match complete(&options.environment) {
        Some(p) => Ok(p),
        None => match complete(environ) {
            Some(p) => Ok(p),
            None => {
                proof {
                    reveal_strlit("Failed to create database context, not provided in environment variables or cli args");
                }
                Err(MISSING_CREDENTIALS.to_string())
            },
        },
    }
}

/// With both variables set in the environment and no complete pair on the
/// command line, the context is built from the environment's pair.
pub proof fn lemma_environment_pair_used(cli: Environment, env: Environment)
    requires
        env.project_id is Some,
        env.service_account_path is Some,
        complete_pair(cli) is None,
    ensures
        resolved_pair(cli, env) == Some((env.project_id->0@, env.service_account_path->0@)),
{
}

/// A project id and a credential path both given on the command line take
/// precedence over whatever the environment holds.
pub proof fn lemma_command_line_pair_wins(cli: Environment, env: Environment)
    requires
        cli.project_id is Some,
        cli.service_account_path is Some,
    ensures
        resolved_pair(cli, env) == Some((cli.project_id->0@, cli.service_account_path->0@)),
{
}

/// When neither source holds a complete pair there is no pair to build a
/// context from, even where each source holds one half of one.
pub proof fn lemma_no_complete_pair_fails(cli: Environment, env: Environment)
    requires
        cli.project_id is None || cli.service_account_path is None,
        env.project_id is None || env.service_account_path is None,
    ensures
        resolved_pair(cli, env) is None,
{
}

} // verus!
