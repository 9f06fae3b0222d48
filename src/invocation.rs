use vstd::prelude::*;
use crate::entry::EntryPoint;
use crate::environment::{resolve_context, resolved_pair, ContextParams, Environment, Options};

verus! {

/// One database operation to perform, with the context to perform it through.
#[derive(Debug, Clone)]
pub struct DatabaseCall {
    pub context: ContextParams,
    pub action: EntryPoint,
}

/// Decides what an invocation does once its entry point is known. The context
/// is resolved first: without a complete pair the invocation fails before any
/// handler runs. With one, every action but `Usage` becomes a database call;
/// `Usage` performs none.
pub fn plan_invocation(options: &Options, environ: &Environment, entry: EntryPoint) -> (r: Result<
    Option<DatabaseCall>,
    String,
>)
    ensures
        r is Err <==> resolved_pair(options.environment, *environ) is None,
        match r {
            Err(msg) => msg@.len() > 0,
            Ok(None) => entry is Usage,
            Ok(Some(call)) => !(entry is Usage) && call.action == entry && resolved_pair(
                options.environment,
                *environ,
            ) == Some((call.context.project_id@, call.context.service_account_path@)),
        },
{
    let context = match resolve_context(options, environ) {
        Ok(context) => context,
        Err(msg) => return Err(msg),
    };
    if entry.performs_database_call() {
        Ok(Some(DatabaseCall { context, action: entry }))
    } else {
        Ok(None)
    }
}

} // verus!
