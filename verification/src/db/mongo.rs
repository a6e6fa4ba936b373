//! The lookup of the script of a task.

use vstd::prelude::*;

use crate::error::{AppError, AppErrorView};
use crate::model::script::{ScriptDocument, ScriptView};
use crate::text;

verus! {

/// What is said where no script is stored for a task.
pub open spec fn missing_script(task_id: i64) -> AppErrorView {
    AppErrorView::TaskFailed("Script not found for task_id="@ + text::signed_decimal(task_id as int))
}

/// The contents of what a query for a script returned.
pub open spec fn query_view(found: Result<Option<ScriptDocument>, AppError>) -> Result<
    Option<ScriptView>,
    AppErrorView,
> {
    match found {
        Ok(Some(script)) => Ok(Some(script@)),
        Ok(None) => Ok(None),
        Err(e) => Err(e@),
    }
}

/// The script of a task, by what the query for it returned.
pub open spec fn found_script(
    task_id: i64,
    found: Result<Option<ScriptView>, AppErrorView>,
) -> Result<ScriptView, AppErrorView> {
    match found {
        Ok(Some(script)) => Ok(script),
        Ok(None) => Err(missing_script(task_id)),
        Err(e) => Err(e),
    }
}

/// Takes what the query for a task's script returned. A task without a script has failed.
pub fn find_script_by_task_id(
    task_id: i64,
    found: Result<Option<ScriptDocument>, AppError>,
) -> (r: Result<ScriptDocument, AppError>)
    ensures
        match r {
            Ok(script) => found == Ok::<Option<ScriptDocument>, AppError>(Some(script)),
            Err(e) => found_script(task_id, query_view(found)) == Err::<ScriptView, AppErrorView>(
                e@,
            ),
        },
        r is Ok <==> found_script(task_id, query_view(found)) is Ok,
{
    match found {
        Ok(Some(script)) => Ok(script),
        Ok(None) => {
            let mut message: String = "Script not found for task_id=".to_owned();
            text::push_signed_decimal(&mut message, task_id);
            Err(AppError::TaskFailed(message))
        },
        Err(e) => Err(e),
    }
}

/// The script that was found is the script of the task; where none was found, or the query failed,
/// there is none.
pub proof fn found_scripts_are_kept(task_id: i64, script: ScriptView, e: AppErrorView)
    ensures
        found_script(task_id, Ok(Some(script))) == Ok::<ScriptView, AppErrorView>(script),
        found_script(task_id, Err(e)) == Err::<ScriptView, AppErrorView>(e),
        found_script(task_id, Ok(None)) == Err::<ScriptView, AppErrorView>(
            AppErrorView::TaskFailed(
                "Script not found for task_id="@ + text::signed_decimal(task_id as int),
            ),
        ),
{
}

/// The contents of what a query returned are those of the script, or of the error.
pub proof fn query_contents(found: Result<Option<ScriptDocument>, AppError>)
    ensures
        found matches Ok(Some(script)) ==> query_view(found) == Ok::<
            Option<ScriptView>,
            AppErrorView,
        >(Some(script@)),
        found matches Ok(None) ==> query_view(found) == Ok::<Option<ScriptView>, AppErrorView>(None),
        found matches Err(e) ==> query_view(found) == Err::<Option<ScriptView>, AppErrorView>(e@),
{
}

} // verus!
