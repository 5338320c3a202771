//! Checks of the workflow index of a raw gateway configuration.
use vstd::prelude::*;

use crate::checks::{first_error, lemma_first_error_prefix, lemma_first_error_step, or_else};
use crate::config_acl::error::{acl_outcome, validation_error, InfrastructureAclError};
use crate::config_acl::raw_model::{RawGatewayConfig, RawWorkflowIndexEntry};
use crate::config_acl::util::{contains_str_before, opt_is, relative_path_error, validate_relative_path};
use crate::text::{cat3, is_blank, is_blank_str, str_eq};

verus! {

/// The error of the optional workflow directory.
pub open spec fn workflows_dir_error(raw: RawGatewayConfig) -> Option<Seq<char>> {
    match raw.workflows_dir {
        Some(d) => relative_path_error("workflows_dir"@, d@),
        None => None,
    }
}

/// The check of the `i`-th workflow entry's file: present, non-blank, not
/// already used by an earlier entry, and a usable relative path.
pub open spec fn workflow_file_check(ws: Seq<RawWorkflowIndexEntry>) -> spec_fn(int) -> Option<Seq<char>> {
    |i: int|
        match ws[i].file {
            None => Some("workflow '"@ + ws[i].id@ + "' file cannot be empty"@),
            Some(f) => if is_blank(f@) {
                Some("workflow '"@ + ws[i].id@ + "' file cannot be empty"@)
            } else if exists|j: int| 0 <= j < i && opt_is(#[trigger] ws[j].file, f@) {
                Some("duplicate workflow file '"@ + f@ + "'"@)
            } else {
                relative_path_error("workflow '"@ + ws[i].id@ + "' file"@, f@)
            },
        }
}

/// The error of the active workflow reference: when workflows are indexed, it
/// must be set and name one of them.
pub open spec fn active_workflow_error(raw: RawGatewayConfig) -> Option<Seq<char>> {
    if raw.workflows@.len() == 0 {
        None
    } else {
        match raw.active_workflow_id {
            None => Some("active_workflow_id must be set when workflows are present"@),
            Some(a) => if exists|i: int|
                0 <= i < raw.workflows@.len() && #[trigger] raw.workflows@[i].id@ == a@ {
                None
            } else {
                Some("active_workflow_id '"@ + a@ + "' does not reference an indexed workflow"@)
            },
        }
    }
}

/// The first error of the workflow index of `raw`, if any.
pub open spec fn workflow_index_error(raw: RawGatewayConfig) -> Option<Seq<char>> {
    or_else(
        workflows_dir_error(raw),
        or_else(
            first_error(raw.workflows@.len(), workflow_file_check(raw.workflows@)),
            active_workflow_error(raw),
        ),
    )
}

fn validate_workflows_dir(raw: &RawGatewayConfig) -> (r: Result<(), InfrastructureAclError>)
    ensures
        acl_outcome(r, workflows_dir_error(*raw)),
{
    match &raw.workflows_dir {
        Some(d) => validate_relative_path("workflows_dir", d.as_str()),
        None => Ok(()),
    }
}

fn validate_workflow_files(raw: &RawGatewayConfig) -> (r: Result<(), InfrastructureAclError>)
    ensures
        acl_outcome(r, first_error(raw.workflows@.len(), workflow_file_check(raw.workflows@))),
{
    let ghost ws = raw.workflows@;
    let ghost check = workflow_file_check(ws);
    let mut files: Vec<&str> = Vec::new();
    let mut i: usize = 0;
    while i < raw.workflows.len()
        invariant
            ws == raw.workflows@,
            check == workflow_file_check(ws),
            i <= ws.len(),
            first_error(i as nat, check) is None,
            files@.len() == i,
            forall|j: int| 0 <= j < i ==> opt_is(#[trigger] ws[j].file, files@[j]@),
        decreases ws.len() - i,
    {
        proof {
            lemma_first_error_step(i as nat, check);
        }
        let w = &raw.workflows[i];
        let file = match &w.file {
            Some(f) => f.as_str(),
            None => {
                proof {
                    lemma_first_error_prefix((i + 1) as nat, ws.len(), check);
                }
                return validation_error(cat3("workflow '", w.id.as_str(), "' file cannot be empty"));
            },
        };
        if is_blank_str(file) {
            proof {
                lemma_first_error_prefix((i + 1) as nat, ws.len(), check);
            }
            return validation_error(cat3("workflow '", w.id.as_str(), "' file cannot be empty"));
        }
        if contains_str_before(&files, i, file) {
            proof {
                let j = choose|j: int| 0 <= j < i && files@[j]@ == file@;
                assert(opt_is(ws[j].file, file@));
                lemma_first_error_prefix((i + 1) as nat, ws.len(), check);
            }
            return validation_error(cat3("duplicate workflow file '", file, "'"));
        }
        proof {
            assert forall|j: int| 0 <= j < i implies !opt_is(#[trigger] ws[j].file, file@) by {
                assert(files@[j]@ != file@);
            }
        }
        let field = cat3("workflow '", w.id.as_str(), "' file");
        let checked = validate_relative_path(field.as_str(), file);
        if checked.is_err() {
            proof {
                lemma_first_error_prefix((i + 1) as nat, ws.len(), check);
            }
            return checked;
        }
        files.push(file);
        i = i + 1;
    }
    Ok(())
}

fn validate_active_workflow(raw: &RawGatewayConfig) -> (r: Result<(), InfrastructureAclError>)
    ensures
        acl_outcome(r, active_workflow_error(*raw)),
{
    if raw.workflows.len() == 0 {
        return Ok(());
    }
    let active = match &raw.active_workflow_id {
        Some(a) => a.as_str(),
        None => {
            return validation_error(
                String::from_str("active_workflow_id must be set when workflows are present"),
            );
        },
    };
    let mut i: usize = 0;
    while i < raw.workflows.len()
        invariant
            i <= raw.workflows@.len(),
            raw.workflows@.len() > 0,
            opt_is(raw.active_workflow_id, active@),
            forall|j: int| 0 <= j < i ==> #[trigger] raw.workflows@[j].id@ != active@,
        decreases raw.workflows@.len() - i,
    {
        if str_eq(raw.workflows[i].id.as_str(), active) {
            assert(raw.workflows@[i as int].id@ == active@);
            return Ok(());
        }
        i = i + 1;
    }
    validation_error(cat3("active_workflow_id '", active, "' does not reference an indexed workflow"))
}

/// Checks the workflow index of `raw`: the workflow directory, each entry's
/// file, and the active workflow reference, in that order.
pub fn validate_workflow_index_subset(raw: &RawGatewayConfig) -> (r: Result<(), InfrastructureAclError>)
    ensures
        acl_outcome(r, workflow_index_error(*raw)),
{
    let d = validate_workflows_dir(raw);
    if d.is_err() {
        return d;
    }
    let f = validate_workflow_files(raw);
    if f.is_err() {
        return f;
    }
    validate_active_workflow(raw)
}

} // verus!
