use vstd::prelude::*;
use vstd::string::StringExecFns;

use crate::action::{GxlAction, GxlProject, Workflows};
use crate::error::SpecResult;
use crate::fsmodel::{FileBody, TextFs};
use crate::task::OperationType;
use crate::types::ValuePath;

verus! {

pub const SYS_SETUP_GXL: &'static str = "mod main { flow setup { gx.echo ( value : \"setup\" ); } }\n";

pub const SYS_UPDATE_GXL: &'static str = "mod main { flow update { gx.echo ( value : \"update\" ); } }\n";

pub const SYS_PRJ_WORK: &'static str = "mod main { flow conf { gx.echo ( value : \"conf\" ); } }\n";

pub const SYS_GITIGNORE: &'static str = "local/\nvalue/\n";

/// Builders for the workflow actions a fresh system model starts with.
pub trait SysActIniter: Sized {
    fn sys_setup_tpl() -> Self;
    fn sys_update_tpl() -> Self;
}

impl SysActIniter for GxlAction {
    /// The template setup action.
    fn sys_setup_tpl() -> Self {
        GxlAction::new(
            OperationType::Setup,
            String::from_str("setup.gxl"),
            String::from_str(SYS_SETUP_GXL),
        )
    }

    /// The template update action.
    fn sys_update_tpl() -> Self {
        GxlAction::new(
            OperationType::Update,
            String::from_str("update.gxl"),
            String::from_str(SYS_UPDATE_GXL),
        )
    }
}

/// Builder for the workflow project a fresh workspace starts with.
pub trait SysPrjIniter: Sized {
    fn spec_tpl() -> Self;
}

impl SysPrjIniter for GxlProject {
    fn spec_tpl() -> Self {
        GxlProject::from(SYS_PRJ_WORK)
    }
}

/// Builder for a fresh model's whole workflow set.
pub trait SysIniter: Sized {
    fn sys_tpl_init() -> Self;
}

impl SysIniter for Workflows {
    /// The template workflows: one setup action, one update action.
    fn sys_tpl_init() -> Self {
        let mut actions: Vec<GxlAction> = Vec::new();
        actions.push(GxlAction::sys_setup_tpl());
        actions.push(GxlAction::sys_update_tpl());
        Workflows::new(actions)
    }
}

/// Write the workspace's ignore file once; an existing one is left as the
/// operator edited it.
pub fn sys_init_gitignore(fs: &mut TextFs, path: &ValuePath) -> (r: SpecResult<()>)
    ensures
        r is Ok,
        ({
            let key = ValuePath::spec_join(path.spec_path(), ".gitignore"@);
            &&& final(fs).spec_has_file(key)
            &&& old(fs).spec_has_file(key) ==> final(fs).spec_files() == old(fs).spec_files()
            &&& !old(fs).spec_has_file(key) ==> {
                &&& final(fs).spec_file(key) matches FileBody::Text(t) && t@ == SYS_GITIGNORE@
                &&& forall|p2: Seq<char>|
                    p2 != key ==> final(fs).spec_has_file(p2) == old(fs).spec_has_file(p2)
            }
        }),
{
    let key = path.join(".gitignore");
    if !fs.file_exists(key.path()) {
        fs.write_file(key.path_string(), FileBody::Text(String::from_str(SYS_GITIGNORE)));
    }
    Ok(())
}

} // verus!
