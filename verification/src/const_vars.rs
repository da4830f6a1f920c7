use vstd::prelude::*;

verus! {

pub const WORK_GXL: &'static str = "work.gxl";

pub const MOD_LIST_YML: &'static str = "mod_list.yml";

pub const RESOURCE_YML: &'static str = "resource.yml";

pub const NET_RES_YML: &'static str = "net_res.yml";

pub const VARS_YML: &'static str = "vars.yml";

pub const WORKFLOWS_YML: &'static str = "workflows.yml";

pub const VALUE_JSON: &'static str = "value.json";

pub const VALUE_FILE: &'static str = "value.json";

pub const GLOBAL_JSON: &'static str = "value/value.json";

pub const ARTIFACT_TOML: &'static str = "artifact.toml";

pub const CONF_SPEC_TOML: &'static str = "conf_spec.toml";

pub const LOGS_SPEC_TOML: &'static str = "logs_spec.toml";

pub const RES_SPEC_TOML: &'static str = "res_spec.toml";

pub const VARS_TOML: &'static str = "vars.toml";

pub const SPEC_TOML: &'static str = "spec.toml";

pub const SPEC_DIR: &'static str = "spec";

pub const LOCAL_DIR: &'static str = "local";

} // verus!
