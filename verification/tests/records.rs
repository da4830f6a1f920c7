use syspec::action::{GxlProject, GxlAction, Workflows};
use syspec::addr::{AddrType, GitAddr};
use syspec::comment::remove_comment;
use syspec::error::ErrorKind;
use syspec::fsmodel::{FileBody, TextFs};
use syspec::module::{
    Artifact, CaculateResSpec, ConfSpec, CpuArch, ModTargetSpec, ModuleSpecRef, OsCPE,
    RunSPC, RunningModule, TargetNode,
};
use syspec::system::{Ipv4Addr, ModelResource, NetResSpace, SysModelSpec, Vps};
use syspec::task::OperationType;
use syspec::types::{LocalizeOptions, ValuePath};
use syspec::update::{CacheState, ForcePolicy, ResolveAction, UpdateLevel, UpdateOptions};
use syspec::task::{CombinedTask, EchoTask, Task};
use syspec::vars::{ValueDict, ValueType, VarCollection, VarType};

fn sample_ref(name: &str) -> ModuleSpecRef {
    ModuleSpecRef::from(
        name,
        AddrType::Git(GitAddr::from("https://host.example/group/repo.git").path(name)),
        TargetNode::new(CpuArch::X86, OsCPE::UBT22, RunSPC::Host),
    )
}

fn sample_module(name: &str) -> RunningModule {
    let mut dict = ValueDict::new();
    dict.insert("KEY".to_string(), ValueType::of_str(name.to_string()));
    dict.insert("CACHE_SIZE".to_string(), ValueType::of_int(4));
    RunningModule::new(sample_ref(name), dict)
}

#[test]
fn running_module_round_trip() {
    let m = sample_module("postgresql");
    let mut fs = TextFs::new();
    let root = ValuePath::new("work/mods");
    m.save_to(&mut fs, &root).unwrap();
    let loaded = RunningModule::load_from(&fs, &root.join("postgresql")).unwrap();
    assert_eq!(loaded.name(), "postgresql");
    assert_eq!(loaded.module_ref().name(), "postgresql");
    assert!(loaded.module_ref().effective());
    assert_eq!(loaded.value().get("KEY").unwrap().to_text(), "postgresql");
    assert_eq!(loaded.value().get("CACHE_SIZE").unwrap().to_text(), "4");
    assert_eq!(loaded.local().as_deref(), Some("work/mods/postgresql"));
    assert!(m.local().is_none());
}

#[test]
fn gxl_project_round_trip() {
    let p = GxlProject::from("mod main { flow x { } }\n");
    let mut fs = TextFs::new();
    let root = ValuePath::new("prj");
    p.save_to(&mut fs, &root).unwrap();
    let loaded = GxlProject::load_from(&fs, &root).unwrap();
    assert_eq!(loaded.main(), "mod main { flow x { } }\n");
}

#[test]
fn mod_target_round_trip() {
    let t = ModTargetSpec::init(
        "x86-host",
        Artifact::new("svc", "1.2.3", "https://host.example/svc.tar.gz"),
        Workflows::new(vec![GxlAction::new(
            OperationType::Setup,
            "setup.gxl".to_string(),
            "run setup\n".to_string(),
        )]),
        ConfSpec::new(vec!["conf/app.yml".to_string()]),
        CaculateResSpec::new(4, 8),
        VarCollection::define(vec![VarType::of_int("PORT".to_string(), 5432)]),
    );
    let mut fs = TextFs::new();
    let root = ValuePath::new("mods/svc");
    t.save_to(&mut fs, &root).unwrap();
    let loaded = ModTargetSpec::load_from(&fs, &root.join("x86-host")).unwrap();
    assert_eq!(loaded.target(), "x86-host");
    assert_eq!(loaded.vars().len(), 1);
    assert_eq!(loaded.vars().var_at(0).name(), "PORT");
}

fn sample_sys() -> SysModelSpec {
    let net = NetResSpace::new(
        Ipv4Addr::new(10, 0, 0, 1),
        (Ipv4Addr::new(10, 0, 0, 1), Ipv4Addr::new(10, 0, 0, 10)),
    );
    let res = ModelResource::from(vec![Vps::new(
        CaculateResSpec::new(4, 8),
        vec![Ipv4Addr::new(10, 0, 0, 1)],
    )]);
    let vars = VarCollection::define(vec![
        VarType::of_str("IP".to_string(), "10.0.0.1".to_string()),
        VarType::of_bool("pass".to_string(), false),
    ]);
    let actions = Workflows::new(vec![GxlAction::new(
        OperationType::Setup,
        "setup.gxl".to_string(),
        "setup code\n".to_string(),
    )]);
    let mut model = SysModelSpec::new("example-sys", actions, net, res, vars);
    model.add_mod_ref(sample_ref("on-mod"));
    model.add_mod_ref(sample_ref("off-mod").with_effective(false));
    model
}

#[test]
fn sys_model_round_trip() {
    let model = sample_sys();
    let mut fs = TextFs::new();
    let root = ValuePath::new("work/sys");
    model.save_to(&mut fs, &root).unwrap();
    let loaded = SysModelSpec::load_from(&fs, &root.join("example-sys")).unwrap();
    assert_eq!(loaded.name(), "example-sys");
    assert_eq!(loaded.mod_list().ref_count(), 2);
    assert_eq!(loaded.mod_list().ref_at(0).name(), "on-mod");
    assert!(loaded.mod_list().ref_at(0).effective());
    assert_eq!(loaded.mod_list().ref_at(1).name(), "off-mod");
    assert!(!loaded.mod_list().ref_at(1).effective());
    assert_eq!(loaded.vars().len(), 2);
    assert_eq!(loaded.local().as_deref(), Some("work/sys/example-sys"));
    assert!(model.local().is_none());
}

#[test]
fn load_from_missing_files_is_serialization_failure() {
    let fs = TextFs::new();
    let err = SysModelSpec::load_from(&fs, &ValuePath::new("nowhere/model")).unwrap_err();
    assert!(matches!(err.kind(), ErrorKind::SerializationFailure));
    let err = RunningModule::load_from(&fs, &ValuePath::new("nowhere/mod")).unwrap_err();
    assert!(matches!(err.kind(), ErrorKind::SerializationFailure));
}

#[test]
fn update_requires_local_path() {
    let model = sample_sys();
    let options = UpdateOptions::new(
        UpdateLevel::All,
        ForcePolicy::UseCacheIfPresent,
        ValueDict::new(),
    );
    let err = model.update_local(&options).unwrap_err();
    assert!(matches!(err.kind(), ErrorKind::MissingLocalPath));
}

#[test]
fn update_plan_skips_ineffective_refs_but_save_keeps_them() {
    let model = sample_sys();
    let mut fs = TextFs::new();
    let root = ValuePath::new("ws");
    model.save_to(&mut fs, &root).unwrap();
    let loaded = SysModelSpec::load_from(&fs, &root.join("example-sys")).unwrap();

    let options = UpdateOptions::from_force(0, ValueDict::new());
    let plan = loaded.update_local(&options).unwrap();
    assert_eq!(plan.len(), 1);
    assert_eq!(plan[0].name, "on-mod");
    assert_eq!(plan[0].dest.path(), "ws/example-sys/on-mod");
    assert!(matches!(plan[0].policy, ForcePolicy::UseCacheIfPresent));

    // The ineffective reference still reaches the persisted dump.
    let body = fs
        .read_file("ws/example-sys/spec/mod_list.yml")
        .expect("module list persisted");
    match body {
        FileBody::ModList(ml) => {
            assert_eq!(ml.ref_count(), 2);
            assert_eq!(ml.ref_at(1).name(), "off-mod");
            assert!(!ml.ref_at(1).effective());
        }
        _ => panic!("module list body expected"),
    }
}

#[test]
fn localize_skips_ineffective_refs_and_writes_snapshot_once() {
    let model = sample_sys();
    let mut fs = TextFs::new();
    let root = ValuePath::new("ws");
    model.save_to(&mut fs, &root).unwrap();
    let loaded = SysModelSpec::load_from(&fs, &root.join("example-sys")).unwrap();

    let options = LocalizeOptions::new(ValueDict::new(), true);
    let targets = loaded.localize(&mut fs, &options).unwrap();
    assert_eq!(targets.len(), 1);
    assert_eq!(targets[0].name, "on-mod");
    assert_eq!(targets[0].dst.path(), "ws/example-sys/on-mod");

    let snap = fs
        .read_file("ws/example-sys/value/value.json")
        .expect("snapshot written");
    match snap {
        FileBody::Dict(d) => {
            assert_eq!(d.len(), 2);
            assert_eq!(d.get("IP").unwrap().to_text(), "10.0.0.1");
            assert_eq!(d.get("pass").unwrap().to_text(), "false");
        }
        _ => panic!("snapshot dict expected"),
    }

    // A manually edited snapshot survives another run untouched.
    let mut edited = ValueDict::new();
    edited.insert("IP".to_string(), ValueType::of_str("10.9.9.9".to_string()));
    fs.write_file(
        "ws/example-sys/value/value.json".to_string(),
        FileBody::Dict(edited),
    );
    let count_before = fs.file_count();
    let targets2 = loaded.localize(&mut fs, &options).unwrap();
    assert_eq!(targets2.len(), 1);
    assert_eq!(fs.file_count(), count_before);
    match fs.read_file("ws/example-sys/value/value.json").unwrap() {
        FileBody::Dict(d) => assert_eq!(d.get("IP").unwrap().to_text(), "10.9.9.9"),
        _ => panic!("snapshot dict expected"),
    }
}

#[test]
fn strict_localize_fails_on_missing_variable() {
    let model = sample_sys();
    let mut fs = TextFs::new();
    let root = ValuePath::new("ws");
    model.save_to(&mut fs, &root).unwrap();
    let loaded = SysModelSpec::load_from(&fs, &root.join("example-sys")).unwrap();
    let options = LocalizeOptions::for_test();
    let err = loaded.localize(&mut fs, &options).unwrap_err();
    assert!(matches!(err.kind(), ErrorKind::MissingVariable));
}

#[test]
fn module_localize_is_idempotent_and_lexes_templates() {
    let m = sample_module("svc");
    let mut saved_fs = TextFs::new();
    let root = ValuePath::new("ins");
    m.save_to(&mut saved_fs, &root).unwrap();
    let loaded = RunningModule::load_from(&saved_fs, &root.join("svc")).unwrap();

    // A fresh workspace holding only the fetched templates: the snapshot
    // does not exist yet and is written by the first localize.
    let mut fs = TextFs::new();
    fs.write_file(
        "ins/svc/spec/app.yml".to_string(),
        FileBody::Text("port: 5432 # tuned later\n".to_string()),
    );
    fs.write_file(
        "ins/svc/spec/notes.yml".to_string(),
        FileBody::Text("motto: ' keep # it '\n".to_string()),
    );

    let mut global = ValueDict::new();
    global.insert("KEY".to_string(), ValueType::of_str("override".to_string()));
    let options = LocalizeOptions::new(global, true);

    let jobs = loaded.localize(&mut fs, &options).unwrap();
    assert_eq!(jobs.len(), 2);
    assert_eq!(jobs[0].src, "ins/svc/spec/app.yml");
    assert_eq!(jobs[0].dst, "ins/svc/local/app.yml");
    assert_eq!(jobs[0].content, "port: 5432 \n");
    assert_eq!(jobs[1].dst, "ins/svc/local/notes.yml");
    assert_eq!(jobs[1].content, "motto: ' keep # it '\n");

    // The snapshot holds the instance values with the global override.
    match fs.read_file("ins/svc/value.json").unwrap() {
        FileBody::Dict(d) => {
            assert_eq!(d.get("KEY").unwrap().to_text(), "override");
            assert_eq!(d.get("CACHE_SIZE").unwrap().to_text(), "4");
        }
        _ => panic!("snapshot dict expected"),
    }

    // The second run changes nothing and renders the same jobs.
    let count_before = fs.file_count();
    let jobs2 = loaded.localize(&mut fs, &options).unwrap();
    assert_eq!(fs.file_count(), count_before);
    assert_eq!(jobs2.len(), jobs.len());
    for (a, b) in jobs.iter().zip(jobs2.iter()) {
        assert_eq!(a.dst, b.dst);
        assert_eq!(a.content, b.content);
    }

    // Where the snapshot was already persisted by saving, localize leaves
    // it exactly as it is: the global override does not reach it.
    let saved_count = saved_fs.file_count();
    loaded.localize(&mut saved_fs, &options).unwrap();
    assert_eq!(saved_fs.file_count(), saved_count);
    match saved_fs.read_file("ins/svc/value.json").unwrap() {
        FileBody::Dict(d) => assert_eq!(d.get("KEY").unwrap().to_text(), "svc"),
        _ => panic!("snapshot dict expected"),
    }
}

#[test]
fn module_localize_reports_malformed_template() {
    let m = sample_module("svc");
    let mut fs = TextFs::new();
    let root = ValuePath::new("ins");
    m.save_to(&mut fs, &root).unwrap();
    let loaded = RunningModule::load_from(&fs, &root.join("svc")).unwrap();
    fs.write_file(
        "ins/svc/spec/broken.yml".to_string(),
        FileBody::Text("bad: 'unterminated".to_string()),
    );
    let err = loaded
        .localize(&mut fs, &LocalizeOptions::new(ValueDict::new(), true))
        .unwrap_err();
    assert!(matches!(err.kind(), ErrorKind::MalformedInput));
}

#[test]
fn module_localize_requires_local_path() {
    let m = sample_module("svc");
    let mut fs = TextFs::new();
    let err = m
        .localize(&mut fs, &LocalizeOptions::new(ValueDict::new(), true))
        .unwrap_err();
    assert!(matches!(err.kind(), ErrorKind::MissingLocalPath));
    let options = UpdateOptions::from_force(2, ValueDict::new());
    let err = m.update(&options, &CacheState::Absent).unwrap_err();
    assert!(matches!(err.kind(), ErrorKind::MissingLocalPath));
}

#[test]
fn resolve_honors_force_policy() {
    let addr = AddrType::Git(GitAddr::from("https://host.example/group/repo.git"));
    let target = ValuePath::new("cache");

    // The mildest policy reuses a valid cache: zero network activity.
    let step = addr
        .resolve(&target, &ForcePolicy::UseCacheIfPresent, &CacheState::Valid)
        .unwrap();
    assert!(matches!(step.action, ResolveAction::UseCache));
    assert_eq!(step.local.path(), "cache/repo.git");

    // A full reclone never reuses prior contents, valid or not.
    let step = addr
        .resolve(&target, &ForcePolicy::FullReclone, &CacheState::Valid)
        .unwrap();
    assert!(matches!(step.action, ResolveAction::Fetch { clean_first: true }));
    let step = addr
        .resolve(&target, &ForcePolicy::FullReclone, &CacheState::Incompatible)
        .unwrap();
    assert!(matches!(step.action, ResolveAction::Fetch { clean_first: true }));

    // A refresh re-fetches without deleting.
    let step = addr
        .resolve(&target, &ForcePolicy::RefreshReference, &CacheState::Valid)
        .unwrap();
    assert!(matches!(step.action, ResolveAction::Fetch { clean_first: false }));

    // An incompatible occupant stops everything below a full reclone.
    let err = addr
        .resolve(&target, &ForcePolicy::RefreshReference, &CacheState::Incompatible)
        .unwrap_err();
    assert!(matches!(err.kind(), ErrorKind::PathCollision));
}

#[test]
fn module_update_plans_clear_then_fetch_rename() {
    let m = sample_module("svc");
    let mut fs = TextFs::new();
    let root = ValuePath::new("ins");
    m.save_to(&mut fs, &root).unwrap();
    let loaded = RunningModule::load_from(&fs, &root.join("svc")).unwrap();
    let options = UpdateOptions::from_force(1, ValueDict::new());
    let plan = loaded.update(&options, &CacheState::Absent).unwrap();
    assert_eq!(plan.clear.path(), "ins/svc/spec");
    assert_eq!(plan.step.local.path(), "ins/svc/svc");
    assert_eq!(plan.step.rename_to.as_deref(), Some("spec"));
    assert!(matches!(
        plan.step.action,
        ResolveAction::Fetch { clean_first: false }
    ));
}

#[test]
fn comment_lexer_feeds_localization() {
    // The same text the lexer cleans is what a render job carries.
    let cleaned = remove_comment("a: 1 # note\n").unwrap();
    assert_eq!(cleaned, "a: 1 \n");
}

#[test]
fn example_builders_build() {
    let m = syspec::module::make_modins_example().unwrap();
    assert_eq!(m.name(), "postgresql");
    let m2 = syspec::module::make_modins_new("svc", "https://host.example/specs").unwrap();
    assert_eq!(m2.name(), "svc");
    let s = syspec::system::make_sys_spec_example().unwrap();
    assert_eq!(s.mod_list().ref_count(), 3);
    assert!(!s.mod_list().ref_at(0).effective());
    assert!(s.mod_list().ref_at(1).effective());
    let s2 = syspec::system::make_sys_spec_new("my-sys", "https://host.example/specs").unwrap();
    assert_eq!(s2.name(), "my-sys");
}

#[test]
fn tasks_compose_and_echo() {
    let mut t = CombinedTask::new("bundle");
    t.add_sub(EchoTask::new("one"));
    t.add_sub(EchoTask::new("two"));
    assert_eq!(t.name(), "bundle");
    let out = t.exec().unwrap();
    assert_eq!(out, "echo task:\none\necho task:\ntwo\n");
    let single = EchoTask::new("solo").exec().unwrap();
    assert_eq!(single, "echo task:\nsolo\n");
}

#[test]
fn setup_task_covers_workflow_actions() {
    let model = sample_sys();
    let task = model.make_setup_task().unwrap();
    assert_eq!(task.name(), "example-sys");
    assert_eq!(task.exec_text(), "echo task:\nsetup code\n\n");
}

#[test]
fn gitignore_is_written_once() {
    let mut fs = TextFs::new();
    let root = ValuePath::new("ws");
    syspec::init::sys_init_gitignore(&mut fs, &root).unwrap();
    match fs.read_file("ws/.gitignore").unwrap() {
        FileBody::Text(t) => assert_eq!(t, syspec::init::SYS_GITIGNORE),
        _ => panic!("ignore file expected"),
    }
    fs.write_file(
        "ws/.gitignore".to_string(),
        FileBody::Text("custom\n".to_string()),
    );
    syspec::init::sys_init_gitignore(&mut fs, &root).unwrap();
    match fs.read_file("ws/.gitignore").unwrap() {
        FileBody::Text(t) => assert_eq!(t, "custom\n"),
        _ => panic!("ignore file expected"),
    }
}

#[test]
fn value_path_joins_and_value_file() {
    let p = ValuePath::new("root");
    assert_eq!(p.join("a").path(), "root/a");
    assert_eq!(p.join_all("b").path(), "root/b");
    assert_eq!(p.join("a").value_file(), "root/a/value.json");
}

#[test]
fn ensure_exist_records_the_directory() {
    let mut fs = TextFs::new();
    assert!(!fs.dir_exists("root/a"));
    let p = ValuePath::new("root/a").ensure_exist(&mut fs).unwrap();
    assert_eq!(p.path(), "root/a");
    assert!(fs.dir_exists("root/a"));
}
