use astral_core::service::cleanup::{
    generation_matches, is_legacy_command_line, find_listener,
    migrate_legacy_data_if_needed, parse_u32, pid_from_lsof_output,
    remove_legacy_data_dir_if_safe, should_kill_listener,
};
use astral_core::service::health::{
    inspect_health, legacy_service_installed, scm_status_text, verify_service_consistency,
    HealthProbe, ListenerInfo, ScmStatus,
};
use astral_core::service::layout::binary_name;
use astral_core::service::manage::{
    build_service_args, service_label, status_label, status_line, UninstallOptions,
};
use astral_core::service::recovery::{begin_phase, resume_if_incomplete, MigrationPhase};
use astral_core::service::registry::{
    normalize_registry_generation, record_install, record_program, record_uninstall,
    InstalledInstance, ServiceRegistry,
};
use astral_core::service::repair::{
    prepare_install_or_update, repair_environment, uninstall, Action, PhaseNote, RepairOptions,
    RepairReport, StepOutcome,
};
use astral_core::service::install::{install, update, InstallOptions};
use astral_core::service::update::{update_target, UpdateOptions};
use astral_core::service::winhost::{control_reply, running_status, stopped_status, ScmControl};
use astral_core::service::{SERVICE_GENERATION, SERVICE_QUALIFIED_NAME};
use astral_core::net::default_listen;

#[test]
fn service_label_and_status_line() {
    let label = service_label().unwrap();
    assert_eq!(label.qualifier.as_deref(), Some("dev"));
    assert_eq!(label.organization.as_deref(), Some("astral"));
    assert_eq!(label.application, "core");
    let meta = status_label().unwrap();
    assert_eq!(meta, "qualified=dev.astral.core script=astral-core");
    assert_eq!(status_line(ScmStatus::Running, &meta), format!("running ({meta})"));
    assert_eq!(scm_status_text(ScmStatus::NotInstalled), "not-installed");
}

#[test]
fn service_arguments_per_platform() {
    let label = service_label().unwrap();
    let unix = build_service_args(default_listen(), "/data", &label, false);
    assert_eq!(
        unix,
        vec!["--listen", "127.0.0.1:50051", "--data-dir", "/data", "--service-generation", "core-v2"]
    );
    let win = build_service_args(default_listen(), "C:\\data", &label, true);
    assert_eq!(win[0], "--windows-service");
    assert_eq!(win[1], SERVICE_QUALIFIED_NAME);
    assert_eq!(win.len(), 8);
    assert_eq!(binary_name(true), "astral-core.exe");
    assert_eq!(binary_name(false), "astral-core");
}

#[test]
fn legacy_and_generation_recognition() {
    assert!(is_legacy_command_line("astral-core --data-dir C:\\X\\INSTANCES\\DEFAULT"));
    assert!(is_legacy_command_line("dev.astral.core-default"));
    assert!(!is_legacy_command_line("astral-core --service-generation core-v2"));
    assert!(generation_matches("astral-core --service-generation core-v2"));
    assert!(!generation_matches("astral-core"));
}

#[test]
fn lsof_output_gives_first_pid() {
    assert_eq!(pid_from_lsof_output("1234\n5678\n"), 1234);
    assert_eq!(pid_from_lsof_output("  x 42"), 42);
    assert_eq!(pid_from_lsof_output(""), 0);
    assert_eq!(pid_from_lsof_output("99999999999 7"), 7);
    assert_eq!(parse_u32(&"+12".chars().collect()), Some(12));
    assert_eq!(parse_u32(&"4294967296".chars().collect()), None);
    assert_eq!(parse_u32(&"".chars().collect()), None);
}

#[test]
fn stale_listener_decisions() {
    let old = find_listener(7, Some("/usr/bin/astral-core --listen x".into()), false).unwrap();
    assert!(old.is_astral_core && !old.generation_match && !old.is_legacy);
    assert!(should_kill_listener(&old));
    let cur = find_listener(
        8,
        Some("astral-core --service-generation core-v2".into()),
        false,
    )
    .unwrap();
    assert!(!should_kill_listener(&cur));
    let win = find_listener(9, Some("C:\\ASTRAL-CORE.EXE".into()), true).unwrap();
    assert!(win.is_astral_core);
    assert!(find_listener(0, None, false).is_none());
    let other = ListenerInfo {
        pid: 1,
        command_line: None,
        is_astral_core: false,
        is_legacy: true,
        generation_match: false,
    };
    assert!(!should_kill_listener(&other));
}

#[test]
fn legacy_data_decisions() {
    assert!(migrate_legacy_data_if_needed(true, false, false));
    assert!(!migrate_legacy_data_if_needed(true, true, false));
    assert!(migrate_legacy_data_if_needed(true, true, true));
    assert!(!migrate_legacy_data_if_needed(false, false, true));
    assert!(remove_legacy_data_dir_if_safe(true, true, true));
    assert!(!remove_legacy_data_dir_if_safe(true, false, true));
    assert!(remove_legacy_data_dir_if_safe(true, false, false));
}

fn instance(name: &str, dir: &str) -> InstalledInstance {
    InstalledInstance {
        name: name.into(),
        listen: "127.0.0.1:50051".into(),
        data_dir: dir.into(),
        user: false,
    }
}

#[test]
fn registry_normalization_is_idempotent() {
    let reg = ServiceRegistry {
        install_root: Some("/opt/a".into()),
        program: Some("/opt/a/astral-core".into()),
        service_generation: None,
        instances: vec![instance("default", "/old")],
    };
    let (r1, c1) = normalize_registry_generation(reg, "/data");
    assert!(c1);
    assert_eq!(r1.service_generation.as_deref(), Some(SERVICE_GENERATION));
    assert_eq!(r1.instances[0].name, "core");
    assert_eq!(r1.instances[0].data_dir, "/data");
    let (_r2, c2) = normalize_registry_generation(r1, "/data");
    assert!(!c2);
    let (empty, c3) = normalize_registry_generation(ServiceRegistry::default(), "/data");
    assert!(!c3);
    assert!(empty.instances.is_empty());
}

#[test]
fn registry_records() {
    let r = record_install("/r".into(), "/r/astral-core".into(), "127.0.0.1:50051".into(), "/d".into(), true);
    assert_eq!(r.instances.len(), 1);
    assert_eq!(r.instances[0].name, "core");
    assert!(r.instances[0].user);
    let r2 = record_program(r, "/r2".into(), "/r2/astral-core".into());
    assert_eq!(r2.install_root.as_deref(), Some("/r2"));
    assert_eq!(r2.instances.len(), 1);
    let r3 = record_uninstall();
    assert!(r3.instances.is_empty() && r3.program.is_none());
}

#[test]
fn phase_record_keeps_start_time() {
    let s1 = begin_phase(None, MigrationPhase::StopOld, None, Some("repair".into()), "100".into());
    assert_eq!(s1.started_at, "100");
    let s2 = begin_phase(Some(s1), MigrationPhase::Done, Some("1.0".into()), None, "200".into());
    assert_eq!(s2.started_at, "100");
    assert_eq!(s2.updated_at, "200");
    assert_eq!(resume_if_incomplete(Some(&s2)), None);
    let s3 = begin_phase(None, MigrationPhase::MigrateData, None, None, "5".into());
    assert_eq!(resume_if_incomplete(Some(&s3)), Some(MigrationPhase::MigrateData));
    assert_eq!(resume_if_incomplete(None), None);
}

#[test]
fn health_report_lists_issues_in_order() {
    let probe = HealthProbe {
        data_dir: "/data".into(),
        legacy_data_dir_exists: true,
        scm: ScmStatus::Stopped,
        legacy_status: Some(ScmStatus::Running),
        listener: Some(ListenerInfo {
            pid: 77,
            command_line: None,
            is_astral_core: true,
            is_legacy: false,
            generation_match: true,
        }),
        registry: Some(ServiceRegistry {
            install_root: None,
            program: None,
            service_generation: Some("core-v1".into()),
            instances: vec![instance("core", "/elsewhere")],
        }),
    };
    let r = inspect_health(probe);
    assert_eq!(
        r.issues,
        vec![
            "旧服务仍存在: dev.astral.core-default".to_string(),
            "旧数据目录仍存在: /data/instances/default".to_string(),
            "端口 50051 有 astral-core 监听，但 SCM 状态为 stopped".to_string(),
            "登记文件代际过旧或缺失".to_string(),
            "登记 data_dir 与当前默认不一致: /elsewhere".to_string(),
        ]
    );
    assert!(r.needs_repair);
    assert_eq!(r.legacy_data_dir, "/data/instances/default");
    assert!(verify_service_consistency(&r));
    assert_eq!(r.legacy_service_status.as_deref(), Some("running"));
    assert!(legacy_service_installed(Some(ScmStatus::Stopped)));
    assert!(!legacy_service_installed(Some(ScmStatus::NotInstalled)));
    assert!(!legacy_service_installed(None));
}

#[test]
fn healthy_probe_needs_no_repair() {
    let probe = HealthProbe {
        data_dir: "/data".into(),
        legacy_data_dir_exists: false,
        scm: ScmStatus::Running,
        legacy_status: Some(ScmStatus::NotInstalled),
        listener: Some(ListenerInfo {
            pid: 12,
            command_line: None,
            is_astral_core: true,
            is_legacy: false,
            generation_match: true,
        }),
        registry: None,
    };
    let r = inspect_health(probe);
    assert!(r.issues.is_empty());
    assert!(!r.needs_repair);
    assert_eq!(r.listen, "127.0.0.1:50051");
}

#[test]
fn stale_listener_issue_names_pid() {
    let probe = HealthProbe {
        data_dir: "/d".into(),
        legacy_data_dir_exists: false,
        scm: ScmStatus::Running,
        legacy_status: None,
        listener: Some(ListenerInfo {
            pid: 4321,
            command_line: None,
            is_astral_core: true,
            is_legacy: true,
            generation_match: true,
        }),
        registry: None,
    };
    let r = inspect_health(probe);
    assert_eq!(r.issues, vec!["端口 50051 被旧参数 astral-core 占用 (pid=4321)".to_string()]);
}

#[test]
fn repair_runs_all_steps_in_order() {
    let (mut m, a) = repair_environment(RepairOptions { user: false, migrate_legacy_data: true });
    assert!(matches!(a, Action::BeginPhase(MigrationPhase::StopOld, Some(PhaseNote::Repair))));
    assert!(matches!(m.next(StepOutcome::Done), Action::StopCurrentService));
    assert!(matches!(m.next(StepOutcome::Failed("no manager".into())), Action::UninstallLegacyService));
    assert!(matches!(m.next(StepOutcome::Flag(true)), Action::KillStaleListeners(50051)));
    assert!(matches!(m.next(StepOutcome::Flag(true)), Action::MigrateLegacyData(false)));
    assert!(matches!(m.next(StepOutcome::Flag(true)), Action::RemoveLegacyDataDir));
    assert!(matches!(m.next(StepOutcome::Failed("busy".into())), Action::NormalizeRegistry));
    assert!(matches!(m.next(StepOutcome::Flag(true)), Action::InspectHealth));
    assert!(matches!(m.next(StepOutcome::Done), Action::BeginPhase(MigrationPhase::Done, None)));
    assert!(matches!(m.next(StepOutcome::Done), Action::ClearState));
    assert!(matches!(m.next(StepOutcome::Done), Action::Finish));
    assert_eq!(
        m.report,
        RepairReport {
            stopped_current_service: false,
            uninstalled_legacy_service: true,
            killed_stale_listeners: 1,
            migrated_legacy_data: true,
            removed_legacy_data_dir: false,
            normalized_registry: true,
        }
    );
}

#[test]
fn repair_stops_on_failed_legacy_uninstall_and_skips_migration() {
    let (mut m, _) = repair_environment(RepairOptions::default());
    m.next(StepOutcome::Done);
    m.next(StepOutcome::Flag(true));
    match m.next(StepOutcome::Failed("denied".into())) {
        Action::Fail(e) => assert_eq!(e, "denied"),
        other => panic!("unexpected {:?}", other),
    }
    let (mut m2, _) = repair_environment(RepairOptions::default());
    m2.next(StepOutcome::Done);
    m2.next(StepOutcome::Flag(false));
    m2.next(StepOutcome::Flag(false));
    assert!(matches!(m2.next(StepOutcome::Flag(false)), Action::RemoveLegacyDataDir));
}

#[test]
fn prepare_reads_state_then_repairs() {
    let (mut m, a) = prepare_install_or_update(true, false);
    assert!(matches!(a, Action::LoadState));
    assert!(matches!(m.next(StepOutcome::Phase(None)), Action::LoadState));
    assert!(matches!(
        m.next(StepOutcome::Phase(Some(MigrationPhase::StopOld))),
        Action::BeginPhase(MigrationPhase::Preflight, Some(PhaseNote::Prepare))
    ));
    match m.next(StepOutcome::Done) {
        Action::RunRepair(o) => assert!(o.user && !o.migrate_legacy_data),
        other => panic!("unexpected {:?}", other),
    }
    assert!(matches!(m.next(StepOutcome::Done), Action::BeginPhase(MigrationPhase::MigrateData, None)));
    assert!(matches!(m.next(StepOutcome::Done), Action::Finish));
    assert_eq!(PhaseNote::Prepare.text(), "prepare");
}

#[test]
fn uninstall_sequence_and_failures() {
    let (mut m, a) = uninstall(UninstallOptions { user: false, purge_data: true });
    assert!(matches!(a, Action::StopCurrentService));
    assert!(matches!(m.next(StepOutcome::Done), Action::UninstallCurrentService));
    assert!(matches!(m.next(StepOutcome::Done), Action::RecordUninstall));
    assert!(matches!(m.next(StepOutcome::Done), Action::KillStaleListeners(50051)));
    assert!(matches!(m.next(StepOutcome::Flag(false)), Action::UninstallLegacyService));
    assert!(matches!(m.next(StepOutcome::Flag(false)), Action::PurgeDataRoot));
    assert!(matches!(m.next(StepOutcome::Done), Action::ClearState));
    assert!(matches!(m.next(StepOutcome::Failed("x".into())), Action::Finish));
    let (mut f, _) = uninstall(UninstallOptions { user: false, purge_data: false });
    f.next(StepOutcome::Done);
    match f.next(StepOutcome::Failed("sc.exe failed".into())) {
        Action::Fail(e) => assert_eq!(e, "卸载服务失败: dev.astral.core"),
        other => panic!("unexpected {:?}", other),
    }
}

#[test]
fn update_target_uses_registry_when_no_root_given() {
    let reg = ServiceRegistry {
        install_root: Some("/opt/astral".into()),
        program: None,
        service_generation: None,
        instances: vec![InstalledInstance {
            name: "core".into(),
            listen: "127.0.0.1:50051".into(),
            data_dir: "/d".into(),
            user: true,
        }],
    };
    let opts = UpdateOptions { program: None, install_root: None, no_start: false };
    let t = update_target(&opts, Some(&reg), true);
    assert!(t.user);
    assert_eq!(t.install_root.as_deref(), Some("/opt/astral"));
    assert!(t.start_after);
    let t2 = update_target(&opts, Some(&reg), false);
    assert_eq!(t2.install_root, None);
    let explicit = UpdateOptions { program: None, install_root: Some("/x".into()), no_start: true };
    let t3 = update_target(&explicit, None, false);
    assert!(!t3.user);
    assert_eq!(t3.install_root.as_deref(), Some("/x"));
    assert!(!t3.start_after);
}

#[test]
fn windows_host_control_and_statuses() {
    assert_eq!(control_reply(ScmControl::Stop), (true, true));
    assert_eq!(control_reply(ScmControl::Interrogate), (false, true));
    assert_eq!(control_reply(ScmControl::Other), (false, false));
    assert!(running_status().accepts_stop);
    assert_eq!(stopped_status(false).exit_code, 1);
    assert_eq!(stopped_status(true).exit_code, 0);
}

fn install_opts(user: bool, start: bool, version: Option<String>) -> InstallOptions {
    InstallOptions {
        listen: default_listen(),
        data_dir: None,
        program: None,
        install_root: None,
        version,
        user,
        start_after_install: start,
    }
}

#[test]
fn install_sequence_with_and_without_start() {
    let (mut m, a) = install(&install_opts(false, true, Some("1.2.0".into())));
    assert!(matches!(a, Action::RunPrepare(false, true)));
    assert!(matches!(m.next(StepOutcome::Done), Action::BeginVersionPhase(MigrationPhase::StageNewVersion)));
    assert!(matches!(m.next(StepOutcome::Done), Action::StageBinary));
    assert!(matches!(m.next(StepOutcome::Done), Action::InstallService));
    assert!(matches!(m.next(StepOutcome::Done), Action::RecordInstall));
    assert!(matches!(m.next(StepOutcome::Done), Action::StartService));
    assert!(matches!(m.next(StepOutcome::Done), Action::BeginVersionPhase(MigrationPhase::Done)));
    assert!(matches!(m.next(StepOutcome::Done), Action::ClearState));
    assert!(matches!(m.next(StepOutcome::Failed("busy".into())), Action::Finish));
    assert_eq!(m.version.as_deref(), Some("1.2.0"));
    let (mut n, _) = install(&install_opts(true, false, None));
    n.next(StepOutcome::Done);
    n.next(StepOutcome::Done);
    n.next(StepOutcome::Done);
    assert!(matches!(n.next(StepOutcome::Done), Action::RecordInstall));
    assert!(matches!(n.next(StepOutcome::Done), Action::BeginVersionPhase(MigrationPhase::Done)));
    let (mut f, _) = install(&install_opts(false, true, None));
    match f.next(StepOutcome::Failed("no space".into())) {
        Action::Fail(e) => assert_eq!(e, "no space"),
        other => panic!("unexpected {:?}", other),
    }
}

#[test]
fn update_sequence_ignores_failed_stop() {
    let reg = ServiceRegistry::default();
    let opts = UpdateOptions { program: None, install_root: Some("/x".into()), no_start: false };
    let target = update_target(&opts, Some(&reg), false);
    let (mut m, a) = update(&target);
    assert!(matches!(a, Action::StopCurrentService));
    assert!(matches!(m.next(StepOutcome::Failed("not running".into())), Action::Pause(500)));
    assert!(matches!(m.next(StepOutcome::Done), Action::StageBinary));
    assert!(matches!(m.next(StepOutcome::Done), Action::RecordProgram));
    assert!(matches!(m.next(StepOutcome::Done), Action::StartService));
    assert!(matches!(m.next(StepOutcome::Done), Action::Finish));
    let (mut m2, _) = update(&target);
    m2.next(StepOutcome::Done);
    m2.next(StepOutcome::Done);
    match m2.next(StepOutcome::Failed("copy failed".into())) {
        Action::Fail(e) => assert_eq!(e, "copy failed"),
        other => panic!("unexpected {:?}", other),
    }
}
