use instance_manager::commands::finish_spawn;
use instance_manager::commands::plan_spawn;
use instance_manager::commands::terminate_all;
use instance_manager::commands::terminate_all_and_exit;
use instance_manager::commands::SpawnError;
use instance_manager::commands::SpawnOutcome;
use instance_manager::config::default_config;
use instance_manager::config::Config;
use instance_manager::registry::Registry;

fn test_config() -> Config {
    let mut c = default_config();
    c.directory_prefix = Some("D".to_string());
    c
}

fn spawn_ok(reg: &mut Registry, config: &Config, handle: u64) -> u32 {
    let plan = plan_spawn(reg, config, &None);
    finish_spawn(reg, config, plan, SpawnOutcome::Started(handle)).unwrap()
}

#[test]
fn eager_start_assigns_ordinals_one_to_n() {
    let config = test_config();
    let mut reg = Registry::new();
    let n: u32 = 5;
    for k in 1..=n {
        let plan = plan_spawn(&reg, &config, &None);
        assert_eq!(plan.ordinal, k);
        assert_eq!(plan.storage_path, format!("D{}", k));
        let got = finish_spawn(&mut reg, &config, plan, SpawnOutcome::Started(100 + k as u64));
        assert_eq!(got.unwrap(), k);
    }
    assert_eq!(reg.size(), n as usize);
}

#[test]
fn terminate_all_empties_registry() {
    let config = test_config();
    let mut reg = Registry::new();
    for h in [10, 20, 30] {
        spawn_ok(&mut reg, &config, h);
    }
    let handles = terminate_all(&mut reg);
    assert_eq!(reg.size(), 0);
    assert_eq!(handles, vec![30, 20, 10]);
}

#[test]
fn terminate_all_on_empty_registry() {
    let mut reg = Registry::new();
    let handles = terminate_all(&mut reg);
    assert_eq!(reg.size(), 0);
    assert!(handles.is_empty());
}

#[test]
fn ordinal_resets_after_terminate_all() {
    let config = test_config();
    let mut reg = Registry::new();
    spawn_ok(&mut reg, &config, 1);
    spawn_ok(&mut reg, &config, 2);
    terminate_all(&mut reg);
    let plan = plan_spawn(&reg, &config, &None);
    assert_eq!(plan.ordinal, 1);
    assert_eq!(plan.storage_path, "D1");
}

#[test]
fn launch_error_leaves_registry_and_later_commands_work() {
    let config = test_config();
    let mut reg = Registry::new();
    spawn_ok(&mut reg, &config, 50);
    assert_eq!(reg.size(), 1);

    let plan = plan_spawn(&reg, &config, &None);
    let r = finish_spawn(
        &mut reg,
        &config,
        plan,
        SpawnOutcome::LaunchFailed("no such file".to_string()),
    );
    match r {
        Err(SpawnError::Launch { executable_path, cause }) => {
            assert_eq!(executable_path, config.executable_path);
            assert_eq!(cause, "no such file");
        }
        other => panic!("expected a launch error, got {:?}", other.is_ok()),
    }
    assert_eq!(reg.size(), 1);

    let ordinal = spawn_ok(&mut reg, &config, 51);
    assert_eq!(ordinal, 2);
    assert_eq!(reg.size(), 2);

    let handles = terminate_all(&mut reg);
    assert_eq!(handles, vec![51, 50]);
    assert_eq!(reg.size(), 0);
}

#[test]
fn provision_error_leaves_registry() {
    let config = test_config();
    let mut reg = Registry::new();
    let plan = plan_spawn(&reg, &config, &None);
    let r = finish_spawn(
        &mut reg,
        &config,
        plan,
        SpawnOutcome::ProvisionFailed("permission denied".to_string()),
    );
    match r {
        Err(SpawnError::Provision { path, cause }) => {
            assert_eq!(path, "D1");
            assert_eq!(cause, "permission denied");
        }
        other => panic!("expected a provision error, got {:?}", other.is_ok()),
    }
    assert_eq!(reg.size(), 0);
}

#[test]
fn exit_plan_covers_all_instances_in_order() {
    let config = test_config();
    let mut reg = Registry::new();
    for h in [7, 8, 9] {
        spawn_ok(&mut reg, &config, h);
    }
    let plan = terminate_all_and_exit(&reg);
    assert_eq!(plan.handles, vec![7, 8, 9]);
    assert_eq!(plan.exit_code, 0);
    assert_eq!(reg.size(), 3);
}

#[test]
fn exit_plan_on_empty_registry() {
    let reg = Registry::new();
    let plan = terminate_all_and_exit(&reg);
    assert!(plan.handles.is_empty());
    assert_eq!(plan.exit_code, 0);
}

#[test]
fn serialized_spawns_get_distinct_contiguous_ordinals() {
    let config = test_config();
    let mut reg = Registry::new();
    let mut ordinals: Vec<u32> = Vec::new();
    for h in 0..20u64 {
        ordinals.push(spawn_ok(&mut reg, &config, h));
    }
    let expected: Vec<u32> = (1..=20).collect();
    assert_eq!(ordinals, expected);
    assert_eq!(reg.size(), 20);
}
