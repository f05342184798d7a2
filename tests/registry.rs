use neovim_instance_registry::model::{HealthStatus, InstanceResult};
use neovim_instance_registry::registry::{InstanceManager, RegistryError};

const T0: i64 = 1_700_000_000_000;

fn s(x: &str) -> String {
    x.to_string()
}

#[test]
fn register_then_query_is_unknown() {
    let mut m = InstanceManager::new();
    assert_eq!(m.register_instance(s("A"), s("127.0.0.1:9000"), T0), Ok(()));
    let snap = m.query_instance(&s("A")).unwrap();
    assert_eq!(
        snap,
        InstanceResult {
            identifier: s("A"),
            server_address: s("127.0.0.1:9000"),
            health_status: HealthStatus::Unknown,
            last_health_check: T0,
        }
    );
}

#[test]
fn lifecycle_register_sweep_healthy_then_evicted() {
    let mut m = InstanceManager::new();
    m.register_instance(s("A"), s("127.0.0.1:9000"), T0).unwrap();
    assert_eq!(m.query_instance(&s("A")).unwrap().health_status, HealthStatus::Unknown);
    m.health_check_at(&|_: &String| true, T0 + 5_000);
    let snap = m.query_instance(&s("A")).unwrap();
    assert_eq!(snap.health_status, HealthStatus::Healthy);
    assert_eq!(snap.last_health_check, T0 + 5_000);
    m.health_check_at(&|_: &String| false, T0 + 10_000);
    assert_eq!(m.query_instance(&s("A")), None);
    assert_eq!(m.len(), 0);
}

#[test]
fn repeated_registration_has_one_winner() {
    let mut m = InstanceManager::new();
    let mut accepted = 0;
    let mut refused = 0;
    for i in 0..5 {
        match m.register_instance(s("B"), format!("127.0.0.1:{}", 9000 + i), T0) {
            Ok(()) => accepted += 1,
            Err(RegistryError::AlreadyExists) => refused += 1,
            Err(e) => panic!("unexpected {:?}", e),
        }
    }
    assert_eq!((accepted, refused), (1, 4));
    assert_eq!(m.query_instance(&s("B")).unwrap().server_address, s("127.0.0.1:9000"));
}

#[test]
fn unregister_unknown_and_known() {
    let mut m = InstanceManager::new();
    assert_eq!(m.unregister_instance(&s("X")), Err(RegistryError::NotFound));
    m.register_instance(s("X"), s("127.0.0.1:1"), T0).unwrap();
    m.register_instance(s("Y"), s("127.0.0.1:2"), T0).unwrap();
    assert_eq!(m.unregister_instance(&s("X")), Ok(()));
    assert_eq!(m.query_instance(&s("X")), None);
    assert!(m.query_instance(&s("Y")).is_some());
    assert_eq!(m.unregister_instance(&s("X")), Err(RegistryError::NotFound));
}

#[test]
fn sweep_keeps_only_answering_records_in_order() {
    let mut m = InstanceManager::new();
    m.register_instance(s("a"), s("h:1"), T0).unwrap();
    m.register_instance(s("b"), s("h:2"), T0).unwrap();
    m.register_instance(s("c"), s("h:3"), T0).unwrap();
    let listed = m.list_instances_with(&vec![true, false, true], T0 + 1);
    let ids: Vec<&str> = listed.iter().map(|r| r.identifier.as_str()).collect();
    assert_eq!(ids, vec!["a", "c"]);
    assert!(listed.iter().all(|r| r.health_status == HealthStatus::Healthy));
    assert_eq!(m.query_instance(&s("b")), None);
}

#[test]
fn sweep_probes_each_address() {
    let mut m = InstanceManager::new();
    m.register_instance(s("a"), s("h:1"), T0).unwrap();
    m.register_instance(s("b"), s("h:2"), T0).unwrap();
    assert_eq!(m.probe_targets(), vec![s("h:1"), s("h:2")]);
    m.health_check_at(&|addr: &String| addr == "h:2", T0 + 1);
    assert_eq!(m.query_instance(&s("a")), None);
    assert_eq!(m.query_instance(&s("b")).unwrap().health_status, HealthStatus::Healthy);
}

#[test]
fn check_time_never_moves_back() {
    let mut m = InstanceManager::new();
    m.register_instance(s("a"), s("h:1"), T0).unwrap();
    m.health_check_with(&vec![true], T0 - 1_000);
    let snap = m.query_instance(&s("a")).unwrap();
    assert_eq!(snap.last_health_check, T0);
    assert_eq!(snap.health_status, HealthStatus::Healthy);
}

#[test]
fn periodic_sweep_uses_current_time() {
    let mut m = InstanceManager::new();
    m.register_instance(s("a"), s("h:1"), 0).unwrap();
    m.health_check_all(&|_: &String| true);
    let snap = m.query_instance(&s("a")).unwrap();
    assert!(snap.last_health_check > T0);
    m.health_check_all(&|_: &String| false);
    assert_eq!(m.len(), 0);
}
