use pg_bootstrap::error::{BootstrapError, PoolFault};
use pg_bootstrap::pool::{Connector, PoolPlan, TransportIntent, TransportMode};
use pg_bootstrap::settings::PoolSettings;
use pg_bootstrap::trust::TrustStore;

const ROOT_ONE: &str = "-----BEGIN CERTIFICATE-----\n\
MIIBmzCCAUGgAwIBAgIUAXzX4WafEQs8Q9K+UwZt0MGLpoAwCgYIKoZIzj0EAwIw\n\
IjEgMB4GA1UEAwwXYm9vdHN0cmFwIHRlc3Qgcm9vdCBvbmUwIBcNMjYxMDI4MjIz\n\
MDQ4WhgPMjEyNjEwMDQyMjMwNDhaMCIxIDAeBgNVBAMMF2Jvb3RzdHJhcCB0ZXN0\n\
IHJvb3Qgb25lMFkwEwYHKoZIzj0CAQYIKoZIzj0DAQcDQgAENt4kfeSMuwrZrKPG\n\
+DcFkWtwc1fs5MEKV09iLGa/6f95KmC1NZzxwsao23IBPkfLY243I1rnPSIYbxCr\n\
BRw9rqNTMFEwHQYDVR0OBBYEFEsf0JIDL64ww1ynkD6qXDa9iK+CMB8GA1UdIwQY\n\
MBaAFEsf0JIDL64ww1ynkD6qXDa9iK+CMA8GA1UdEwEB/wQFMAMBAf8wCgYIKoZI\n\
zj0EAwIDSAAwRQIgVu85WAi6EnbAlpNpkPY211osqoL7ELUHNhqokati2F4CIQCT\n\
S+QSbqVd3B1CFrU0StKsen6VsX2SYslH2mf5JdF7EQ==\n\
-----END CERTIFICATE-----\n\
";

const ROOT_TWO: &str = "-----BEGIN CERTIFICATE-----\n\
MIIBmjCCAUGgAwIBAgIURBV43WN0DIYk2g99/VU7SnSWXdQwCgYIKoZIzj0EAwIw\n\
IjEgMB4GA1UEAwwXYm9vdHN0cmFwIHRlc3Qgcm9vdCB0d28wIBcNMjYxMDI4MjIz\n\
MDQ4WhgPMjEyNjEwMDQyMjMwNDhaMCIxIDAeBgNVBAMMF2Jvb3RzdHJhcCB0ZXN0\n\
IHJvb3QgdHdvMFkwEwYHKoZIzj0CAQYIKoZIzj0DAQcDQgAEROjf7jjh6ItBb9uL\n\
4Gkqm9VTrM9Hv2AhkjLmN/uzReYvU3CzaZdx4VYde6OKchlRQ81QLi6jTNlUeZ8O\n\
Bxbrg6NTMFEwHQYDVR0OBBYEFBuWsSXVT8d6XDfzxGGCQqIVOC/MMB8GA1UdIwQY\n\
MBaAFBuWsSXVT8d6XDfzxGGCQqIVOC/MMA8GA1UdEwEB/wQFMAMBAf8wCgYIKoZI\n\
zj0EAwIDRwAwRAIgYz71WBs80IXccWSMa1h73s9PCeQ8YaPKHUbupNwiAs8CIAnR\n\
JykND9Zf4GQTiUsrsBv+EkQ9tAbMG14MSIsRSxnZ\n\
-----END CERTIFICATE-----\n\
";

fn settings(max_size: Option<usize>) -> PoolSettings {
    PoolSettings {
        host: "localhost".to_string(),
        port: 5432,
        user: "test".to_string(),
        password: "secret".to_string(),
        dbname: "test".to_string(),
        max_size,
        connect_timeout_secs: Some(5),
    }
}

fn trust() -> TrustStore {
    let file = format!("{}{}", ROOT_ONE, ROOT_TWO);
    TrustStore::from_pem("ca.pem", file.as_bytes()).unwrap()
}

fn refused(outcome: Result<PoolPlan, BootstrapError>) -> BootstrapError {
    match outcome {
        Ok(_) => panic!("expected the plan to be refused"),
        Err(error) => error,
    }
}

#[test]
fn intent_modes() {
    assert_eq!(TransportIntent::Plain.mode(), TransportMode::Plain);
    assert_eq!(TransportIntent::Tls(trust()).mode(), TransportMode::Tls);
}

#[test]
fn a_plain_intent_gives_a_plain_plan() {
    let plan = PoolPlan::new(settings(Some(8)), TransportIntent::Plain).ok().unwrap();
    assert_eq!(plan.mode(), TransportMode::Plain);
    assert!(matches!(plan.connector(), Connector::Plain));
    assert!(plan.certificates().is_empty());
    assert_eq!(plan.settings(), &settings(Some(8)));
}

#[test]
fn a_plain_plan_without_a_pool_size() {
    let plan = PoolPlan::new(settings(None), TransportIntent::Plain).ok().unwrap();
    assert_eq!(plan.mode(), TransportMode::Plain);
    assert_eq!(plan.settings().max_size, None);
}

#[test]
fn a_tls_intent_gives_a_tls_plan_that_trusts_the_store() {
    let store = trust();
    let expected = store.certificates().clone();
    let plan = PoolPlan::new(settings(Some(2)), TransportIntent::Tls(store)).ok().unwrap();
    assert_eq!(plan.mode(), TransportMode::Tls);
    assert!(matches!(plan.connector(), Connector::Tls(_)));
    assert_eq!(plan.certificates(), &expected);
    assert_eq!(plan.certificates().len(), 2);
    assert_eq!(plan.settings(), &settings(Some(2)));
}

#[test]
fn a_pool_of_size_zero_is_refused_for_plain() {
    let error = refused(PoolPlan::new(settings(Some(0)), TransportIntent::Plain));
    assert_eq!(error, BootstrapError::PoolCreation(PoolFault::EmptyPool));
}

#[test]
fn a_pool_of_size_zero_is_refused_for_tls() {
    let error = refused(PoolPlan::new(settings(Some(0)), TransportIntent::Tls(trust())));
    assert_eq!(error, BootstrapError::PoolCreation(PoolFault::EmptyPool));
}

#[test]
fn a_pool_of_size_one_is_planned() {
    let plan = PoolPlan::new(settings(Some(1)), TransportIntent::Plain).ok().unwrap();
    assert_eq!(plan.settings().max_size, Some(1));
}

#[test]
fn a_tls_plan_is_owed_for_every_pool_size_but_zero() {
    for size in [None, Some(1), Some(16), Some(usize::MAX)] {
        let plan = PoolPlan::new(settings(size), TransportIntent::Tls(trust())).ok().unwrap();
        assert_eq!(plan.mode(), TransportMode::Tls);
        assert!(matches!(plan.connector(), Connector::Tls(_)));
        assert_eq!(plan.certificates().len(), 2);
        assert_eq!(plan.settings().max_size, size);
    }
}
