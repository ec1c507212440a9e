use broker_gateway_service::application::connection_manager::{ConnectionManager, ReconnectStep};
use broker_gateway_service::domain::request::{BrokerId, Connection};

#[test]
fn can_register_multiple_connections_for_same_broker() {
    let mut mgr = ConnectionManager::new(5, 500);
    let broker = BrokerId("alpaca".to_string());

    mgr.register_connection(broker.clone(), Connection { conn_id: "alpaca-1".to_string() });
    mgr.register_connection(broker.clone(), Connection { conn_id: "alpaca-2".to_string() });

    assert_eq!(mgr.connection_count(broker), 2);
}

#[test]
fn register_connection_replaces_same_conn_id() {
    let mut mgr = ConnectionManager::new(5, 500);
    let broker = BrokerId("alpaca".to_string());

    mgr.register_connection(broker.clone(), Connection { conn_id: "alpaca-1".to_string() });
    mgr.register_connection(broker, Connection { conn_id: "alpaca-1".to_string() });

    assert_eq!(mgr.connection_count(BrokerId("alpaca".to_string())), 1);
}

#[test]
fn get_connections_returns_all_for_broker() {
    let mut mgr = ConnectionManager::new(5, 500);
    let broker = BrokerId("alpaca".to_string());

    mgr.register_connection(broker.clone(), Connection { conn_id: "alpaca-1".to_string() });
    mgr.register_connection(broker.clone(), Connection { conn_id: "alpaca-2".to_string() });

    let mut ids: Vec<_> = mgr.get_connections(broker).into_iter().map(|c| c.conn_id).collect();
    ids.sort();

    assert_eq!(ids, vec!["alpaca-1".to_string(), "alpaca-2".to_string()]);
}

#[test]
fn release_connection_by_id_removes_single_connection() {
    let mut mgr = ConnectionManager::new(5, 500);
    let broker = "alpaca";

    mgr.register_connection(BrokerId(broker.to_string()), Connection { conn_id: "alpaca-1".to_string() });
    mgr.register_connection(BrokerId(broker.to_string()), Connection { conn_id: "alpaca-2".to_string() });

    mgr.release_connection_by_id(broker, "alpaca-1");

    assert_eq!(mgr.connection_count(BrokerId(broker.to_string())), 1);

    let conns = mgr.get_connections(BrokerId(broker.to_string()));
    assert_eq!(conns.len(), 1);
    assert_eq!(conns[0].conn_id, "alpaca-2".to_string());
}

#[test]
fn release_connection_by_id_cleans_up_empty_broker_bucket() {
    let mut mgr = ConnectionManager::new(5, 500);
    let broker = "alpaca";

    mgr.register_connection(BrokerId(broker.to_string()), Connection { conn_id: "alpaca-1".to_string() });

    mgr.release_connection_by_id(broker, "alpaca-1");

    assert_eq!(mgr.connection_count(BrokerId(broker.to_string())), 0);
    assert!(mgr.get_connections(BrokerId(broker.to_string())).is_empty());
}

#[test]
fn get_connection_returns_first_registered() {
    let mut mgr = ConnectionManager::new(5, 500);
    assert!(mgr.get_connection(BrokerId("alpaca".to_string())).is_none());
    mgr.register_connection(BrokerId("alpaca".to_string()), Connection { conn_id: "a-1".to_string() });
    mgr.register_connection(BrokerId("alpaca".to_string()), Connection { conn_id: "a-2".to_string() });
    let c = mgr.get_connection(BrokerId("alpaca".to_string())).expect("registered");
    assert_eq!(c.conn_id, "a-1");
}

#[test]
fn release_connection_drops_every_connection_of_broker() {
    let mut mgr = ConnectionManager::new(5, 500);
    mgr.register_connection(BrokerId("alpaca".to_string()), Connection { conn_id: "a-1".to_string() });
    mgr.register_connection(BrokerId("alpaca".to_string()), Connection { conn_id: "a-2".to_string() });
    mgr.register_connection(BrokerId("ibkr".to_string()), Connection { conn_id: "i-1".to_string() });
    mgr.release_connection("alpaca");
    assert_eq!(mgr.connection_count(BrokerId("alpaca".to_string())), 0);
    assert_eq!(mgr.connection_count(BrokerId("ibkr".to_string())), 1);
}

#[test]
fn backoff_schedule_doubles_from_base() {
    let mgr = ConnectionManager::new(5, 500);
    assert_eq!(mgr.max_attempts(), 5);
    assert_eq!(mgr.delay_before_attempt(1), 0);
    assert_eq!(mgr.delay_before_attempt(2), 500);
    assert_eq!(mgr.delay_before_attempt(3), 1000);
    assert_eq!(mgr.delay_before_attempt(4), 2000);
    assert_eq!(mgr.delay_before_attempt(5), 4000);
}

#[test]
fn default_manager_uses_five_attempts() {
    let mgr = ConnectionManager::default();
    assert_eq!(mgr.max_attempts(), 5);
    assert_eq!(mgr.delay_before_attempt(2), 500);
}

#[test]
fn reconnect_steps_follow_the_backoff_schedule() {
    let mut mgr = ConnectionManager::new(3, 100);
    assert!(matches!(mgr.reconnect_start(), ReconnectStep::RetryAfter(0)));
    assert!(matches!(mgr.reconnect_step("alpaca", 1, Err("down".into())), ReconnectStep::RetryAfter(100)));
    assert!(matches!(mgr.reconnect_step("alpaca", 2, Err("down".into())), ReconnectStep::RetryAfter(200)));
    match mgr.reconnect_step("alpaca", 3, Err("still down".into())) {
        ReconnectStep::GiveUp(e) => assert_eq!(e, "still down"),
        _ => panic!("expected to give up"),
    }
    assert_eq!(mgr.connection_count(BrokerId("alpaca".to_string())), 0);
    match mgr.reconnect_step("alpaca", 2, Ok(Connection { conn_id: "alpaca-7".to_string() })) {
        ReconnectStep::Connected(c) => assert_eq!(c.conn_id, "alpaca-7"),
        _ => panic!("expected a connection"),
    }
    assert_eq!(mgr.connection_count(BrokerId("alpaca".to_string())), 1);
    let none = ConnectionManager::new(0, 100);
    match none.reconnect_start() {
        ReconnectStep::GiveUp(e) => assert_eq!(e, "no attempts made"),
        _ => panic!("expected to give up"),
    }
}
