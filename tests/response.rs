use hotplug_pve::response::{Item, MonitorError, Reply, ReturnValue};

fn err() -> Reply {
    Reply::Error { class: "GenericError".to_string(), desc: "bad".to_string() }
}

#[test]
fn typed_decoding_checks_the_shape() {
    assert_eq!(Reply::Return(ReturnValue::Bool(true)).expect_bool().unwrap(), true);
    assert!(matches!(
        Reply::Return(ReturnValue::Str("x".to_string())).expect_bool(),
        Err(MonitorError::CommunicationFailed)
    ));
    assert_eq!(Reply::Return(ReturnValue::Str("x".to_string())).expect_string().unwrap(), "x");
    assert!(matches!(
        Reply::Return(ReturnValue::Bool(false)).expect_string(),
        Err(MonitorError::CommunicationFailed)
    ));
    let items = vec![Item { name: "type".to_string(), kind: "string".to_string() }];
    let list = Reply::Return(ReturnValue::Items(items)).expect_items().unwrap();
    assert_eq!(list.items.len(), 1);
    assert_eq!(list.items[0].name, "type");
    assert!(matches!(Reply::Return(ReturnValue::Other).expect_items(), Err(MonitorError::CommunicationFailed)));
    assert!(Reply::Return(ReturnValue::Other).expect_ack().is_ok());
}

#[test]
fn error_replies_become_command_failures() {
    assert!(matches!(err().expect_ack(), Err(MonitorError::CommandFailed { .. })));
    assert!(matches!(err().expect_bool(), Err(MonitorError::CommandFailed { .. })));
    assert!(matches!(err().expect_string(), Err(MonitorError::CommandFailed { .. })));
    match err().expect_items() {
        Err(MonitorError::CommandFailed { class, desc }) => {
            assert_eq!(class, "GenericError");
            assert_eq!(desc, "bad");
        }
        other => panic!("unexpected {:?}", other),
    }
}
