use bssh::connections::{add_connection, remove_connection, update_connection, SavedConnection};

#[test]
fn test_update_connection_changes_host() {
    let initial = SavedConnection::new(
        "myserver".to_string(),
        "old-host.com".to_string(),
        22,
        "user".to_string(),
        None,
    );
    let connections = vec![initial];

    let updated = SavedConnection::new(
        "myserver".to_string(),
        "new-host.com".to_string(),
        22,
        "user".to_string(),
        None,
    );
    let loaded = update_connection(connections, "myserver", updated).unwrap();

    assert_eq!(loaded.len(), 1);
    assert_eq!(loaded[0].name, "myserver");
    assert_eq!(loaded[0].host, "new-host.com");
}

#[test]
fn test_update_connection_not_found_returns_error() {
    let conn = SavedConnection::new(
        "other".to_string(),
        "host.com".to_string(),
        22,
        "user".to_string(),
        None,
    );
    let connections = vec![conn];

    let updated = SavedConnection::new(
        "nonexistent".to_string(),
        "new-host.com".to_string(),
        22,
        "user".to_string(),
        None,
    );
    let result = update_connection(connections, "nonexistent", updated);

    assert!(result.is_err());
}

#[test]
fn test_update_connection_preserves_other_connections() {
    let conn1 = SavedConnection::new(
        "server1".to_string(),
        "host1.com".to_string(),
        22,
        "user1".to_string(),
        None,
    );
    let conn2 = SavedConnection::new(
        "server2".to_string(),
        "host2.com".to_string(),
        22,
        "user2".to_string(),
        None,
    );
    let conn3 = SavedConnection::new(
        "server3".to_string(),
        "host3.com".to_string(),
        22,
        "user3".to_string(),
        None,
    );
    let connections = vec![conn1, conn2, conn3];

    let updated = SavedConnection::new(
        "server2".to_string(),
        "updated-host.com".to_string(),
        2222,
        "newuser".to_string(),
        None,
    );
    let loaded = update_connection(connections, "server2", updated).unwrap();

    assert_eq!(loaded.len(), 3);
    assert_eq!(loaded[0].host, "host1.com");
    assert_eq!(loaded[1].host, "updated-host.com");
    assert_eq!(loaded[1].port, 2222);
    assert_eq!(loaded[1].username, "newuser");
    assert_eq!(loaded[2].host, "host3.com");
}

#[test]
fn test_add_connection_replaces_same_name() {
    let first = SavedConnection::new(
        "box".to_string(),
        "one.example".to_string(),
        22,
        "root".to_string(),
        None,
    );
    let second = SavedConnection::new(
        "box".to_string(),
        "two.example".to_string(),
        2200,
        "admin".to_string(),
        None,
    );
    let book = add_connection(vec![first], second);
    assert_eq!(book.len(), 1);
    assert_eq!(book[0].host, "two.example");
    assert_eq!(book[0].port, 2200);
}

#[test]
fn test_remove_connection_keeps_others() {
    let a = SavedConnection::new("a".to_string(), "ha".to_string(), 22, "u".to_string(), None);
    let b = SavedConnection::new("b".to_string(), "hb".to_string(), 22, "u".to_string(), None);
    let book = remove_connection(vec![a, b], "a");
    assert_eq!(book.len(), 1);
    assert_eq!(book[0].name, "b");
}

#[test]
fn test_display_name_and_ssh_command() {
    let c = SavedConnection::new(
        "dev".to_string(),
        "dev.example".to_string(),
        2222,
        "me".to_string(),
        None,
    );
    assert_eq!(c.display_name(), "me@dev.example:2222");
    assert_eq!(c.ssh_command(), "ssh -p 2222 me@dev.example");

    let k = SavedConnection::new(
        "dev".to_string(),
        "dev.example".to_string(),
        22,
        "me".to_string(),
        Some("/home/me/.ssh/key".to_string()),
    );
    assert_eq!(k.ssh_command(), "ssh -i /home/me/.ssh/key -p 22 me@dev.example");
}
