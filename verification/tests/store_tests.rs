//! Tests of the admin store, on an in-memory database.

use keysas::cert::CertificateFields;
use keysas::store::{
    extract_ssh_paths, get_ssh, get_station_ip_by_name, get_station_list, init_store,
    pki_config_query, set_pki_config, set_ssh, set_ssh_query, set_station, set_station_query,
    station_ip_query, stations_from_rows, SqlRow, StoreError,
};

fn row(cells: &[(&str, Option<&str>)]) -> SqlRow {
    cells.iter().map(|(k, v)| (k.to_string(), v.map(|s| s.to_string()))).collect()
}

#[test]
fn station_round_trip() {
    let store = init_store(":memory:").expect("open");
    set_station(&store, &"station1".to_string(), &"10.0.0.1".to_string()).expect("set");
    let ip = get_station_ip_by_name(&store, &"station1".to_string()).expect("get");
    assert_eq!(ip, "10.0.0.1");
}

#[test]
fn missing_station_is_not_found() {
    let store = init_store(":memory:").expect("open");
    assert_eq!(
        get_station_ip_by_name(&store, &"nobody".to_string()),
        Err(StoreError::NotFound)
    );
}

#[test]
fn station_list_returns_all_records() {
    let store = init_store(":memory:").expect("open");
    set_station(&store, &"one".to_string(), &"10.0.0.1".to_string()).expect("set");
    set_station(&store, &"two".to_string(), &"10.0.0.2".to_string()).expect("set");
    let list = get_station_list(&store).expect("list");
    assert_eq!(list.len(), 2);
    let mut names: Vec<String> = list.iter().map(|s| s.name.clone()).collect();
    names.sort();
    assert_eq!(names, vec!["one".to_string(), "two".to_string()]);
}

#[test]
fn ssh_paths_must_exist_on_disk() {
    let store = init_store(":memory:").expect("open");
    assert_eq!(
        set_ssh(
            &store,
            &"/nonexistent/key.pub".to_string(),
            &"/nonexistent/key".to_string(),
        ),
        Err(StoreError::InvalidPaths)
    );
}

#[test]
fn ssh_paths_absent_means_not_found() {
    let store = init_store(":memory:").expect("open");
    assert_eq!(get_ssh(&store), Err(StoreError::NotFound));
}

#[test]
fn extract_ssh_paths_requires_both() {
    let public = vec![row(&[("name", Some("public")), ("path", Some("/a/pub"))])];
    let private = vec![row(&[("name", Some("private")), ("path", Some("/a/priv"))])];
    let empty: Vec<SqlRow> = Vec::new();
    let (pu, pr) = extract_ssh_paths(&public, &private).expect("both present");
    assert_eq!(pu, "/a/pub");
    assert_eq!(pr, "/a/priv");
    assert_eq!(extract_ssh_paths(&public, &empty), Err(StoreError::NotFound));
    assert_eq!(extract_ssh_paths(&empty, &private), Err(StoreError::NotFound));
}

#[test]
fn stations_from_rows_reads_name_and_ip() {
    let rows = vec![
        row(&[("name", Some("one")), ("ip", Some("10.0.0.1"))]),
        row(&[("name", Some("two")), ("ip", None)]),
    ];
    let stations = stations_from_rows(&rows);
    assert_eq!(stations.len(), 2);
    assert_eq!(stations[0].name, "one");
    assert_eq!(stations[0].ip, "10.0.0.1");
    assert_eq!(stations[1].name, "two");
    assert_eq!(stations[1].ip, "");
}

#[test]
fn query_builders_produce_the_exact_statements() {
    assert_eq!(
        set_ssh_query(&"/a/pub".to_string(), &"/a/priv".to_string()),
        "REPLACE INTO ssh_table (name, path) VALUES ('public', '/a/pub'), ('private', '/a/priv');"
    );
    assert_eq!(
        set_station_query(&"one".to_string(), &"10.0.0.1".to_string()),
        "REPLACE INTO station_table (name, ip) VALUES ('one', '10.0.0.1');"
    );
    assert_eq!(
        station_ip_query(&"one".to_string()),
        "SELECT * FROM station_table WHERE name = 'one';"
    );
    let infos = CertificateFields {
        org_name: "ACME".to_string(),
        org_unit: "Lab".to_string(),
        country: "FR".to_string(),
        validity: 365,
    };
    assert_eq!(
        pki_config_query(&"/etc/pki".to_string(), &infos),
        "REPLACE INTO ca_table (param, value) VALUES ('directory', '/etc/pki'), \
         ('org_name', 'ACME'), ('org_unit', 'Lab'), ('country', 'FR'), ('validity', '365');"
    );
}

#[test]
fn pki_config_is_stored() {
    let store = init_store(":memory:").expect("open");
    let infos = CertificateFields {
        org_name: "ACME".to_string(),
        org_unit: "Lab".to_string(),
        country: "FR".to_string(),
        validity: 365,
    };
    set_pki_config(&store, &"/etc/pki".to_string(), &infos).expect("set");
}

#[test]
fn unreachable_database_cannot_be_opened() {
    match init_store("/nonexistent_dir_for_this_test/store.db") {
        Err(StoreError::OpenFailure) => (),
        Err(other) => panic!("expected an open failure, got {other:?}"),
        Ok(_) => panic!("expected an open failure"),
    }
}
