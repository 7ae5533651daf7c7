use ddapi_rs::ddnet::{Client, Info, Master, Server};

fn client(name: &str, clan: &str) -> Client {
    Client { name: name.to_string(), clan: clan.to_string(), ..Default::default() }
}

fn server(clients: Vec<Client>) -> Server {
    Server { info: Info { clients, ..Default::default() }, ..Default::default() }
}

#[test]
fn count_clients_sums_all_servers() {
    let m = Master {
        servers: vec![
            server(vec![client("a", "X"), client("b", "Y")]),
            server(vec![]),
            server(vec![client("c", "X")]),
        ],
    };
    assert_eq!(m.count_clients(), 3);
    assert_eq!(m.servers[0].count_client(), 2);
    assert_eq!(m.servers[1].count_client(), 0);
}

#[test]
fn get_clans_counts_and_sorts_descending() {
    let m = Master {
        servers: vec![
            server(vec![client("a", "Alpha"), client("b", "Beta"), client("c", "Alpha")]),
            server(vec![client("d", "Alpha"), client("e", "Beta"), client("f", "Gamma")]),
        ],
    };
    let clans = m.get_clans();
    assert_eq!(clans.len(), 3);
    assert_eq!(clans[0].name, "Alpha");
    assert_eq!(clans[0].count, 3);
    assert_eq!(clans[1].name, "Beta");
    assert_eq!(clans[1].count, 2);
    assert_eq!(clans[2].name, "Gamma");
    assert_eq!(clans[2].count, 1);
}

#[test]
fn get_clans_skips_empty_clan_names() {
    let m = Master {
        servers: vec![server(vec![client("a", ""), client("b", ""), client("c", "Solo")])],
    };
    let clans = m.get_clans();
    assert_eq!(clans.len(), 1);
    assert_eq!(clans[0].name, "Solo");
    assert_eq!(clans[0].count, 1);
}

#[test]
fn get_clans_applies_default_removal_list() {
    let m = Master {
        servers: vec![server(vec![
            client("a", "DD-Persian"),
            client("b", "DD-Persian"),
            client("c", "Keep"),
        ])],
    };
    let clans = m.get_clans();
    assert_eq!(clans.len(), 1);
    assert_eq!(clans[0].name, "Keep");
}

#[test]
fn get_clans_with_custom_removal_list() {
    let m = Master {
        servers: vec![server(vec![
            client("a", "Alpha"),
            client("b", "Alpha"),
            client("c", "Beta"),
            client("d", "DD-Persian"),
        ])],
    };
    let clans = m.get_clans_with_custom_rm(Some(vec!["Alpha"]));
    // the custom list replaces the default, so "DD-Persian" is counted again
    assert_eq!(clans.len(), 2);
    assert_eq!(clans[0].count, 1);
    assert_eq!(clans[1].count, 1);
    let names: Vec<&str> = clans.iter().map(|c| c.name.as_str()).collect();
    assert!(names.contains(&"Beta"));
    assert!(names.contains(&"DD-Persian"));
    assert!(!names.contains(&"Alpha"));
}

#[test]
fn get_clans_empty_master_list() {
    let m = Master { servers: vec![] };
    assert_eq!(m.get_clans().len(), 0);
    assert_eq!(m.count_clients(), 0);
}
