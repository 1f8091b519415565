use webadmin_session::layout::{Icon, LayoutBuilder, MenuItem};

fn entry(name: &str, route: Option<&str>, icon: Option<Icon>, children: Vec<MenuItem>) -> MenuItem {
    MenuItem {
        name: name.to_string(),
        route: route.map(|route| route.to_string()),
        icon,
        children,
    }
}

#[test]
fn a_new_builder_is_empty() {
    let builder = LayoutBuilder::new("/manage");
    assert_eq!(builder.parent_route, "/manage");
    assert!(builder.menu_items.is_empty());
    assert!(builder.open.is_empty());
}

#[test]
fn create_opens_a_bare_entry() {
    let builder = LayoutBuilder::new("/manage").create("Logs");
    assert!(builder.menu_items.is_empty());
    assert_eq!(builder.open, vec![entry("Logs", None, None, vec![])]);
}

#[test]
fn route_is_placed_below_the_section() {
    let menu = LayoutBuilder::new("/manage").create("Logs").route("/logs").insert().menu_items;
    assert_eq!(menu, vec![entry("Logs", Some("/manage/logs"), None, vec![])]);
}

#[test]
fn raw_route_is_taken_as_it_stands() {
    let menu = LayoutBuilder::new("/manage")
        .create("Settings")
        .raw_route("/settings/all")
        .insert()
        .menu_items;
    assert_eq!(menu, vec![entry("Settings", Some("/settings/all"), None, vec![])]);
}

#[test]
fn the_last_route_and_icon_win() {
    let menu = LayoutBuilder::new("/a")
        .create("X")
        .icon(Icon::Key)
        .route("/one")
        .raw_route("/two")
        .icon(Icon::Clock)
        .insert()
        .menu_items;
    assert_eq!(menu, vec![entry("X", Some("/two"), Some(Icon::Clock), vec![])]);
}

#[test]
fn insert_hangs_an_entry_below_the_one_opened_before() {
    let menu = LayoutBuilder::new("/manage")
        .create("Queues")
        .icon(Icon::QueueList)
        .create("Messages")
        .route("/queue/messages")
        .insert()
        .create("Reports")
        .route("/queue/reports")
        .insert()
        .insert()
        .create("Maintenance")
        .icon(Icon::Wrench)
        .route("/maintenance")
        .insert()
        .menu_items;
    assert_eq!(
        menu,
        vec![
            entry(
                "Queues",
                None,
                Some(Icon::QueueList),
                vec![
                    entry("Messages", Some("/manage/queue/messages"), None, vec![]),
                    entry("Reports", Some("/manage/queue/reports"), None, vec![]),
                ],
            ),
            entry("Maintenance", Some("/manage/maintenance"), Some(Icon::Wrench), vec![]),
        ]
    );
}

#[test]
fn entries_nest_as_deep_as_they_are_opened() {
    let builder = LayoutBuilder::new("/s").create("A").create("B").create("C").route("/c");
    assert_eq!(builder.open.len(), 3);
    let builder = builder.insert();
    assert_eq!(builder.open.len(), 2);
    assert_eq!(builder.open[1], entry("B", None, None, vec![entry("C", Some("/s/c"), None, vec![])]));
    let menu = builder.insert().insert().menu_items;
    assert_eq!(
        menu,
        vec![entry(
            "A",
            None,
            None,
            vec![entry("B", None, None, vec![entry("C", Some("/s/c"), None, vec![])])],
        )]
    );
}

#[test]
fn an_entry_left_open_is_not_part_of_the_menu() {
    let builder = LayoutBuilder::new("/s").create("A").route("/a").insert().create("B");
    assert_eq!(builder.menu_items, vec![entry("A", Some("/s/a"), None, vec![])]);
    assert_eq!(builder.open, vec![entry("B", None, None, vec![])]);
}

#[test]
fn calls_without_an_open_entry_change_nothing() {
    let builder = LayoutBuilder::new("/s").icon(Icon::Key).route("/x").raw_route("/y").insert();
    assert_eq!(builder.parent_route, "/s");
    assert!(builder.menu_items.is_empty());
    assert!(builder.open.is_empty());

    let builder = LayoutBuilder::new("/s").create("A").insert().insert().icon(Icon::Key);
    assert_eq!(builder.menu_items, vec![entry("A", None, None, vec![])]);
    assert!(builder.open.is_empty());
}
