//! The navigation menus of the management section and of the account
//! section.

use crate::layout::{
    group, lemma_entry_closed, lemma_group_opened, lemma_link_added, lemma_page_added, link,
    menu_model, page, BuilderModel, Icon, LayoutBuilder, MenuItem, MenuModel,
};
use crate::routes::{ACCOUNT_ROUTE, MANAGE_ROUTE};
use vstd::prelude::*;

verus! {

/// The dashboard entry of the management menu.
pub open spec fn dashboard_entry() -> MenuModel {
    let at = MANAGE_ROUTE@;
    group(
        "Dashboard"@,
        Icon::ChartBarSquare,
        seq![
            page(at, "Overview"@, "/dashboard/overview"@),
            page(at, "Network"@, "/dashboard/network"@),
            page(at, "Security"@, "/dashboard/security"@),
            page(at, "Delivery"@, "/dashboard/delivery"@),
            page(at, "Performance"@, "/dashboard/performance"@),
        ],
    )
}

/// The directory entry of the management menu.
pub open spec fn directory_entry() -> MenuModel {
    let at = MANAGE_ROUTE@;
    group(
        "Directory"@,
        Icon::UserGroup,
        seq![
            page(at, "Accounts"@, "/directory/accounts"@),
            page(at, "Groups"@, "/directory/groups"@),
            page(at, "Lists"@, "/directory/lists"@),
            page(at, "Domains"@, "/directory/domains"@),
        ],
    )
}

/// The queues entry of the management menu.
pub open spec fn queues_entry() -> MenuModel {
    let at = MANAGE_ROUTE@;
    group(
        "Queues"@,
        Icon::QueueList,
        seq![page(at, "Messages"@, "/queue/messages"@), page(at, "Reports"@, "/queue/reports"@)],
    )
}

/// The reports entry of the management menu.
pub open spec fn reports_entry() -> MenuModel {
    let at = MANAGE_ROUTE@;
    group(
        "Reports"@,
        Icon::DocumentChartBar,
        seq![
            page(at, "DMARC Aggregate"@, "/reports/dmarc"@),
            page(at, "TLS Aggregate"@, "/reports/tls"@),
            page(at, "Failures"@, "/reports/arf"@),
        ],
    )
}

/// The history entry of the management menu.
pub open spec fn history_entry() -> MenuModel {
    let at = MANAGE_ROUTE@;
    group(
        "History"@,
        Icon::Clock,
        seq![
            page(at, "Received Messages"@, "/tracing/received"@),
            page(at, "Delivery Attempts"@, "/tracing/delivery"@),
        ],
    )
}

/// The telemetry entry of the management menu.
pub open spec fn telemetry_entry() -> MenuModel {
    let at = MANAGE_ROUTE@;
    group(
        "Telemetry"@,
        Icon::Signal,
        seq![page(at, "Logs"@, "/logs"@), page(at, "Live tracing"@, "/tracing/live"@)],
    )
}

/// The antispam entry of the management menu.
pub open spec fn antispam_entry() -> MenuModel {
    let at = MANAGE_ROUTE@;
    group(
        "Antispam"@,
        Icon::ShieldCheck,
        seq![page(at, "Train"@, "/spam/train"@), page(at, "Test"@, "/spam/test"@)],
    )
}

/// The menu of the management section. Its settings entry leads to
/// `settings_url`, which lies outside the section.
pub open spec fn manage_menu(settings_url: Seq<char>) -> Seq<MenuModel> {
    seq![
        dashboard_entry(),
        directory_entry(),
        queues_entry(),
        reports_entry(),
        history_entry(),
        telemetry_entry(),
        antispam_entry(),
        link("Settings"@, Icon::AdjustmentsHorizontal, settings_url),
        link("Maintenance"@, Icon::Wrench, MANAGE_ROUTE@ + "/maintenance"@),
    ]
}

/// The menu of the account section.
pub open spec fn account_menu() -> Seq<MenuModel> {
    let at = ACCOUNT_ROUTE@;
    seq![
        link("Encryption-at-rest"@, Icon::LockClosed, at + "/crypto"@),
        link("Change Password"@, Icon::Key, at + "/password"@),
        link("Two-factor Auth"@, Icon::ShieldCheck, at + "/mfa"@),
        link("App Passwords"@, Icon::Square2x2, at + "/app-passwords"@),
    ]
}

impl LayoutBuilder {
    /// Builds the menu of the management section.
    pub fn manage(settings_url: &str) -> (menu: Vec<MenuItem>)
        ensures
            menu_model(menu@) == manage_menu(settings_url@),
    {
        let menu = LayoutBuilder::new(MANAGE_ROUTE)
            .create("Dashboard")
            .icon(Icon::ChartBarSquare)
            .create("Overview")
            .route("/dashboard/overview")
            .insert()
            .create("Network")
            .route("/dashboard/network")
            .insert()
            .create("Security")
            .route("/dashboard/security")
            .insert()
            .create("Delivery")
            .route("/dashboard/delivery")
            .insert()
            .create("Performance")
            .route("/dashboard/performance")
            .insert()
            .insert()
            .create("Directory")
            .icon(Icon::UserGroup)
            .create("Accounts")
            .route("/directory/accounts")
            .insert()
            .create("Groups")
            .route("/directory/groups")
            .insert()
            .create("Lists")
            .route("/directory/lists")
            .insert()
            .create("Domains")
            .route("/directory/domains")
            .insert()
            .insert()
            .create("Queues")
            .icon(Icon::QueueList)
            .create("Messages")
            .route("/queue/messages")
            .insert()
            .create("Reports")
            .route("/queue/reports")
            .insert()
            .insert()
            .create("Reports")
            .icon(Icon::DocumentChartBar)
            .create("DMARC Aggregate")
            .route("/reports/dmarc")
            .insert()
            .create("TLS Aggregate")
            .route("/reports/tls")
            .insert()
            .create("Failures")
            .route("/reports/arf")
            .insert()
            .insert()
            .create("History")
            .icon(Icon::Clock)
            .create("Received Messages")
            .route("/tracing/received")
            .insert()
            .create("Delivery Attempts")
            .route("/tracing/delivery")
            .insert()
            .insert()
            .create("Telemetry")
            .icon(Icon::Signal)
            .create("Logs")
            .route("/logs")
            .insert()
            .create("Live tracing")
            .route("/tracing/live")
            .insert()
            .insert()
            .create("Antispam")
            .icon(Icon::ShieldCheck)
            .create("Train")
            .route("/spam/train")
            .insert()
            .create("Test")
            .route("/spam/test")
            .insert()
            .insert()
            .create("Settings")
            .icon(Icon::AdjustmentsHorizontal)
            .raw_route(settings_url)
            .insert()
            .create("Maintenance")
            .icon(Icon::Wrench)
            .route("/maintenance")
            .insert();
        proof {
            // The chain again, on the model, one entry at a time.
            let mut at = BuilderModel::new(MANAGE_ROUTE@);
            lemma_group_opened(at, "Dashboard"@, Icon::ChartBarSquare);
            at = at.create("Dashboard"@).icon(Icon::ChartBarSquare);
            lemma_page_added(at, "Overview"@, "/dashboard/overview"@);
            at = at.create("Overview"@).route("/dashboard/overview"@).insert();
            lemma_page_added(at, "Network"@, "/dashboard/network"@);
            at = at.create("Network"@).route("/dashboard/network"@).insert();
            lemma_page_added(at, "Security"@, "/dashboard/security"@);
            at = at.create("Security"@).route("/dashboard/security"@).insert();
            lemma_page_added(at, "Delivery"@, "/dashboard/delivery"@);
            at = at.create("Delivery"@).route("/dashboard/delivery"@).insert();
            lemma_page_added(at, "Performance"@, "/dashboard/performance"@);
            at = at.create("Performance"@).route("/dashboard/performance"@).insert();
            assert(at.open[0].children =~= dashboard_entry().children);
            lemma_entry_closed(at);
            at = at.insert();
            lemma_group_opened(at, "Directory"@, Icon::UserGroup);
            at = at.create("Directory"@).icon(Icon::UserGroup);
            lemma_page_added(at, "Accounts"@, "/directory/accounts"@);
            at = at.create("Accounts"@).route("/directory/accounts"@).insert();
            lemma_page_added(at, "Groups"@, "/directory/groups"@);
            at = at.create("Groups"@).route("/directory/groups"@).insert();
            lemma_page_added(at, "Lists"@, "/directory/lists"@);
            at = at.create("Lists"@).route("/directory/lists"@).insert();
            lemma_page_added(at, "Domains"@, "/directory/domains"@);
            at = at.create("Domains"@).route("/directory/domains"@).insert();
            assert(at.open[0].children =~= directory_entry().children);
            lemma_entry_closed(at);
            at = at.insert();
            lemma_group_opened(at, "Queues"@, Icon::QueueList);
            at = at.create("Queues"@).icon(Icon::QueueList);
            lemma_page_added(at, "Messages"@, "/queue/messages"@);
            at = at.create("Messages"@).route("/queue/messages"@).insert();
            lemma_page_added(at, "Reports"@, "/queue/reports"@);
            at = at.create("Reports"@).route("/queue/reports"@).insert();
            assert(at.open[0].children =~= queues_entry().children);
            lemma_entry_closed(at);
            at = at.insert();
            lemma_group_opened(at, "Reports"@, Icon::DocumentChartBar);
            at = at.create("Reports"@).icon(Icon::DocumentChartBar);
            lemma_page_added(at, "DMARC Aggregate"@, "/reports/dmarc"@);
            at = at.create("DMARC Aggregate"@).route("/reports/dmarc"@).insert();
            lemma_page_added(at, "TLS Aggregate"@, "/reports/tls"@);
            at = at.create("TLS Aggregate"@).route("/reports/tls"@).insert();
            lemma_page_added(at, "Failures"@, "/reports/arf"@);
            at = at.create("Failures"@).route("/reports/arf"@).insert();
            assert(at.open[0].children =~= reports_entry().children);
            lemma_entry_closed(at);
            at = at.insert();
            lemma_group_opened(at, "History"@, Icon::Clock);
            at = at.create("History"@).icon(Icon::Clock);
            lemma_page_added(at, "Received Messages"@, "/tracing/received"@);
            at = at.create("Received Messages"@).route("/tracing/received"@).insert();
            lemma_page_added(at, "Delivery Attempts"@, "/tracing/delivery"@);
            at = at.create("Delivery Attempts"@).route("/tracing/delivery"@).insert();
            assert(at.open[0].children =~= history_entry().children);
            lemma_entry_closed(at);
            at = at.insert();
            lemma_group_opened(at, "Telemetry"@, Icon::Signal);
            at = at.create("Telemetry"@).icon(Icon::Signal);
            lemma_page_added(at, "Logs"@, "/logs"@);
            at = at.create("Logs"@).route("/logs"@).insert();
            lemma_page_added(at, "Live tracing"@, "/tracing/live"@);
            at = at.create("Live tracing"@).route("/tracing/live"@).insert();
            assert(at.open[0].children =~= telemetry_entry().children);
            lemma_entry_closed(at);
            at = at.insert();
            lemma_group_opened(at, "Antispam"@, Icon::ShieldCheck);
            at = at.create("Antispam"@).icon(Icon::ShieldCheck);
            lemma_page_added(at, "Train"@, "/spam/train"@);
            at = at.create("Train"@).route("/spam/train"@).insert();
            lemma_page_added(at, "Test"@, "/spam/test"@);
            at = at.create("Test"@).route("/spam/test"@).insert();
            assert(at.open[0].children =~= antispam_entry().children);
            lemma_entry_closed(at);
            at = at.insert();
            lemma_link_added(at, "Settings"@, Icon::AdjustmentsHorizontal, settings_url@);
            at = at.create("Settings"@).icon(Icon::AdjustmentsHorizontal).raw_route(
                settings_url@,
            ).insert();
            lemma_link_added(at, "Maintenance"@, Icon::Wrench, "/maintenance"@);
            at = at.create("Maintenance"@).icon(Icon::Wrench).route("/maintenance"@).insert();
            assert(at.menu_items =~= manage_menu(settings_url@));
            assert(menu@ == at);
        }
        menu.menu_items
    }

    /// Builds the menu of the account section.
    pub fn account() -> (menu: Vec<MenuItem>)
        ensures
            menu_model(menu@) == account_menu(),
    {
        LayoutBuilder::new(ACCOUNT_ROUTE)
            .create("Encryption-at-rest")
            .icon(Icon::LockClosed)
            .route("/crypto")
            .insert()
            .create("Change Password")
            .icon(Icon::Key)
            .route("/password")
            .insert()
            .create("Two-factor Auth")
            .icon(Icon::ShieldCheck)
            .route("/mfa")
            .insert()
            .create("App Passwords")
            .icon(Icon::Square2x2)
            .route("/app-passwords")
            .insert()
            .menu_items
    }
}

} // verus!
