//! The guarded sections of the application and the pages nested in them.
//!
//! Three sections are guarded. The management section and the account
//! section open to anyone with a session; every management page and the
//! whole settings section need administrative scope. Every guard falls back
//! to the login route.

use crate::guard::{Access, DecisionModel, GuardNode, Predicate};
use vstd::prelude::*;

verus! {

/// Where every guard of the application redirects to.
pub const LOGIN_ROUTE: &'static str = "/login";

/// Path of the management section.
pub const MANAGE_ROUTE: &'static str = "/manage";

/// Path of the settings section.
pub const SETTINGS_ROUTE: &'static str = "/settings";

/// Path of the account section.
pub const ACCOUNT_ROUTE: &'static str = "/account";

/// The pages of the management section, in order.
pub open spec fn manage_pages() -> Seq<Seq<char>> {
    seq![
        "/directory/domains"@,
        "/directory/domains/edit"@,
        "/directory/domains/:id/view"@,
        "/directory/:object"@,
        "/directory/:object/:id?/edit"@,
        "/queue/messages"@,
        "/queue/message/:id"@,
        "/queue/reports"@,
        "/queue/report/:id"@,
        "/reports/:object"@,
        "/reports/:object/:id"@,
        "/logs"@,
        "/spam/train"@,
        "/spam/test"@,
        "/maintenance"@,
    ]
}

/// The pages of the settings section, in order.
pub open spec fn settings_pages() -> Seq<Seq<char>> {
    seq!["/:object"@, "/:object/:id?/edit"@, "/search"@]
}

/// The pages of the account section, in order.
pub open spec fn account_pages() -> Seq<Seq<char>> {
    seq!["/crypto"@, "/password"@, "/mfa"@, "/app-passwords"@, "/app-passwords/edit"@]
}

/// `node` guards the page at `path` with `predicate`, falls back to the
/// login route and has nothing nested in it.
pub open spec fn is_page(node: GuardNode, path: Seq<char>, predicate: Predicate) -> bool {
    &&& node.path@ == path
    &&& node.predicate == predicate
    &&& node.fallback@ == LOGIN_ROUTE@
    &&& node.children@.len() == 0
}

/// `node` guards the section at `path` with `predicate`, falls back to the
/// login route and nests exactly `pages`, in order, each guarded with
/// `page_predicate`.
pub open spec fn is_section(
    node: GuardNode,
    path: Seq<char>,
    predicate: Predicate,
    pages: Seq<Seq<char>>,
    page_predicate: Predicate,
) -> bool {
    &&& node.path@ == path
    &&& node.predicate == predicate
    &&& node.fallback@ == LOGIN_ROUTE@
    &&& node.children@.len() == pages.len()
    &&& forall|i: int|
        0 <= i < pages.len() ==> is_page(#[trigger] node.children@[i], pages[i], page_predicate)
}

/// The guarded sections of the application: management, settings and
/// account, in this order.
pub open spec fn is_route_table(routes: Seq<GuardNode>) -> bool {
    &&& routes.len() == 3
    &&& is_section(
        routes[0],
        MANAGE_ROUTE@,
        Predicate::IsLoggedIn,
        manage_pages(),
        Predicate::IsAdmin,
    )
    &&& is_section(
        routes[1],
        SETTINGS_ROUTE@,
        Predicate::IsAdmin,
        settings_pages(),
        Predicate::IsAdmin,
    )
    &&& is_section(
        routes[2],
        ACCOUNT_ROUTE@,
        Predicate::IsLoggedIn,
        account_pages(),
        Predicate::IsLoggedIn,
    )
}

/// The paths that a list of string slices spells.
pub open spec fn spelled(pages: Seq<&'static str>) -> Seq<Seq<char>> {
    Seq::new(pages.len(), |i: int| pages[i]@)
}

/// Builds a section whose pages all carry the same guard.
pub fn section(
    path: &str,
    predicate: Predicate,
    pages: &Vec<&'static str>,
    page_predicate: Predicate,
) -> (node: GuardNode)
    ensures
        is_section(node, path@, predicate, spelled(pages@), page_predicate),
{
    let mut node = GuardNode::new(path, predicate, LOGIN_ROUTE);
    let mut placed: usize = 0;
    while placed < pages.len()
        invariant
            placed <= pages.len(),
            node.path@ == path@,
            node.predicate == predicate,
            node.fallback@ == LOGIN_ROUTE@,
            node.children@.len() == placed,
            forall|i: int|
                0 <= i < placed ==> is_page(
                    #[trigger] node.children@[i],
                    pages@[i]@,
                    page_predicate,
                ),
        decreases pages.len() - placed,
    {
        let page = GuardNode::new(pages[placed], page_predicate, LOGIN_ROUTE);
        node = node.with_child(page);
        placed = placed + 1;
    }
    node
}

/// The management section: open to any session, every page for
/// administrators only.
pub fn manage_routes() -> (node: GuardNode)
    ensures
        is_section(
            node,
            MANAGE_ROUTE@,
            Predicate::IsLoggedIn,
            manage_pages(),
            Predicate::IsAdmin,
        ),
{
    let pages = vec![
        "/directory/domains",
        "/directory/domains/edit",
        "/directory/domains/:id/view",
        "/directory/:object",
        "/directory/:object/:id?/edit",
        "/queue/messages",
        "/queue/message/:id",
        "/queue/reports",
        "/queue/report/:id",
        "/reports/:object",
        "/reports/:object/:id",
        "/logs",
        "/spam/train",
        "/spam/test",
        "/maintenance",
    ];
    assert(spelled(pages@) == manage_pages());
    section(MANAGE_ROUTE, Predicate::IsLoggedIn, &pages, Predicate::IsAdmin)
}

/// The settings section: for administrators only, pages included.
pub fn settings_routes() -> (node: GuardNode)
    ensures
        is_section(
            node,
            SETTINGS_ROUTE@,
            Predicate::IsAdmin,
            settings_pages(),
            Predicate::IsAdmin,
        ),
{
    let pages = vec!["/:object", "/:object/:id?/edit", "/search"];
    assert(spelled(pages@) == settings_pages());
    section(SETTINGS_ROUTE, Predicate::IsAdmin, &pages, Predicate::IsAdmin)
}

/// The account section: open to any session, pages included.
pub fn account_routes() -> (node: GuardNode)
    ensures
        is_section(
            node,
            ACCOUNT_ROUTE@,
            Predicate::IsLoggedIn,
            account_pages(),
            Predicate::IsLoggedIn,
        ),
{
    let pages = vec!["/crypto", "/password", "/mfa", "/app-passwords", "/app-passwords/edit"];
    assert(spelled(pages@) == account_pages());
    section(ACCOUNT_ROUTE, Predicate::IsLoggedIn, &pages, Predicate::IsLoggedIn)
}

/// The guarded sections of the application: management, settings, account.
pub fn protected_routes() -> (sections: Vec<GuardNode>)
    ensures
        is_route_table(sections@),
{
    let mut sections = Vec::new();
    sections.push(manage_routes());
    sections.push(settings_routes());
    sections.push(account_routes());
    sections
}

/// Whatever the session, a guarded route of the application is either
/// rendered or left for the login route: no guard redirects anywhere else.
pub proof fn law_redirects_lead_to_login(
    routes: Seq<GuardNode>,
    section: int,
    trail: Seq<usize>,
    access: Access,
)
    requires
        is_route_table(routes),
        0 <= section < 3,
    ensures
        routes[section].decide(trail, access) matches Some(decided) ==> decided
            == DecisionModel::Render || decided == DecisionModel::Redirect(LOGIN_ROUTE@),
{
    let node = routes[section];
    if trail.len() > 0 && trail[0] < node.children@.len() {
        let page = node.children@[trail[0] as int];
        assert(page.children@.len() == 0);
        assert(page.fallback@ == LOGIN_ROUTE@);
        let rest = trail.drop_first();
        if rest.len() == 0 {
        } else {
            assert(page.decide(rest, access) is None);
        }
    }
}

/// Without administrative scope no page of the management section and no
/// route of the settings section is rendered, and without a session none of
/// any section is.
pub proof fn law_scope_is_needed(routes: Seq<GuardNode>, page: usize, access: Access)
    requires
        is_route_table(routes),
    ensures
        !access.admin && page < manage_pages().len() ==> routes[0].decide(seq![page], access)
            == Some(DecisionModel::Redirect(LOGIN_ROUTE@)),
        !access.admin ==> routes[1].decide(Seq::empty(), access) == Some(
            DecisionModel::Redirect(LOGIN_ROUTE@),
        ),
        !access.admin && page < settings_pages().len() ==> routes[1].decide(seq![page], access)
            == Some(DecisionModel::Redirect(LOGIN_ROUTE@)),
        !access.logged_in ==> routes[2].decide(Seq::empty(), access) == Some(
            DecisionModel::Redirect(LOGIN_ROUTE@),
        ),
        !access.logged_in && page < account_pages().len() ==> routes[2].decide(
            seq![page],
            access,
        ) == Some(DecisionModel::Redirect(LOGIN_ROUTE@)),
        !access.logged_in ==> routes[0].decide(Seq::empty(), access) == Some(
            DecisionModel::Redirect(LOGIN_ROUTE@),
        ),
{
    reveal_with_fuel(GuardNode::decide, 2);
    let trail = seq![page];
    assert(trail.drop_first().len() == 0);
    assert(trail[0] == page);
    if page < manage_pages().len() {
        assert(is_page(
            routes[0].children@[page as int],
            manage_pages()[page as int],
            Predicate::IsAdmin,
        ));
    }
    if page < settings_pages().len() {
        assert(is_page(
            routes[1].children@[page as int],
            settings_pages()[page as int],
            Predicate::IsAdmin,
        ));
    }
    if page < account_pages().len() {
        assert(is_page(
            routes[2].children@[page as int],
            account_pages()[page as int],
            Predicate::IsLoggedIn,
        ));
    }
}

} // verus!
