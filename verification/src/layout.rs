//! The navigation menus and the builder that assembles them.
//!
//! A menu is a list of [`MenuItem`] trees. [`LayoutBuilder`] assembles one
//! with a chain of calls: `create` opens an item, `icon` and `route` fill in
//! the item opened last, and `insert` closes it and hangs it below the item
//! that was open before it, or at the end of the menu when none was.

use vstd::prelude::*;
use vstd::string::StringExecFns;

verus! {

/// The icons a menu entry can carry. The menu names them; drawing them is
/// the caller's work.
#[derive(Clone, Copy, Debug, PartialEq, Eq, Structural)]
pub enum Icon {
    AdjustmentsHorizontal,
    ChartBarSquare,
    Clock,
    DocumentChartBar,
    Key,
    LockClosed,
    QueueList,
    ShieldCheck,
    Signal,
    Square2x2,
    UserGroup,
    Wrench,
}

/// An entry of a navigation menu.
#[derive(Debug, PartialEq, Eq)]
pub struct MenuItem {
    pub name: String,
    /// Where the entry leads; entries that only group others have none.
    pub route: Option<String>,
    pub icon: Option<Icon>,
    pub children: Vec<MenuItem>,
}

/// Mathematical content of a [`MenuItem`].
#[verifier::ext_equal]
pub struct MenuModel {
    pub name: Seq<char>,
    pub route: Option<Seq<char>>,
    pub icon: Option<Icon>,
    pub children: Seq<MenuModel>,
}

impl MenuItem {
    /// The content of the entry and, recursively, of the entries below it.
    pub open spec fn model(&self) -> MenuModel
        decreases self,
    {
        MenuModel {
            name: self.name@,
            route: match self.route {
                Some(route) => Some(route@),
                None => None,
            },
            icon: self.icon,
            children: Seq::new(
                self.children@.len(),
                |i: int|
                    if 0 <= i < self.children@.len() {
                        self.children@[i].model()
                    } else {
                        arbitrary()
                    },
            ),
        }
    }
}

impl View for MenuItem {
    type V = MenuModel;

    open spec fn view(&self) -> MenuModel {
        self.model()
    }
}

/// Mathematical content of a list of menu entries.
pub open spec fn menu_model(items: Seq<MenuItem>) -> Seq<MenuModel> {
    Seq::new(items.len(), |i: int| items[i]@)
}

impl MenuModel {
    /// An entry that was just opened: a name and nothing else.
    pub open spec fn named(name: Seq<char>) -> MenuModel {
        MenuModel { name, route: None, icon: None, children: Seq::empty() }
    }

    /// The entry with `child` as its new last child.
    pub open spec fn with_child(self, child: MenuModel) -> MenuModel {
        MenuModel { children: self.children.push(child), ..self }
    }
}

/// An entry with an icon that groups `children` and leads nowhere itself.
pub open spec fn group(name: Seq<char>, icon: Icon, children: Seq<MenuModel>) -> MenuModel {
    MenuModel { name, route: None, icon: Some(icon), children }
}

/// An entry without icon that leads to `path` below `section`.
pub open spec fn page(section: Seq<char>, name: Seq<char>, path: Seq<char>) -> MenuModel {
    MenuModel { name, route: Some(section + path), icon: None, children: Seq::empty() }
}

/// An entry with an icon that leads to `route` and groups nothing.
pub open spec fn link(name: Seq<char>, icon: Icon, route: Seq<char>) -> MenuModel {
    MenuModel { name, route: Some(route), icon: Some(icon), children: Seq::empty() }
}

/// Mathematical state of a [`LayoutBuilder`].
#[verifier::ext_equal]
pub struct BuilderModel {
    /// The route of the section the menu belongs to.
    pub parent_route: Seq<char>,
    /// The entries that are finished, in order.
    pub menu_items: Seq<MenuModel>,
    /// The entries that are open, outermost first.
    pub open: Seq<MenuModel>,
}

impl BuilderModel {
    /// An empty menu for the section at `parent_route`.
    pub open spec fn new(parent_route: Seq<char>) -> BuilderModel {
        BuilderModel { parent_route, menu_items: Seq::empty(), open: Seq::empty() }
    }

    /// Opens an entry below the one opened last.
    pub open spec fn create(self, name: Seq<char>) -> BuilderModel {
        BuilderModel { open: self.open.push(MenuModel::named(name)), ..self }
    }

    /// Replaces the entry opened last; nothing happens when none is open.
    pub open spec fn amend(self, entry: MenuModel) -> BuilderModel {
        if self.open.len() > 0 {
            BuilderModel { open: self.open.drop_last().push(entry), ..self }
        } else {
            self
        }
    }

    /// Gives the entry opened last an icon.
    pub open spec fn icon(self, icon: Icon) -> BuilderModel {
        self.amend(MenuModel { icon: Some(icon), ..self.open.last() })
    }

    /// Lets the entry opened last lead to `route` below the section.
    pub open spec fn route(self, route: Seq<char>) -> BuilderModel {
        self.raw_route(self.parent_route + route)
    }

    /// Lets the entry opened last lead to `route` as it stands.
    pub open spec fn raw_route(self, route: Seq<char>) -> BuilderModel {
        self.amend(MenuModel { route: Some(route), ..self.open.last() })
    }

    /// Closes the entry opened last. It becomes the last child of the entry
    /// that was open before it, or the last entry of the menu when none
    /// was. Nothing happens when no entry is open.
    pub open spec fn insert(self) -> BuilderModel {
        if self.open.len() == 0 {
            self
        } else if self.open.len() == 1 {
            BuilderModel {
                menu_items: self.menu_items.push(self.open.last()),
                open: Seq::empty(),
                ..self
            }
        } else {
            let closed = self.open.last();
            let parent = self.open[self.open.len() - 2];
            BuilderModel {
                open: self.open.drop_last().drop_last().push(
                    MenuModel { children: parent.children.push(closed), ..parent },
                ),
                ..self
            }
        }
    }
}

/// Opening an entry at the top of the menu and giving it an icon leaves a
/// group without children as the only open entry.
pub proof fn lemma_group_opened(builder: BuilderModel, name: Seq<char>, icon: Icon)
    requires
        builder.open.len() == 0,
    ensures
        builder.create(name).icon(icon) == (BuilderModel {
            open: seq![group(name, icon, Seq::empty())],
            ..builder
        }),
{
    assert(builder.create(name).icon(icon).open =~= seq![group(name, icon, Seq::empty())]);
}

/// Opening an entry below a group, giving it a route below the section and
/// closing it adds a page as the last child of the group.
pub proof fn lemma_page_added(builder: BuilderModel, name: Seq<char>, path: Seq<char>)
    requires
        builder.open.len() == 1,
    ensures
        builder.create(name).route(path).insert() == (BuilderModel {
            open: seq![builder.open[0].with_child(page(builder.parent_route, name, path))],
            ..builder
        }),
{
    let opened = builder.create(name);
    let routed = opened.route(path);
    assert(routed.open =~= builder.open.push(page(builder.parent_route, name, path)));
    assert(routed.insert().open =~= seq![
        builder.open[0].with_child(page(builder.parent_route, name, path)),
    ]);
}

/// Closing the only open entry makes it the last entry of the menu.
pub proof fn lemma_entry_closed(builder: BuilderModel)
    requires
        builder.open.len() == 1,
    ensures
        builder.insert() == (BuilderModel {
            menu_items: builder.menu_items.push(builder.open[0]),
            open: Seq::empty(),
            ..builder
        }),
{
}

/// Opening an entry at the top of the menu, giving it an icon and a route
/// and closing it adds a link as the last entry of the menu.
pub proof fn lemma_link_added(builder: BuilderModel, name: Seq<char>, icon: Icon, route: Seq<char>)
    requires
        builder.open.len() == 0,
    ensures
        builder.create(name).icon(icon).raw_route(route).insert() == (BuilderModel {
            menu_items: builder.menu_items.push(link(name, icon, route)),
            ..builder
        }),
        builder.create(name).icon(icon).route(route).insert() == (BuilderModel {
            menu_items: builder.menu_items.push(link(name, icon, builder.parent_route + route)),
            ..builder
        }),
{
    lemma_group_opened(builder, name, icon);
    let opened = builder.create(name).icon(icon);
    assert(opened.raw_route(route).open =~= seq![link(name, icon, route)]);
    assert(opened.route(route).open =~= seq![link(name, icon, builder.parent_route + route)]);
    assert(opened.raw_route(route).insert().open =~= builder.open);
    assert(opened.route(route).insert().open =~= builder.open);
}

/// Assembles a navigation menu.
pub struct LayoutBuilder {
    pub parent_route: String,
    /// The entries that are finished.
    pub menu_items: Vec<MenuItem>,
    /// The entries that are open, outermost first.
    pub open: Vec<MenuItem>,
}

impl View for LayoutBuilder {
    type V = BuilderModel;

    open spec fn view(&self) -> BuilderModel {
        BuilderModel {
            parent_route: self.parent_route@,
            menu_items: menu_model(self.menu_items@),
            open: menu_model(self.open@),
        }
    }
}

impl LayoutBuilder {
    /// Starts an empty menu for the section at `parent_route`.
    pub fn new(parent_route: &str) -> (builder: LayoutBuilder)
        ensures
            builder@ == BuilderModel::new(parent_route@),
    {
        let builder = LayoutBuilder {
            parent_route: parent_route.to_owned(),
            menu_items: Vec::new(),
            open: Vec::new(),
        };
        assert(menu_model(builder.menu_items@) == Seq::<MenuModel>::empty());
        assert(menu_model(builder.open@) == Seq::<MenuModel>::empty());
        builder
    }

    /// Opens an entry named `name`.
    pub fn create(self, name: &str) -> (builder: LayoutBuilder)
        ensures
            builder@ == self@.create(name@),
    {
        let mut builder = self;
        let entry = MenuItem { name: name.to_owned(), route: None, icon: None, children: Vec::new() };
        assert(entry@.children == Seq::<MenuModel>::empty());
        builder.open.push(entry);
        assert(menu_model(builder.open@) == menu_model(self.open@).push(MenuModel::named(name@)));
        builder
    }

    /// Gives the entry opened last an icon.
    pub fn icon(self, icon: Icon) -> (builder: LayoutBuilder)
        ensures
            builder@ == self@.icon(icon),
    {
        let mut builder = self;
        match builder.open.pop() {
            Some(entry) => {
                let mut entry = entry;
                entry.icon = Some(icon);
                builder.open.push(entry);
                assert(menu_model(builder.open@) == self@.icon(icon).open);
            },
            None => {
                assert(menu_model(builder.open@) == self@.open);
            },
        }
        builder
    }

    /// Lets the entry opened last lead to `route` below the section.
    pub fn route(self, route: &str) -> (builder: LayoutBuilder)
        ensures
            builder@ == self@.route(route@),
    {
        let target = self.parent_route.clone().concat(route);
        self.lead_to(target)
    }

    /// Lets the entry opened last lead to `route` as it stands.
    pub fn raw_route(self, route: &str) -> (builder: LayoutBuilder)
        ensures
            builder@ == self@.raw_route(route@),
    {
        self.lead_to(route.to_owned())
    }

    fn lead_to(self, target: String) -> (builder: LayoutBuilder)
        ensures
            builder@ == self@.raw_route(target@),
    {
        let mut builder = self;
        match builder.open.pop() {
            Some(entry) => {
                let mut entry = entry;
                entry.route = Some(target);
                builder.open.push(entry);
                assert(menu_model(builder.open@) == self@.raw_route(target@).open);
            },
            None => {
                assert(menu_model(builder.open@) == self@.open);
            },
        }
        builder
    }

    /// Closes the entry opened last.
    pub fn insert(self) -> (builder: LayoutBuilder)
        ensures
            builder@ == self@.insert(),
    {
        let mut builder = self;
        match builder.open.pop() {
            None => {
                assert(menu_model(builder.open@) == self@.open);
            },
            Some(closed) => {
                match builder.open.pop() {
                    None => {
                        builder.menu_items.push(closed);
                        assert(menu_model(builder.open@) == Seq::<MenuModel>::empty());
                        assert(menu_model(builder.menu_items@) == self@.insert().menu_items);
                    },
                    Some(parent) => {
                        let ghost before = parent;
                        assert(before@ == self@.open[self@.open.len() - 2]);
                        let mut parent = parent;
                        parent.children.push(closed);
                        assert(parent@.children == before@.children.push(closed@));
                        builder.open.push(parent);
                        assert(menu_model(builder.open@) == self@.insert().open);
                    },
                }
            },
        }
        builder
    }
}

} // verus!
