//! Guards on route subtrees.
//!
//! A guarded subtree is a [`GuardNode`]: a path segment, the predicate that
//! must hold to enter it, the route to fall back to when it does not, and the
//! subtrees nested in it. Guards compose by conjunction: a nested route is
//! rendered only if the predicate of every node on the way down to it holds,
//! and the first node whose predicate fails names the redirect.

use crate::token::TokenModel;
use vstd::prelude::*;

verus! {

/// The derived views of the session that guards are evaluated against.
#[derive(Clone, Copy, Debug, PartialEq, Eq, Structural)]
pub struct Access {
    pub logged_in: bool,
    pub admin: bool,
}

impl Access {
    /// The derived views of a record.
    pub open spec fn of(record: TokenModel) -> Access {
        Access { logged_in: record.logged_in(), admin: record.admin() }
    }
}

/// The condition a guard puts on the session.
#[derive(Clone, Copy, Debug, PartialEq, Eq, Structural)]
pub enum Predicate {
    IsLoggedIn,
    IsAdmin,
}

impl Predicate {
    /// Whether the predicate holds of the derived views.
    pub open spec fn holds(self, access: Access) -> bool {
        match self {
            Predicate::IsLoggedIn => access.logged_in,
            Predicate::IsAdmin => access.admin,
        }
    }

    /// Evaluates the predicate.
    pub fn check(&self, access: Access) -> (ok: bool)
        ensures
            ok == self.holds(access),
    {
        match self {
            Predicate::IsLoggedIn => access.logged_in,
            Predicate::IsAdmin => access.admin,
        }
    }
}

/// What a guard decides.
#[derive(Debug, PartialEq, Eq)]
pub enum Decision {
    /// Render the guarded subtree.
    Render,
    /// Navigate to this route instead.
    Redirect(String),
}

/// Mathematical content of a [`Decision`].
pub enum DecisionModel {
    Render,
    Redirect(Seq<char>),
}

impl View for Decision {
    type V = DecisionModel;

    open spec fn view(&self) -> DecisionModel {
        match self {
            Decision::Render => DecisionModel::Render,
            Decision::Redirect(target) => DecisionModel::Redirect(target@),
        }
    }
}

/// A guarded route subtree.
#[derive(Debug, PartialEq, Eq)]
pub struct GuardNode {
    /// The path segment this node matches, below its parent's.
    pub path: String,
    pub predicate: Predicate,
    /// Where to navigate when the predicate fails.
    pub fallback: String,
    pub children: Vec<GuardNode>,
}

impl GuardNode {
    /// What this node's own guard decides.
    pub open spec fn verdict(&self, access: Access) -> DecisionModel {
        if self.predicate.holds(access) {
            DecisionModel::Render
        } else {
            DecisionModel::Redirect(self.fallback@)
        }
    }

    /// The node reached by following `trail`, a list of child positions,
    /// down from this node; `None` when the trail leaves the tree.
    pub open spec fn descend(&self, trail: Seq<usize>) -> Option<GuardNode>
        decreases trail.len(),
    {
        if trail.len() == 0 {
            Some(*self)
        } else if trail[0] < self.children@.len() {
            self.children@[trail[0] as int].descend(trail.drop_first())
        } else {
            None
        }
    }

    /// What the guards from this node down along `trail` decide: the
    /// redirect of the first node whose predicate fails, or to render when
    /// none fails; `None` when the trail leaves the tree.
    pub open spec fn decide(&self, trail: Seq<usize>, access: Access) -> Option<DecisionModel>
        decreases trail.len(),
    {
        if trail.len() == 0 {
            Some(self.verdict(access))
        } else if trail[0] < self.children@.len() {
            match self.children@[trail[0] as int].decide(trail.drop_first(), access) {
                Some(below) => Some(
                    if self.predicate.holds(access) {
                        below
                    } else {
                        DecisionModel::Redirect(self.fallback@)
                    },
                ),
                None => None,
            }
        } else {
            None
        }
    }

    /// A guarded route without nested routes.
    pub fn new(path: &str, predicate: Predicate, fallback: &str) -> (node: GuardNode)
        ensures
            node.path@ == path@,
            node.predicate == predicate,
            node.fallback@ == fallback@,
            node.children@.len() == 0,
    {
        GuardNode {
            path: path.to_owned(),
            predicate,
            fallback: fallback.to_owned(),
            children: Vec::new(),
        }
    }

    /// Nests `child` after the routes already nested in this node.
    pub fn with_child(self, child: GuardNode) -> (node: GuardNode)
        ensures
            node.path == self.path,
            node.predicate == self.predicate,
            node.fallback == self.fallback,
            node.children@ == self.children@.push(child),
    {
        let mut node = self;
        node.children.push(child);
        node
    }

    /// Evaluates this node's own guard against the derived views as they
    /// are now.
    pub fn evaluate(&self, access: Access) -> (decision: Decision)
        ensures
            decision@ == self.verdict(access),
    {
        if self.predicate.check(access) {
            Decision::Render
        } else {
            Decision::Redirect(self.fallback.clone())
        }
    }

    /// Decides whether the route that `trail` leads to may be entered.
    /// Returns `None` exactly when `trail` names no route of this tree.
    pub fn resolve(&self, trail: &[usize], access: Access) -> (decision: Option<Decision>)
        ensures
            decision_model(decision) == self.decide(trail@, access),
    {
        let mut node = self;
        let mut blocked: Option<String> = None;
        let mut taken: usize = 0;
        assert(trail@.skip(0) == trail@);
        while taken < trail.len()
            invariant
                taken <= trail.len(),
                self.decide(trail@, access) == match node.decide(
                    trail@.skip(taken as int),
                    access,
                ) {
                    Some(below) => Some(
                        match blocked {
                            Some(target) => DecisionModel::Redirect(target@),
                            None => below,
                        },
                    ),
                    None => None,
                },
            decreases trail.len() - taken,
        {
            proof {
                let rest = trail@.skip(taken as int);
                assert(rest.len() > 0 && rest[0] == trail@[taken as int]);
                assert(rest.drop_first() == trail@.skip(taken + 1));
            }
            if blocked.is_none() && !node.predicate.check(access) {
                blocked = Some(node.fallback.clone());
            }
            let position = trail[taken];
            if position >= node.children.len() {
                return None;
            }
            node = &node.children[position];
            taken = taken + 1;
        }
        assert(trail@.skip(taken as int).len() == 0);
        match blocked {
            Some(target) => Some(Decision::Redirect(target)),
            None => Some(node.evaluate(access)),
        }
    }
}

/// Mathematical content of what [`GuardNode::resolve`] returns.
pub open spec fn decision_model(decision: Option<Decision>) -> Option<DecisionModel> {
    match decision {
        Some(decided) => Some(decided@),
        None => None,
    }
}

/// A guard whose predicate fails redirects to its fallback, whatever route
/// below it was asked for and whatever the guards below it say: the guarded
/// subtree is never rendered.
pub proof fn law_failed_guard_redirects(node: GuardNode, trail: Seq<usize>, access: Access)
    requires
        node.descend(trail) is Some,
        !node.predicate.holds(access),
    ensures
        node.verdict(access) == DecisionModel::Redirect(node.fallback@),
        node.decide(trail, access) == Some(DecisionModel::Redirect(node.fallback@)),
{
    if trail.len() > 0 {
        law_decides_what_it_reaches(node.children@[trail[0] as int], trail.drop_first(), access);
    }
}

/// Without an access token no guarded route is rendered: every route of
/// the tree redirects to the fallback of the outermost guard.
pub proof fn law_no_session_no_entry(node: GuardNode, trail: Seq<usize>, record: TokenModel)
    requires
        node.descend(trail) is Some,
        record.access_token.len() == 0,
    ensures
        node.decide(trail, Access::of(record)) == Some(DecisionModel::Redirect(node.fallback@)),
{
    law_failed_guard_redirects(node, trail, Access::of(record));
}

/// A trail is decided exactly when it names a route of the tree.
pub proof fn law_decides_what_it_reaches(node: GuardNode, trail: Seq<usize>, access: Access)
    ensures
        node.decide(trail, access) is Some <==> node.descend(trail) is Some,
    decreases trail.len(),
{
    if trail.len() > 0 && trail[0] < node.children@.len() {
        law_decides_what_it_reaches(node.children@[trail[0] as int], trail.drop_first(), access);
    }
}

/// Guards compose by conjunction: a route is rendered only if the predicate
/// of every node on the way down to it holds.
pub proof fn law_render_needs_every_guard(
    node: GuardNode,
    trail: Seq<usize>,
    access: Access,
    depth: int,
)
    requires
        node.decide(trail, access) == Some(DecisionModel::Render),
        0 <= depth <= trail.len(),
    ensures
        node.descend(trail.take(depth)) is Some,
        node.descend(trail.take(depth))->0.predicate.holds(access),
    decreases trail.len(),
{
    if depth == 0 {
        assert(trail.take(0).len() == 0);
        if trail.len() > 0 {
            law_decides_what_it_reaches(
                node.children@[trail[0] as int],
                trail.drop_first(),
                access,
            );
        }
    } else {
        let child = node.children@[trail[0] as int];
        assert(trail.take(depth).drop_first() == trail.drop_first().take(depth - 1));
        assert(trail.take(depth)[0] == trail[0]);
        law_render_needs_every_guard(child, trail.drop_first(), access, depth - 1);
    }
}

/// Conversely, a route of the tree is rendered when the predicate of every
/// node on the way down to it holds.
pub proof fn law_render_when_every_guard_holds(node: GuardNode, trail: Seq<usize>, access: Access)
    requires
        node.descend(trail) is Some,
        forall|depth: int|
            0 <= depth <= trail.len() ==> (#[trigger] node.descend(
                trail.take(depth),
            ))->0.predicate.holds(access),
    ensures
        node.decide(trail, access) == Some(DecisionModel::Render),
    decreases trail.len(),
{
    assert(trail.take(0).len() == 0);
    assert(node.descend(trail.take(0)) == Some(node));
    if trail.len() > 0 {
        let child = node.children@[trail[0] as int];
        let rest = trail.drop_first();
        assert forall|depth: int| 0 <= depth <= rest.len() implies (#[trigger] child.descend(
            rest.take(depth),
        ))->0.predicate.holds(access) by {
            assert(trail.take(depth + 1).drop_first() == rest.take(depth));
            assert(trail.take(depth + 1)[0] == trail[0]);
            assert(node.descend(trail.take(depth + 1)) == child.descend(rest.take(depth)));
        }
        law_render_when_every_guard_holds(child, rest, access);
    }
}

} // verus!
