//! The access gate: a boolean condition tree over role and relationship
//! facts, evaluated against the actor asking to join or act.
//!
//! Evaluation is deterministic, side-effect-free and short-circuiting: `And`
//! stops at the first false branch, `Or` at the first true one.  A denial is
//! an explicit error; callers must never proceed on anything but an
//! unambiguous allow.

use vstd::prelude::*;
use crate::errors::CommunityError;
use crate::role::Permission;
use crate::role::RoleRegistry;

verus! {

/// A relationship pattern: "the actor is related to `target` via `kind`".
pub struct Relationship {
    /// The kind of relation (for example "follows" or "invited-by").
    pub kind: String,
    /// The account the actor must be related to.
    pub target: String,
}

/// One recorded relationship fact about a concrete account.
pub struct RelationshipFact {
    /// The account the fact is about.
    pub account: String,
    /// The kind of relation.
    pub kind: String,
    /// The other end of the relation.
    pub target: String,
}

/// A boolean expression over the actor's roles, permissions and
/// relationships.
pub enum Condition {
    /// The actor holds the role with this name.
    HasRole(String),
    /// Some role the actor holds grants this permission.
    HasPermission(Permission),
    /// The actor stands in this relationship.
    Related(Relationship),
    /// Both subconditions hold.
    And(Box<Condition>, Box<Condition>),
    /// At least one subcondition holds.
    Or(Box<Condition>, Box<Condition>),
    /// The subcondition does not hold.
    Not(Box<Condition>),
}

/// The optional gate attached to a community: when present, its condition
/// must allow an actor before the actor may join.
pub struct Access {
    /// The condition every joining actor must satisfy.
    pub condition: Condition,
}

/// Whether `facts` records that `account` is related to `target` via
/// `kind`.
pub open spec fn spec_fact_holds(
    facts: Seq<RelationshipFact>,
    account: Seq<char>,
    kind: Seq<char>,
    target: Seq<char>,
) -> bool {
    exists|i: int|
        0 <= i < facts.len() && facts[i].account@ == account && facts[i].kind@ == kind
            && facts[i].target@ == target
}

/// Whether condition `c` allows `actor`, read against the role registry and
/// the recorded relationship facts.
pub open spec fn spec_holds(
    c: Condition,
    actor: Seq<char>,
    reg: RoleRegistry,
    facts: Seq<RelationshipFact>,
) -> bool
    decreases c,
{
    match c {
        Condition::HasRole(name) => reg.spec_actor_has_role(name@, actor),
        Condition::HasPermission(p) => reg.spec_actor_has_permission(p, actor),
        Condition::Related(rel) => spec_fact_holds(facts, actor, rel.kind@, rel.target@),
        Condition::And(a, b) => spec_holds(*a, actor, reg, facts) && spec_holds(
            *b,
            actor,
            reg,
            facts,
        ),
        Condition::Or(a, b) => spec_holds(*a, actor, reg, facts) || spec_holds(
            *b,
            actor,
            reg,
            facts,
        ),
        Condition::Not(a) => !spec_holds(*a, actor, reg, facts),
    }
}

/// Evaluates `c` for `actor`: true exactly when the condition allows the
/// actor.  Reads state only; `And` and `Or` short-circuit.
pub fn eval_condition(
    c: &Condition,
    actor: &String,
    reg: &RoleRegistry,
    facts: &Vec<RelationshipFact>,
) -> (r: bool)
    requires
        reg.wf(),
    ensures
        r == spec_holds(*c, actor@, *reg, facts@),
    decreases *c,
{
    match c {
        Condition::HasRole(name) => reg.actor_has_role(name, actor),
        Condition::HasPermission(p) => reg.actor_has_permission(*p, actor),
        Condition::Related(rel) => fact_holds(facts, actor, &rel.kind, &rel.target),
        Condition::And(a, b) => eval_condition(a, actor, reg, facts) && eval_condition(
            b,
            actor,
            reg,
            facts,
        ),
        Condition::Or(a, b) => eval_condition(a, actor, reg, facts) || eval_condition(
            b,
            actor,
            reg,
            facts,
        ),
        Condition::Not(a) => !eval_condition(a, actor, reg, facts),
    }
}

/// Whether `facts` records `account` as related to `target` via `kind`.
pub fn fact_holds(
    facts: &Vec<RelationshipFact>,
    account: &String,
    kind: &String,
    target: &String,
) -> (r: bool)
    ensures
        r == spec_fact_holds(facts@, account@, kind@, target@),
{
    let mut i: usize = 0;
    while i < facts.len()
        invariant
            i <= facts@.len(),
            forall|j: int|
                0 <= j < i ==> !(facts@[j].account@ == account@ && facts@[j].kind@ == kind@
                    && facts@[j].target@ == target@),
        decreases facts@.len() - i,
    {
        if facts[i].account == *account && facts[i].kind == *kind && facts[i].target == *target {
            return true;
        }
        i = i + 1;
    }
    false
}

impl Access {
    /// Decides whether `actor` may pass this access gate: `Ok` exactly when the
    /// condition tree allows the actor, and an `AccessConditionRejected`
    /// error otherwise.  Evaluation only reads state.
    pub fn check_permission(
        &self,
        actor: &String,
        reg: &RoleRegistry,
        facts: &Vec<RelationshipFact>,
    ) -> (r: Result<(), CommunityError>)
        requires
            reg.wf(),
        ensures
            r is Ok <==> spec_holds(self.condition, actor@, *reg, facts@),
            r is Err ==> r->Err_0 == CommunityError::AccessConditionRejected,
    {
        if eval_condition(&self.condition, actor, reg, facts) {
            Ok(())
        } else {
            Err(CommunityError::AccessConditionRejected)
        }
    }
}

} // verus!
