//! Named roles mapping to permission sets and member lists.
//!
//! A role is keyed by its name; the registry keeps names unique.  An absent
//! role means "no permissions".  Access conditions refer to roles by name.

use vstd::prelude::*;

verus! {

/// The closed set of capabilities a role can grant.
#[derive(Clone, Copy, Debug, PartialEq, Eq, Structural)]
pub enum Permission {
    Read,
    Post,
    Comment,
    Moderate,
    SetRole,
    Admin,
}

/// A role: the permissions it grants and the accounts that hold it.
pub struct Role {
    /// Capabilities granted to every holder of the role.
    pub permissions: Vec<Permission>,
    /// Accounts holding the role.
    pub members: Vec<String>,
}

/// One named role in the registry.
pub struct RoleEntry {
    /// The unique key of the role.
    pub name: String,
    /// The role stored under that name.
    pub role: Role,
}

/// The role table: named roles with unique names.
pub struct RoleRegistry {
    entries: Vec<RoleEntry>,
}

/// Whether some string in `s` reads `x`.
pub open spec fn seq_contains_str(s: Seq<String>, x: Seq<char>) -> bool {
    exists|i: int| 0 <= i < s.len() && s[i]@ == x
}

/// Whether permission `p` occurs in `s`.
pub open spec fn seq_contains_perm(s: Seq<Permission>, p: Permission) -> bool {
    exists|i: int| 0 <= i < s.len() && s[i] == p
}

impl RoleRegistry {
    /// The stored entries, in insertion order.
    pub closed spec fn spec_entries(&self) -> Seq<RoleEntry> {
        self.entries@
    }

    /// Role names are unique keys.
    pub open spec fn wf(&self) -> bool {
        forall|i: int, j: int|
            0 <= i < j < self.spec_entries().len() ==> self.spec_entries()[i].name@
                != self.spec_entries()[j].name@
    }

    /// Whether a role named `name` exists.
    pub open spec fn spec_has_role(&self, name: Seq<char>) -> bool {
        exists|i: int| 0 <= i < self.spec_entries().len() && self.spec_entries()[i].name@ == name
    }

    /// The index of the role named `name`; meaningful only when it exists in
    /// a well-formed registry, where it is unique.
    pub open spec fn spec_index_of(&self, name: Seq<char>) -> int {
        choose|i: int| 0 <= i < self.spec_entries().len() && self.spec_entries()[i].name@ == name
    }

    /// Whether `actor` holds the role named `name`.
    pub open spec fn spec_actor_has_role(&self, name: Seq<char>, actor: Seq<char>) -> bool {
        exists|i: int|
            0 <= i < self.spec_entries().len() && self.spec_entries()[i].name@ == name
                && seq_contains_str(self.spec_entries()[i].role.members@, actor)
    }

    /// Whether some role held by `actor` grants `p`.
    pub open spec fn spec_actor_has_permission(&self, p: Permission, actor: Seq<char>) -> bool {
        exists|i: int|
            0 <= i < self.spec_entries().len() && seq_contains_str(
                self.spec_entries()[i].role.members@,
                actor,
            ) && seq_contains_perm(self.spec_entries()[i].role.permissions@, p)
    }

    /// Whether the role named `name` grants `p`; an absent role grants
    /// nothing.
    pub open spec fn spec_role_has_permission(&self, name: Seq<char>, p: Permission) -> bool {
        exists|i: int|
            0 <= i < self.spec_entries().len() && self.spec_entries()[i].name@ == name
                && seq_contains_perm(self.spec_entries()[i].role.permissions@, p)
    }

    /// An empty registry.
    pub fn new() -> (r: RoleRegistry)
        ensures
            r.wf(),
            r.spec_entries() =~= Seq::<RoleEntry>::empty(),
    {
        RoleRegistry { entries: Vec::new() }
    }

    /// The number of roles.
    pub fn role_count(&self) -> (r: usize)
        ensures
            r == self.spec_entries().len(),
    {
        self.entries.len()
    }

    /// Creates the role named `name`, or replaces the permission set and
    /// member list of the existing one.
    pub fn set_role(&mut self, name: &String, role: Role)
        requires
            old(self).wf(),
        ensures
            final(self).wf(),
            final(self).spec_has_role(name@),
            if old(self).spec_has_role(name@) {
                let i = old(self).spec_index_of(name@);
                &&& final(self).spec_entries().len() == old(self).spec_entries().len()
                &&& forall|j: int|
                    0 <= j < old(self).spec_entries().len() && j != i
                        ==> final(self).spec_entries()[j] == old(self).spec_entries()[j]
                &&& final(self).spec_entries()[i].name@ == name@
                &&& final(self).spec_entries()[i].role == role
            } else {
                &&& final(self).spec_entries().len() == old(self).spec_entries().len() + 1
                &&& final(self).spec_entries().take(old(self).spec_entries().len() as int)
                    == old(self).spec_entries()
                &&& final(self).spec_entries().last().name@ == name@
                &&& final(self).spec_entries().last().role == role
            },
    {
        let found = self.find(name);
        match found {
            Some(i) => {
                let ghost pre = *self;
                proof {
                    lemma_role_index_is(*self, name@, i as int);
                }
                self.entries[i] = RoleEntry { name: name.clone(), role };
                proof {
                    assert forall|i2: int, j2: int|
                        0 <= i2 < j2 < self.spec_entries().len() implies self.spec_entries()[i2].name@
                        != self.spec_entries()[j2].name@ by {
                        if i2 != i as int {
                            assert(self.spec_entries()[i2] == pre.spec_entries()[i2]);
                        }
                        if j2 != i as int {
                            assert(self.spec_entries()[j2] == pre.spec_entries()[j2]);
                        }
                        assert(pre.spec_entries()[i2].name@ != pre.spec_entries()[j2].name@);
                    }
                    assert(self.spec_entries()[i as int].name@ == name@);
                }
            },
            None => {
                let ghost pre = *self;
                proof {
                    assert forall|j: int|
                        0 <= j < pre.spec_entries().len() implies pre.spec_entries()[j].name@
                        != name@ by {
                        if pre.spec_entries()[j].name@ == name@ {
                            assert(pre.spec_has_role(name@));
                        }
                    }
                }
                self.entries.push(RoleEntry { name: name.clone(), role });
                proof {
                    let n = pre.spec_entries().len() as int;
                    assert(self.spec_entries().take(n) =~= pre.spec_entries());
                    assert forall|i2: int, j2: int|
                        0 <= i2 < j2 < self.spec_entries().len() implies self.spec_entries()[i2].name@
                        != self.spec_entries()[j2].name@ by {
                        assert(self.spec_entries()[i2] == pre.spec_entries()[i2]);
                        if j2 < n {
                            assert(self.spec_entries()[j2] == pre.spec_entries()[j2]);
                            assert(pre.spec_entries()[i2].name@ != pre.spec_entries()[j2].name@);
                        } else {
                            assert(self.spec_entries()[j2].name@ == name@);
                        }
                    }
                    assert(self.spec_entries()[n].name@ == name@);
                }
            },
        }
    }

    /// Looks the role named `name` up; `None` means the role does not exist
    /// and grants nothing.
    pub fn get_role(&self, name: &String) -> (r: Option<&Role>)
        requires
            self.wf(),
        ensures
            match r {
                Some(role) => self.spec_has_role(name@) && *role == self.spec_entries()[self.spec_index_of(
                    name@,
                )].role,
                None => !self.spec_has_role(name@),
            },
    {
        let found = self.find(name);
        match found {
            Some(i) => {
                proof {
                    lemma_role_index_is(*self, name@, i as int);
                }
                Some(&self.entries[i].role)
            },
            None => None,
        }
    }

    /// Whether the role named `name` grants `p`.
    pub fn has_permission(&self, name: &String, p: Permission) -> (r: bool)
        requires
            self.wf(),
        ensures
            r == self.spec_role_has_permission(name@, p),
    {
        let found = self.find(name);
        match found {
            Some(i) => {
                proof {
                    lemma_role_index_is(*self, name@, i as int);
                }
                let r = perm_list_contains(&self.entries[i].role.permissions, p);
                proof {
                    if !r {
                        assert forall|j: int|
                            0 <= j < self.spec_entries().len() && self.spec_entries()[j].name@
                                == name@ implies !seq_contains_perm(
                            self.spec_entries()[j].role.permissions@,
                            p,
                        ) by {
                            lemma_role_index_is(*self, name@, j);
                        }
                    }
                }
                r
            },
            None => false,
        }
    }

    /// Whether `actor` holds the role named `name`.
    pub fn actor_has_role(&self, name: &String, actor: &String) -> (r: bool)
        requires
            self.wf(),
        ensures
            r == self.spec_actor_has_role(name@, actor@),
    {
        let found = self.find(name);
        match found {
            Some(i) => {
                proof {
                    lemma_role_index_is(*self, name@, i as int);
                }
                let r = string_list_contains(&self.entries[i].role.members, actor);
                proof {
                    if !r {
                        assert forall|j: int|
                            0 <= j < self.spec_entries().len() && self.spec_entries()[j].name@
                                == name@ implies !seq_contains_str(
                            self.spec_entries()[j].role.members@,
                            actor@,
                        ) by {
                            lemma_role_index_is(*self, name@, j);
                        }
                    }
                }
                r
            },
            None => false,
        }
    }

    /// Whether some role held by `actor` grants `p`.
    pub fn actor_has_permission(&self, p: Permission, actor: &String) -> (r: bool)
        ensures
            r == self.spec_actor_has_permission(p, actor@),
    {
        let mut i: usize = 0;
        while i < self.entries.len()
            invariant
                i <= self.spec_entries().len(),
                forall|j: int|
                    0 <= j < i ==> !(seq_contains_str(self.spec_entries()[j].role.members@, actor@)
                        && seq_contains_perm(self.spec_entries()[j].role.permissions@, p)),
            decreases self.spec_entries().len() - i,
        {
            if string_list_contains(&self.entries[i].role.members, actor) && perm_list_contains(
                &self.entries[i].role.permissions,
                p,
            ) {
                return true;
            }
            i = i + 1;
        }
        false
    }

    /// The index of the entry named `name`, if there is one.
    fn find(&self, name: &String) -> (r: Option<usize>)
        ensures
            match r {
                Some(i) => i < self.spec_entries().len() && self.spec_entries()[i as int].name@
                    == name@,
                None => !self.spec_has_role(name@),
            },
    {
        let mut i: usize = 0;
        while i < self.entries.len()
            invariant
                i <= self.entries@.len(),
                forall|j: int| 0 <= j < i ==> self.entries@[j].name@ != name@,
            decreases self.entries@.len() - i,
        {
            if self.entries[i].name == *name {
                return Some(i);
            }
            i = i + 1;
        }
        None
    }
}

/// Whether some string in `v` reads like `x`.
pub fn string_list_contains(v: &Vec<String>, x: &String) -> (r: bool)
    ensures
        r == seq_contains_str(v@, x@),
{
    let mut i: usize = 0;
    while i < v.len()
        invariant
            i <= v@.len(),
            forall|j: int| 0 <= j < i ==> v@[j]@ != x@,
        decreases v@.len() - i,
    {
        if v[i] == *x {
            return true;
        }
        i = i + 1;
    }
    false
}

/// Whether `p` occurs in `v`.
pub fn perm_list_contains(v: &Vec<Permission>, p: Permission) -> (r: bool)
    ensures
        r == seq_contains_perm(v@, p),
{
    let mut i: usize = 0;
    while i < v.len()
        invariant
            i <= v@.len(),
            forall|j: int| 0 <= j < i ==> v@[j] != p,
        decreases v@.len() - i,
    {
        if v[i] == p {
            return true;
        }
        i = i + 1;
    }
    false
}

/// In a well-formed registry a role's index is unique: any matching index is
/// the one `spec_index_of` picks.
pub proof fn lemma_role_index_is(reg: RoleRegistry, name: Seq<char>, i: int)
    requires
        reg.wf(),
        0 <= i < reg.spec_entries().len(),
        reg.spec_entries()[i].name@ == name,
    ensures
        reg.spec_has_role(name),
        reg.spec_index_of(name) == i,
{
    let j = reg.spec_index_of(name);
    if j != i {
        if i < j {
            assert(reg.spec_entries()[i].name@ != reg.spec_entries()[j].name@);
        } else {
            assert(reg.spec_entries()[j].name@ != reg.spec_entries()[i].name@);
        }
    }
}

} // verus!
