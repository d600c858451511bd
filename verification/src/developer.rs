//! The developer record managed by [`crate::manager::DeveloperManager`]: an
//! immutable identifier, a name, a role drawn from a closed enumeration, and
//! a list of skills.

use vstd::prelude::*;
use crate::ascii;

verus! {

/// Classification of a developer. `Unknown` is the default for a record
/// whose role has not been assigned yet.
#[derive(Clone, Copy, PartialEq, Eq, Structural, Debug)]
pub enum Role {
    Frontend,
    Backend,
    Fullstack,
    DevOps,
    Unknown,
}

/// A managed developer record. The identifier is assigned by the manager at
/// creation and never changes; the remaining fields are updated only through
/// the manager's merge operation.
pub struct Developer {
    pub id: u128,
    pub name: String,
    pub role: Role,
    pub skills: Vec<String>,
}

/// The mathematical value of a [`Developer`]: the identifier, the name and
/// skills as character sequences, and the role.
#[verifier::ext_equal]
pub struct DevView {
    pub id: u128,
    pub name: Seq<char>,
    pub role: Role,
    pub skills: Seq<Seq<char>>,
}

impl View for Developer {
    type V = DevView;

    open spec fn view(&self) -> DevView {
        DevView {
            id: self.id,
            name: self.name@,
            role: self.role,
            skills: self.skills.deep_view(),
        }
    }
}

impl DeepView for Developer {
    type V = DevView;

    open spec fn deep_view(&self) -> DevView {
        self.view()
    }
}

/// The record lists `skill` among its skills, compared ASCII
/// case-insensitively.
pub open spec fn has_skill(dv: DevView, skill: Seq<char>) -> bool {
    exists|i: int| 0 <= i < dv.skills.len() && ascii::eq_ignore_case(dv.skills[i], skill)
}

/// The role named by the exact text `s`: the four concrete role names and
/// nothing else. Unrecognized text names no role; an update built from it
/// treats the role as "no change requested" rather than as an error.
pub open spec fn role_of_text(s: Seq<char>) -> Option<Role> {
    if s == "Frontend"@ {
        Some(Role::Frontend)
    } else if s == "Backend"@ {
        Some(Role::Backend)
    } else if s == "Fullstack"@ {
        Some(Role::Fullstack)
    } else if s == "DevOps"@ {
        Some(Role::DevOps)
    } else {
        None
    }
}

/// Parses a role name, exactly as [`role_of_text`] describes.
pub fn parse_role(s: &str) -> (r: Option<Role>)
    ensures
        r == role_of_text(s@),
{
    if ascii::str_eq(s, "Frontend") {
        Some(Role::Frontend)
    } else if ascii::str_eq(s, "Backend") {
        Some(Role::Backend)
    } else if ascii::str_eq(s, "Fullstack") {
        Some(Role::Fullstack)
    } else if ascii::str_eq(s, "DevOps") {
        Some(Role::DevOps)
    } else {
        None
    }
}

/// The value of a record after a partial update: each field is overwritten
/// exactly when a new value for it is supplied, and the identifier never
/// changes.
pub open spec fn merged(
    dv: DevView,
    new_name: Option<Seq<char>>,
    new_role: Option<Role>,
    new_skills: Option<Seq<Seq<char>>>,
) -> DevView {
    DevView {
        id: dv.id,
        name: match new_name {
            Some(n) => n,
            None => dv.name,
        },
        role: match new_role {
            Some(r) => r,
            None => dv.role,
        },
        skills: match new_skills {
            Some(s) => s,
            None => dv.skills,
        },
    }
}

/// An update that supplies no field values is the identity on a record.
pub proof fn lemma_merge_nothing(dv: DevView)
    ensures
        merged(dv, None, None, None) =~= dv,
{
}

impl Developer {
    /// A fresh record: the given identifier and name, no role assigned, no
    /// skills.
    pub fn new(id: u128, name: String) -> (d: Developer)
        ensures
            d@.id == id,
            d@.name == name@,
            d@.role == Role::Unknown,
            d@.skills.len() == 0,
    {
        Developer { id, name, role: Role::Unknown, skills: Vec::new() }
    }

    /// An owned copy of the record with the same mathematical value.
    pub fn duplicate(&self) -> (d: Developer)
        ensures
            d@ == self@,
    {
        let mut skills: Vec<String> = Vec::new();
        let mut i: usize = 0;
        while i < self.skills.len()
            invariant
                i <= self.skills.len(),
                skills@.len() == i,
                forall|j: int| 0 <= j < i ==> skills@[j] == self.skills@[j],
            decreases self.skills.len() - i,
        {
            skills.push(self.skills[i].clone());
            i += 1;
        }
        proof {
            assert(skills@ =~= self.skills@);
        }
        let d = Developer {
            id: self.id,
            name: self.name.clone(),
            role: self.role,
            skills,
        };
        proof {
            assert(d@ =~= self@);
        }
        d
    }

    /// Decides whether the record lists `skill`, compared ASCII
    /// case-insensitively.
    pub fn lists_skill(&self, skill: &str) -> (r: bool)
        ensures
            r == has_skill(self@, skill@),
    {
        let mut i: usize = 0;
        while i < self.skills.len()
            invariant
                i <= self.skills.len(),
                forall|j: int| 0 <= j < i ==> !ascii::eq_ignore_case(self@.skills[j], skill@),
            decreases self.skills.len() - i,
        {
            if ascii::str_eq_ignore_case(self.skills[i].as_str(), skill) {
                proof {
                    assert(ascii::eq_ignore_case(self@.skills[i as int], skill@));
                }
                return true;
            }
            i += 1;
        }
        false
    }
}

} // verus!
