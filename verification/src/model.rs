//! The data the pipeline works on: user records as the configuration loader
//! hands them over, their mathematical view, the privilege level attached to a
//! membership declaration, and the predicates that decide which records an
//! artifact lists.

use vstd::prelude::*;

verus! {

/// One human member of the organization.
pub struct UserRecord {
    /// Unique identifier within the mapping; also used to derive generated
    /// resource names and email addresses.
    pub username: String,
    pub first_name: String,
    pub last_name: String,
    /// Identity on the source-control platform. `None`, or an empty string,
    /// means the record is skipped by every artifact that lists such
    /// identities; this is not an error.
    pub github: Option<String>,
    /// Selects the elevated role string in generated output.
    pub is_super_admin: bool,
    /// Team names this member belongs to; `None` means member of no team.
    pub groups: Option<Vec<String>>,
}

/// The mathematical content of a `UserRecord`: every string as a sequence of
/// characters.
#[verifier::ext_equal]
pub struct UserView {
    pub username: Seq<char>,
    pub first_name: Seq<char>,
    pub last_name: Seq<char>,
    pub github: Option<Seq<char>>,
    pub is_super_admin: bool,
    pub groups: Option<Seq<Seq<char>>>,
}

impl View for UserRecord {
    type V = UserView;

    open spec fn view(&self) -> UserView {
        UserView {
            username: self.username@,
            first_name: self.first_name@,
            last_name: self.last_name@,
            github: match self.github {
                Option::Some(g) => Option::Some(g@),
                Option::None => Option::None,
            },
            is_super_admin: self.is_super_admin,
            groups: match self.groups {
                Option::Some(gs) => Option::Some(gs@.map_values(|g: String| g@)),
                Option::None => Option::None,
            },
        }
    }
}

/// The views of a whole mapping, in its iteration order.
pub open spec fn views_of(users: Seq<UserRecord>) -> Seq<UserView> {
    users.map_values(|u: UserRecord| u@)
}

/// Privilege level attached to a membership declaration.
#[derive(Clone, Copy, Debug, PartialEq, Eq, Structural)]
pub enum Role {
    Member,
    Elevated,
}

/// The role a record gets: elevated exactly when it is a super admin.
pub open spec fn spec_role_of(is_super_admin: bool) -> Role {
    if is_super_admin {
        Role::Elevated
    } else {
        Role::Member
    }
}

pub fn role_of(is_super_admin: bool) -> (r: Role)
    ensures
        r == spec_role_of(is_super_admin),
{
    if is_super_admin {
        Role::Elevated
    } else {
        Role::Member
    }
}

impl Role {
    /// Role string used in organization membership declarations.
    pub open spec fn spec_org_label(self) -> Seq<char> {
        match self {
            Role::Elevated => "admin"@,
            Role::Member => "member"@,
        }
    }

    pub fn org_label(self) -> (r: &'static str)
        ensures
            r@ == self.spec_org_label(),
    {
        match self {
            Role::Elevated => "admin",
            Role::Member => "member",
        }
    }

    /// Role string used in team membership declarations.
    pub open spec fn spec_team_label(self) -> Seq<char> {
        match self {
            Role::Elevated => "maintainer"@,
            Role::Member => "member"@,
        }
    }

    pub fn team_label(self) -> (r: &'static str)
        ensures
            r@ == self.spec_team_label(),
    {
        match self {
            Role::Elevated => "maintainer",
            Role::Member => "member",
        }
    }
}

/// Whether the record carries a non-empty source-control identity.
pub open spec fn has_github(u: UserView) -> bool {
    match u.github {
        Option::Some(g) => g.len() > 0,
        Option::None => false,
    }
}

/// `has_github` as a first-class predicate, so that contracts and lemmas all
/// speak of one and the same function value.
pub open spec fn has_github_fn() -> spec_fn(UserView) -> bool {
    |u: UserView| has_github(u)
}

/// The record's source-control identity; the empty sequence when absent.
pub open spec fn github_id(u: UserView) -> Seq<char> {
    match u.github {
        Option::Some(g) => g,
        Option::None => Seq::empty(),
    }
}

/// `github_id` as a first-class function.
pub open spec fn github_id_fn() -> spec_fn(UserView) -> Seq<char> {
    |u: UserView| github_id(u)
}

/// Whether the record belongs to the named team (exact, case-sensitive match;
/// absent groups mean member of no team).
pub open spec fn in_team(u: UserView, team: Seq<char>) -> bool {
    match u.groups {
        Option::Some(gs) => gs.contains(team),
        Option::None => false,
    }
}

/// Membership in one fixed team, as a first-class predicate.
pub open spec fn team_filter(team: Seq<char>) -> spec_fn(UserView) -> bool {
    |u: UserView| in_team(u, team)
}

impl UserRecord {
    /// Exact-match lookup of `team` among this record's group names.
    pub fn is_in_team(&self, team: &String) -> (r: bool)
        ensures
            r == in_team(self@, team@),
    {
        match &self.groups {
            Option::None => false,
            Option::Some(gs) => {
                let mut i: usize = 0;
                while i < gs.len()
                    invariant
                        i <= gs@.len(),
                        self.groups == Option::Some(*gs),
                        forall|j: int| 0 <= j < i ==> gs@[j]@ != team@,
                    decreases gs@.len() - i,
                {
                    if gs[i] == *team {
                        assert(self@.groups->Some_0[i as int] == team@);
                        return true;
                    }
                    i += 1;
                }
                assert(forall|j: int| 0 <= j < gs@.len() ==> self@.groups->Some_0[j] != team@);
                false
            },
        }
    }
}

impl Clone for UserRecord {
    fn clone(&self) -> (res: Self)
        ensures
            res@ == self@,
    {
        let github = match &self.github {
            Option::Some(g) => Option::Some(g.clone()),
            Option::None => Option::None,
        };
        let groups = match &self.groups {
            Option::Some(gs) => Option::Some(clone_string_vec(gs)),
            Option::None => Option::None,
        };
        UserRecord {
            username: self.username.clone(),
            first_name: self.first_name.clone(),
            last_name: self.last_name.clone(),
            github,
            is_super_admin: self.is_super_admin,
            groups,
        }
    }
}

/// Element-wise copy of a vector of strings, with the same view.
fn clone_string_vec(v: &Vec<String>) -> (res: Vec<String>)
    ensures
        res@ == v@,
{
    let mut res: Vec<String> = Vec::new();
    let mut i: usize = 0;
    while i < v.len()
        invariant
            i <= v@.len(),
            res@ == v@.take(i as int),
        decreases v@.len() - i,
    {
        res.push(v[i].clone());
        proof {
            assert(v@.take(i as int + 1) =~= v@.take(i as int).push(v@[i as int]));
        }
        i += 1;
    }
    proof {
        assert(v@.take(v@.len() as int) =~= v@);
    }
    res
}

} // verus!
