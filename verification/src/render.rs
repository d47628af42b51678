//! The fixed artifact texts. Each artifact is a header followed by one
//! declaration block per listed record, in mapping order, and a closing
//! newline; a record is listed only when it carries a non-empty
//! source-control identity. The spec functions here state each artifact
//! character for character, and the renderers are proved to produce exactly
//! that text.

use vstd::prelude::*;

use crate::model::{
    has_github, github_id, in_team, role_of, spec_role_of, team_filter, views_of, Role, UserRecord,
    UserView,
};

verus! {

/// Comment that opens every generated artifact.
pub open spec fn generated_banner() -> Seq<char> {
    "# THIS IS A GENERATED FILE, DO NOT EDIT THIS FILE DIRECTLY.\n\n"@
}

/// Heading of both organization membership artifacts.
pub open spec fn org_header() -> Seq<char> {
    generated_banner() + "# Define the members of the organization.\n"@
}

/// Heading of the membership artifact of one team.
pub open spec fn team_header(team: Seq<char>) -> Seq<char> {
    generated_banner() + "# Define the members of the "@ + team + " team.\n"@
}

/// Concatenation, in mapping order, of what each record contributes to an
/// artifact.
pub open spec fn rendered_concat(users: Seq<UserView>, entry: spec_fn(UserView) -> Seq<char>) -> Seq<
    char,
>
    decreases users.len(),
{
    if users.len() == 0 {
        Seq::empty()
    } else {
        rendered_concat(users.drop_last(), entry) + entry(users.last())
    }
}

/// Appending one record to the mapping appends its contribution to the text.
pub proof fn lemma_rendered_concat_take_step(
    vs: Seq<UserView>,
    entry: spec_fn(UserView) -> Seq<char>,
    i: int,
)
    requires
        0 <= i < vs.len(),
    ensures
        rendered_concat(vs.take(i + 1), entry) == rendered_concat(vs.take(i), entry) + entry(vs[i]),
{
    assert(vs.take(i + 1).drop_last() =~= vs.take(i));
    assert(vs.take(i + 1).last() == vs[i]);
}

/// Everything in one source-control organization membership block before the
/// role string.
pub open spec fn github_org_block_head(u: UserView) -> Seq<char> {
    "\n# Add @"@ + github_id(u) + " to the organization.\nresource \"github_membership\" \""@
        + github_id(u) + "\" {\n  username = \""@ + github_id(u) + "\"\n  role     = \""@
}

/// Everything in one source-control organization membership block after the
/// role string.
pub open spec fn github_org_block_tail() -> Seq<char> {
    "\"\n}\n"@
}

/// The declaration block one record contributes to the source-control
/// organization membership artifact.
pub open spec fn github_org_block(u: UserView) -> Seq<char> {
    github_org_block_head(u) + spec_role_of(u.is_super_admin).spec_org_label()
        + github_org_block_tail()
}

/// What one record contributes to the source-control organization artifact:
/// its block when it has an identity, nothing otherwise.
pub open spec fn github_org_entry(u: UserView) -> Seq<char> {
    if has_github(u) {
        github_org_block(u)
    } else {
        Seq::empty()
    }
}

/// `github_org_entry` as a first-class function.
pub open spec fn github_org_entry_fn() -> spec_fn(UserView) -> Seq<char> {
    |u: UserView| github_org_entry(u)
}

/// The full source-control organization membership artifact.
pub open spec fn github_org_output(users: Seq<UserView>) -> Seq<char> {
    org_header() + rendered_concat(users, github_org_entry_fn()) + "\n"@
}

/// The account-creation block one record contributes to the cloud-provider
/// organization artifact. The email is derived from the username under the
/// fixed domain suffix.
pub open spec fn aws_org_block(u: UserView) -> Seq<char> {
    "\n# Add @"@ + github_id(u)
        + " to the organization.\nresource \"aws_organizations_account\" \""@ + u.username
        + "\" {\n  name  = \""@ + u.first_name + " "@ + u.last_name + "\"\n  email = \""@
        + u.username
        + "+aws@oxidecomputer.com\"\n\n  parent_id = aws_organizations_organization.engineering.id\n}\n"@
}

/// What one record contributes to the cloud-provider organization artifact;
/// the same presence check as for the source-control artifact.
pub open spec fn aws_org_entry(u: UserView) -> Seq<char> {
    if has_github(u) {
        aws_org_block(u)
    } else {
        Seq::empty()
    }
}

/// `aws_org_entry` as a first-class function.
pub open spec fn aws_org_entry_fn() -> spec_fn(UserView) -> Seq<char> {
    |u: UserView| aws_org_entry(u)
}

/// The full cloud-provider organization membership artifact.
pub open spec fn aws_org_output(users: Seq<UserView>) -> Seq<char> {
    org_header() + rendered_concat(users, aws_org_entry_fn()) + "\n"@
}

/// Everything in one team membership block before the role string.
pub open spec fn github_team_block_head(team: Seq<char>, u: UserView) -> Seq<char> {
    "\n# Add @"@ + github_id(u) + " to "@ + team
        + ".\nresource \"github_team_membership\" \""@ + team + "-"@ + github_id(u)
        + "\" {\n  team_id  = github_team."@ + team + ".id\n  username = \""@ + github_id(u)
        + "\"\n  role     = \""@
}

/// Everything in one team membership block after the role string.
pub open spec fn github_team_block_tail() -> Seq<char> {
    "\"\n}\n"@
}

/// The declaration block one record contributes to a team membership
/// artifact, with a cross-reference to the team's resource identifier.
pub open spec fn github_team_block(team: Seq<char>, u: UserView) -> Seq<char> {
    github_team_block_head(team, u) + spec_role_of(u.is_super_admin).spec_team_label()
        + github_team_block_tail()
}

/// What one record contributes to a team membership artifact.
pub open spec fn github_team_entry(team: Seq<char>, u: UserView) -> Seq<char> {
    if has_github(u) {
        github_team_block(team, u)
    } else {
        Seq::empty()
    }
}

/// `github_team_entry` for one team, as a first-class function.
pub open spec fn github_team_entry_fn(team: Seq<char>) -> spec_fn(UserView) -> Seq<char> {
    |u: UserView| github_team_entry(team, u)
}

/// The full membership artifact of one team, over the members already
/// selected for that team.
pub open spec fn github_team_output(team: Seq<char>, members: Seq<UserView>) -> Seq<char> {
    team_header(team) + rendered_concat(members, github_team_entry_fn(team)) + "\n"@
}

/// Renders the source-control organization membership artifact: one
/// membership declaration per record with a non-empty identity, keyed by that
/// identity, with the elevated role exactly for super admins.
pub fn render_github_org_membership(users: &Vec<UserRecord>) -> (r: String)
    ensures
        r@ == github_org_output(views_of(users@)),
{
    let ghost vs = views_of(users@);
    let mut out = String::new();
    out.append("# THIS IS A GENERATED FILE, DO NOT EDIT THIS FILE DIRECTLY.\n\n");
    out.append("# Define the members of the organization.\n");
    let mut i: usize = 0;
    while i < users.len()
        invariant
            i <= users@.len(),
            vs == views_of(users@),
            vs.len() == users@.len(),
            out@ == org_header() + rendered_concat(vs.take(i as int), github_org_entry_fn()),
        decreases users@.len() - i,
    {
        let u = &users[i];
        proof {
            assert(u@ == vs[i as int]);
        }
        if let Option::Some(g) = &u.github {
            if !g.as_str().is_empty() {
                let role = role_of(u.is_super_admin);
                out.append("\n# Add @");
                out.append(g.as_str());
                out.append(" to the organization.\nresource \"github_membership\" \"");
                out.append(g.as_str());
                out.append("\" {\n  username = \"");
                out.append(g.as_str());
                out.append("\"\n  role     = \"");
                out.append(role.org_label());
                out.append("\"\n}\n");
                proof {
                    assert(has_github(vs[i as int]));
                    assert(g@ == github_id(vs[i as int]));
                }
            }
        }
        proof {
            lemma_rendered_concat_take_step(vs, github_org_entry_fn(), i as int);
            assert(out@ =~= org_header() + rendered_concat(
                vs.take(i as int + 1),
                github_org_entry_fn(),
            ));
        }
        i += 1;
    }
    proof {
        assert(vs.take(vs.len() as int) =~= vs);
    }
    out.append("\n");
    out
}

/// Renders the cloud-provider organization membership artifact: one
/// account-creation declaration per record with a non-empty source-control
/// identity (the same presence check, though the fields used are the
/// username, the display names and the derived email).
pub fn render_aws_org_membership(users: &Vec<UserRecord>) -> (r: String)
    ensures
        r@ == aws_org_output(views_of(users@)),
{
    let ghost vs = views_of(users@);
    let mut out = String::new();
    out.append("# THIS IS A GENERATED FILE, DO NOT EDIT THIS FILE DIRECTLY.\n\n");
    out.append("# Define the members of the organization.\n");
    let mut i: usize = 0;
    while i < users.len()
        invariant
            i <= users@.len(),
            vs == views_of(users@),
            vs.len() == users@.len(),
            out@ == org_header() + rendered_concat(vs.take(i as int), aws_org_entry_fn()),
        decreases users@.len() - i,
    {
        let u = &users[i];
        proof {
            assert(u@ == vs[i as int]);
        }
        if let Option::Some(g) = &u.github {
            if !g.as_str().is_empty() {
                out.append("\n# Add @");
                out.append(g.as_str());
                out.append(" to the organization.\nresource \"aws_organizations_account\" \"");
                out.append(u.username.as_str());
                out.append("\" {\n  name  = \"");
                out.append(u.first_name.as_str());
                out.append(" ");
                out.append(u.last_name.as_str());
                out.append("\"\n  email = \"");
                out.append(u.username.as_str());
                out.append(
                    "+aws@oxidecomputer.com\"\n\n  parent_id = aws_organizations_organization.engineering.id\n}\n",
                );
                proof {
                    assert(has_github(vs[i as int]));
                    assert(g@ == github_id(vs[i as int]));
                }
            }
        }
        proof {
            lemma_rendered_concat_take_step(vs, aws_org_entry_fn(), i as int);
            assert(out@ =~= org_header() + rendered_concat(
                vs.take(i as int + 1),
                aws_org_entry_fn(),
            ));
        }
        i += 1;
    }
    proof {
        assert(vs.take(vs.len() as int) =~= vs);
    }
    out.append("\n");
    out
}

/// Builds the declaration block one team member contributes; the record must
/// carry an identity, as the renderer has already checked.
#[verifier::rlimit(30)]
fn team_member_block(team: &String, u: &UserRecord) -> (r: String)
    requires
        has_github(u@),
    ensures
        r@ == github_team_block(team@, u@),
{
    let mut out = String::new();
    match &u.github {
        Option::Some(g) => {
            let role = role_of(u.is_super_admin);
            out.append("\n# Add @");
            out.append(g.as_str());
            out.append(" to ");
            out.append(team.as_str());
            out.append(".\nresource \"github_team_membership\" \"");
            out.append(team.as_str());
            out.append("-");
            out.append(g.as_str());
            out.append("\" {\n  team_id  = github_team.");
            out.append(team.as_str());
            out.append(".id\n  username = \"");
            out.append(g.as_str());
            out.append("\"\n  role     = \"");
            out.append(role.team_label());
            out.append("\"\n}\n");
            proof {
                assert(g@ == github_id(u@));
                assert(out@ =~= github_team_block(team@, u@));
            }
            out
        },
        Option::None => {
            proof {
                assert(false);
            }
            out
        },
    }
}

/// Renders the membership artifact of one team over its already selected
/// members: one declaration per member with a non-empty identity, with the
/// elevated team role exactly for super admins.
pub fn render_github_team_membership(team: &String, members: &Vec<UserRecord>) -> (r: String)
    ensures
        r@ == github_team_output(team@, views_of(members@)),
{
    let ghost vs = views_of(members@);
    let mut out = String::new();
    out.append("# THIS IS A GENERATED FILE, DO NOT EDIT THIS FILE DIRECTLY.\n\n");
    out.append("# Define the members of the ");
    out.append(team.as_str());
    out.append(" team.\n");
    let mut i: usize = 0;
    while i < members.len()
        invariant
            i <= members@.len(),
            vs == views_of(members@),
            vs.len() == members@.len(),
            out@ == team_header(team@) + rendered_concat(
                vs.take(i as int),
                github_team_entry_fn(team@),
            ),
        decreases members@.len() - i,
    {
        let u = &members[i];
        proof {
            assert(u@ == vs[i as int]);
        }
        if let Option::Some(g) = &u.github {
            if !g.as_str().is_empty() {
                proof {
                    assert(has_github(vs[i as int]));
                }
                let block = team_member_block(team, u);
                out.append(block.as_str());
            }
        }
        proof {
            lemma_rendered_concat_take_step(vs, github_team_entry_fn(team@), i as int);
            assert(out@ =~= team_header(team@) + rendered_concat(
                vs.take(i as int + 1),
                github_team_entry_fn(team@),
            ));
        }
        i += 1;
    }
    proof {
        assert(vs.take(vs.len() as int) =~= vs);
    }
    out.append("\n");
    out
}

/// Selects, in mapping order, the records whose group names contain the team
/// name exactly.
pub fn team_members(users: &Vec<UserRecord>, team: &String) -> (r: Vec<UserRecord>)
    ensures
        views_of(r@) == views_of(users@).filter(team_filter(team@)),
{
    let ghost vs = views_of(users@);
    let mut r: Vec<UserRecord> = Vec::new();
    let mut i: usize = 0;
    while i < users.len()
        invariant
            i <= users@.len(),
            vs == views_of(users@),
            vs.len() == users@.len(),
            views_of(r@) == vs.take(i as int).filter(team_filter(team@)),
        decreases users@.len() - i,
    {
        let u = &users[i];
        proof {
            assert(u@ == vs[i as int]);
        }
        if u.is_in_team(team) {
            let ghost r_old = r@;
            let c = u.clone();
            r.push(c);
            proof {
                assert(views_of(r@) =~= views_of(r_old).push(c@));
            }
        }
        proof {
            crate::laws::lemma_filter_take_step(vs, team_filter(team@), i as int);
            assert(in_team(vs[i as int], team@) == team_filter(team@)(vs[i as int]));
            assert(views_of(r@) == vs.take(i as int + 1).filter(team_filter(team@)));
        }
        i += 1;
    }
    proof {
        assert(vs.take(vs.len() as int) =~= vs);
    }
    r
}

} // verus!
