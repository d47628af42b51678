//! One full run: render both organization artifacts and one artifact per
//! team, each paired with its destination path. The result is a function of
//! the records and team names alone — two runs on the same input produce
//! byte-identical artifacts — and writing the files is left to the caller.

use vstd::prelude::*;

use crate::model::{team_filter, views_of, UserRecord, UserView};
use crate::render::{
    aws_org_output, github_org_output, github_team_output, render_aws_org_membership,
    render_github_org_membership, render_github_team_membership, team_members,
};

verus! {

/// A rendered artifact: where it goes and exactly what it holds. Artifacts
/// are created fresh each run and never read back.
pub struct Artifact {
    pub path: String,
    pub content: String,
}

impl View for Artifact {
    type V = (Seq<char>, Seq<char>);

    open spec fn view(&self) -> (Seq<char>, Seq<char>) {
        (self.path@, self.content@)
    }
}

/// The (path, content) views of a run's artifacts, in write order.
pub open spec fn artifact_views(arts: Seq<Artifact>) -> Seq<(Seq<char>, Seq<char>)> {
    arts.map_values(|a: Artifact| a@)
}

/// The team names of the given list, as character sequences.
pub open spec fn names_of(teams: Seq<String>) -> Seq<Seq<char>> {
    teams.map_values(|t: String| t@)
}

/// Destination of the source-control organization membership artifact.
pub open spec fn github_org_path() -> Seq<char> {
    "terraform/github/generated.organization-members.tf"@
}

/// Destination of the cloud-provider organization membership artifact.
pub open spec fn aws_org_path() -> Seq<char> {
    "terraform/aws/generated.organization-members.tf"@
}

/// Destination of one team's membership artifact.
pub open spec fn team_file_path(team: Seq<char>) -> Seq<char> {
    "terraform/github/generated.team-members-"@ + team + ".tf"@
}

/// Everything one run produces, in write order: the two organization
/// artifacts, then one membership artifact per team over the records whose
/// group names contain that team's name.
pub open spec fn pipeline_artifacts(users: Seq<UserView>, teams: Seq<Seq<char>>) -> Seq<
    (Seq<char>, Seq<char>),
> {
    seq![
        (github_org_path(), github_org_output(users)),
        (aws_org_path(), aws_org_output(users)),
    ] + teams.map_values(
        |t: Seq<char>| (team_file_path(t), github_team_output(t, users.filter(team_filter(t)))),
    )
}

/// Builds the destination path of one team's artifact.
pub fn team_file_name(team: &String) -> (r: String)
    ensures
        r@ == team_file_path(team@),
{
    let mut r = String::from_str("terraform/github/generated.team-members-");
    r.append(team.as_str());
    r.append(".tf");
    proof {
        assert(r@ =~= team_file_path(team@));
    }
    r
}

/// The fixed team list files are generated for by default; any other list may
/// be passed to `run_pipeline` instead.
pub fn default_teams() -> (r: Vec<String>)
    ensures
        names_of(r@) == seq!["all"@, "eng"@, "friends-of-oxide"@],
{
    let mut r: Vec<String> = Vec::new();
    r.push(String::from_str("all"));
    r.push(String::from_str("eng"));
    r.push(String::from_str("friends-of-oxide"));
    proof {
        assert(names_of(r@) =~= seq!["all"@, "eng"@, "friends-of-oxide"@]);
    }
    r
}

/// Runs the whole pipeline once: every artifact, with its destination, as a
/// function of the user records and team names alone.
pub fn run_pipeline(users: &Vec<UserRecord>, teams: &Vec<String>) -> (r: Vec<Artifact>)
    ensures
        artifact_views(r@) == pipeline_artifacts(views_of(users@), names_of(teams@)),
        r@.len() == 2 + teams@.len(),
{
    let ghost uvs = views_of(users@);
    let ghost tns = names_of(teams@);
    let mut r: Vec<Artifact> = Vec::new();
    let content = render_github_org_membership(users);
    r.push(
        Artifact {
            path: String::from_str("terraform/github/generated.organization-members.tf"),
            content,
        },
    );
    let content = render_aws_org_membership(users);
    r.push(
        Artifact {
            path: String::from_str("terraform/aws/generated.organization-members.tf"),
            content,
        },
    );
    proof {
        assert(artifact_views(r@) =~= pipeline_artifacts(uvs, tns.take(0)));
    }
    let mut i: usize = 0;
    while i < teams.len()
        invariant
            i <= teams@.len(),
            uvs == views_of(users@),
            tns == names_of(teams@),
            tns.len() == teams@.len(),
            r@.len() == 2 + i,
            artifact_views(r@) == pipeline_artifacts(uvs, tns.take(i as int)),
        decreases teams@.len() - i,
    {
        let team = &teams[i];
        proof {
            assert(team@ == tns[i as int]);
        }
        let members = team_members(users, team);
        let content = render_github_team_membership(team, &members);
        let path = team_file_name(team);
        let ghost r_old = r@;
        let ghost pair = (path@, content@);
        r.push(Artifact { path, content });
        proof {
            let t = tns[i as int];
            assert(pair == (team_file_path(t), github_team_output(t, uvs.filter(team_filter(t)))));
            assert(artifact_views(r@) =~= artifact_views(r_old).push(pair));
            assert(tns.take(i as int + 1) =~= tns.take(i as int).push(t));
            assert(pipeline_artifacts(uvs, tns.take(i as int + 1)) =~= pipeline_artifacts(
                uvs,
                tns.take(i as int),
            ).push(pair));
        }
        i += 1;
    }
    proof {
        assert(tns.take(tns.len() as int) =~= tns);
    }
    r
}

} // verus!
