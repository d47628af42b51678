use teams::model::{Role, UserRecord};
use teams::pipeline::{default_teams, run_pipeline, team_file_name};
use teams::render::{
    render_aws_org_membership, render_github_org_membership, render_github_team_membership,
    team_members,
};

fn user(
    username: &str,
    first_name: &str,
    last_name: &str,
    github: Option<&str>,
    is_super_admin: bool,
    groups: Option<Vec<&str>>,
) -> UserRecord {
    UserRecord {
        username: username.to_string(),
        first_name: first_name.to_string(),
        last_name: last_name.to_string(),
        github: github.map(|g| g.to_string()),
        is_super_admin,
        groups: groups.map(|gs| gs.into_iter().map(|g| g.to_string()).collect()),
    }
}

fn scenario_users() -> Vec<UserRecord> {
    vec![
        user(
            "alice",
            "Alice",
            "Smith",
            Some("alice-gh"),
            true,
            Some(vec!["eng"]),
        ),
        user("bob", "Bob", "Jones", Some(""), false, Some(vec!["eng"])),
        user(
            "carol",
            "Carol",
            "Kim",
            Some("carol-gh"),
            false,
            Some(vec!["all", "eng"]),
        ),
    ]
}

const EMPTY_ORG: &str = r#"# THIS IS A GENERATED FILE, DO NOT EDIT THIS FILE DIRECTLY.

# Define the members of the organization.

"#;

#[test]
fn empty_mapping_yields_header_only_artifacts() {
    let users: Vec<UserRecord> = Vec::new();
    assert_eq!(render_github_org_membership(&users), EMPTY_ORG);
    assert_eq!(render_aws_org_membership(&users), EMPTY_ORG);
    let artifacts = run_pipeline(&users, &default_teams());
    assert_eq!(artifacts.len(), 5);
    assert_eq!(artifacts[0].content, EMPTY_ORG);
    assert_eq!(artifacts[1].content, EMPTY_ORG);
    assert_eq!(
        artifacts[4].content,
        r#"# THIS IS A GENERATED FILE, DO NOT EDIT THIS FILE DIRECTLY.

# Define the members of the friends-of-oxide team.

"#
    );
}

#[test]
fn concrete_scenario_org_membership() {
    let expected = r#"# THIS IS A GENERATED FILE, DO NOT EDIT THIS FILE DIRECTLY.

# Define the members of the organization.

# Add @alice-gh to the organization.
resource "github_membership" "alice-gh" {
  username = "alice-gh"
  role     = "admin"
}

# Add @carol-gh to the organization.
resource "github_membership" "carol-gh" {
  username = "carol-gh"
  role     = "member"
}

"#;
    assert_eq!(render_github_org_membership(&scenario_users()), expected);
}

#[test]
fn concrete_scenario_aws_membership() {
    let expected = r#"# THIS IS A GENERATED FILE, DO NOT EDIT THIS FILE DIRECTLY.

# Define the members of the organization.

# Add @alice-gh to the organization.
resource "aws_organizations_account" "alice" {
  name  = "Alice Smith"
  email = "alice+aws@oxidecomputer.com"

  parent_id = aws_organizations_organization.engineering.id
}

# Add @carol-gh to the organization.
resource "aws_organizations_account" "carol" {
  name  = "Carol Kim"
  email = "carol+aws@oxidecomputer.com"

  parent_id = aws_organizations_organization.engineering.id
}

"#;
    assert_eq!(render_aws_org_membership(&scenario_users()), expected);
}

#[test]
fn concrete_scenario_eng_team() {
    let users = scenario_users();
    let eng = "eng".to_string();
    let members = team_members(&users, &eng);
    let expected = r#"# THIS IS A GENERATED FILE, DO NOT EDIT THIS FILE DIRECTLY.

# Define the members of the eng team.

# Add @alice-gh to eng.
resource "github_team_membership" "eng-alice-gh" {
  team_id  = github_team.eng.id
  username = "alice-gh"
  role     = "maintainer"
}

# Add @carol-gh to eng.
resource "github_team_membership" "eng-carol-gh" {
  team_id  = github_team.eng.id
  username = "carol-gh"
  role     = "member"
}

"#;
    assert_eq!(render_github_team_membership(&eng, &members), expected);
}

#[test]
fn concrete_scenario_all_team_and_empty_team() {
    let users = scenario_users();
    let all = "all".to_string();
    let expected_all = r#"# THIS IS A GENERATED FILE, DO NOT EDIT THIS FILE DIRECTLY.

# Define the members of the all team.

# Add @carol-gh to all.
resource "github_team_membership" "all-carol-gh" {
  team_id  = github_team.all.id
  username = "carol-gh"
  role     = "member"
}

"#;
    assert_eq!(
        render_github_team_membership(&all, &team_members(&users, &all)),
        expected_all
    );
    let friends = "friends-of-oxide".to_string();
    let expected_friends = r#"# THIS IS A GENERATED FILE, DO NOT EDIT THIS FILE DIRECTLY.

# Define the members of the friends-of-oxide team.

"#;
    assert_eq!(
        render_github_team_membership(&friends, &team_members(&users, &friends)),
        expected_friends
    );
}

#[test]
fn records_without_identity_leave_no_trace() {
    let mut users = scenario_users();
    users.push(user(
        "dave",
        "Dave",
        "Doe",
        None,
        true,
        Some(vec!["all", "eng", "friends-of-oxide"]),
    ));
    let with_dave = run_pipeline(&users, &default_teams());
    let without_dave = run_pipeline(&scenario_users(), &default_teams());
    for (a, b) in with_dave.iter().zip(without_dave.iter()) {
        assert_eq!(a.path, b.path);
        assert_eq!(a.content, b.content);
    }
    for a in with_dave.iter() {
        assert!(!a.content.contains("dave"));
        assert!(!a.content.contains("Dave"));
    }
}

#[test]
fn role_follows_super_admin_flag() {
    let admin = vec![user("erin", "Erin", "Lee", Some("erin-gh"), true, None)];
    let plain = vec![user("erin", "Erin", "Lee", Some("erin-gh"), false, None)];
    let org_admin = render_github_org_membership(&admin);
    let org_plain = render_github_org_membership(&plain);
    assert!(org_admin.contains("role     = \"admin\""));
    assert!(!org_admin.contains("role     = \"member\""));
    assert!(org_plain.contains("role     = \"member\""));
    assert!(!org_plain.contains("role     = \"admin\""));

    let team = "ops".to_string();
    let team_admin = render_github_team_membership(&team, &admin);
    let team_plain = render_github_team_membership(&team, &plain);
    assert!(team_admin.contains("role     = \"maintainer\""));
    assert!(team_plain.contains("role     = \"member\""));
    assert!(!team_plain.contains("role     = \"maintainer\""));
}

#[test]
fn team_members_keep_mapping_order() {
    let users = vec![
        user("u1", "A", "A", Some("gh1"), false, Some(vec!["t"])),
        user("u2", "B", "B", Some("gh2"), false, None),
        user("u3", "C", "C", Some("gh3"), true, Some(vec!["x", "t"])),
        user("u4", "D", "D", Some("gh4"), false, Some(vec!["T"])),
        user("u5", "E", "E", Some("gh5"), false, Some(vec!["t"])),
    ];
    let t = "t".to_string();
    let members = team_members(&users, &t);
    let names: Vec<&str> = members.iter().map(|m| m.username.as_str()).collect();
    assert_eq!(names, vec!["u1", "u3", "u5"]);
    let rendered = render_github_team_membership(&t, &members);
    let first = rendered.find("gh1").unwrap();
    let second = rendered.find("gh3").unwrap();
    let third = rendered.find("gh5").unwrap();
    assert!(first < second && second < third);
    assert!(!rendered.contains("gh2"));
    assert!(!rendered.contains("gh4"));
}

#[test]
fn pipeline_is_deterministic() {
    let users = scenario_users();
    let teams_list = default_teams();
    let first = run_pipeline(&users, &teams_list);
    let second = run_pipeline(&users, &teams_list);
    assert_eq!(first.len(), second.len());
    for (a, b) in first.iter().zip(second.iter()) {
        assert_eq!(a.path, b.path);
        assert_eq!(a.content, b.content);
    }
}

#[test]
fn pipeline_paths_are_fixed() {
    let artifacts = run_pipeline(&scenario_users(), &default_teams());
    let paths: Vec<&str> = artifacts.iter().map(|a| a.path.as_str()).collect();
    assert_eq!(
        paths,
        vec![
            "terraform/github/generated.organization-members.tf",
            "terraform/aws/generated.organization-members.tf",
            "terraform/github/generated.team-members-all.tf",
            "terraform/github/generated.team-members-eng.tf",
            "terraform/github/generated.team-members-friends-of-oxide.tf",
        ]
    );
    assert_eq!(
        team_file_name(&"eng".to_string()),
        "terraform/github/generated.team-members-eng.tf"
    );
}

#[test]
fn default_team_list() {
    let teams_list = default_teams();
    let names: Vec<&str> = teams_list.iter().map(|t| t.as_str()).collect();
    assert_eq!(names, vec!["all", "eng", "friends-of-oxide"]);
}

#[test]
fn role_labels() {
    assert_eq!(teams::model::role_of(true), Role::Elevated);
    assert_eq!(teams::model::role_of(false), Role::Member);
    assert_eq!(Role::Elevated.org_label(), "admin");
    assert_eq!(Role::Member.org_label(), "member");
    assert_eq!(Role::Elevated.team_label(), "maintainer");
    assert_eq!(Role::Member.team_label(), "member");
}

#[test]
fn team_membership_is_exact_match() {
    let u = user("f", "F", "F", Some("f-gh"), false, Some(vec!["eng"]));
    assert!(u.is_in_team(&"eng".to_string()));
    assert!(!u.is_in_team(&"en".to_string()));
    assert!(!u.is_in_team(&"Eng".to_string()));
    assert!(!u.is_in_team(&"engineering".to_string()));
    let no_groups = user("g", "G", "G", Some("g-gh"), false, None);
    assert!(!no_groups.is_in_team(&"eng".to_string()));
}
