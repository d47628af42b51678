//! Laws the generated artifacts obey, stated over the spec-level outputs and
//! proved once and for all: records without a source-control identity leave
//! no trace; the role string follows the super-admin flag; a team artifact
//! lists exactly its members' identities, in mapping order.

use vstd::prelude::*;

use crate::model::{
    github_id, github_id_fn, has_github, has_github_fn, in_team, spec_role_of, team_filter,
    UserView,
};
use crate::pipeline::pipeline_artifacts;
use crate::render::{
    aws_org_entry_fn, aws_org_output, github_org_block, github_org_block_head,
    github_org_block_tail, github_org_entry_fn, github_org_output, github_team_block,
    github_team_block_head, github_team_block_tail, github_team_entry_fn, github_team_output,
    org_header, rendered_concat, team_header,
};

verus! {

/// Taking one more element extends the filtered subsequence by that element
/// exactly when it satisfies the predicate.
pub proof fn lemma_filter_take_step<A>(s: Seq<A>, p: spec_fn(A) -> bool, i: int)
    requires
        0 <= i < s.len(),
    ensures
        s.take(i + 1).filter(p) == (if p(s[i]) {
            s.take(i).filter(p).push(s[i])
        } else {
            s.take(i).filter(p)
        }),
{
    reveal(Seq::filter);
    assert(s.take(i + 1).drop_last() =~= s.take(i));
    assert(s.take(i + 1).last() == s[i]);
}

/// Filtering a sequence extended by one element.
pub proof fn lemma_filter_push<A>(s: Seq<A>, p: spec_fn(A) -> bool, a: A)
    ensures
        s.push(a).filter(p) == (if p(a) {
            s.filter(p).push(a)
        } else {
            s.filter(p)
        }),
{
    reveal(Seq::filter);
    assert(s.push(a).drop_last() =~= s);
    assert(s.push(a).last() == a);
}

/// Rendering a sequence extended by one record appends that record's
/// contribution.
pub proof fn lemma_rendered_concat_push(
    users: Seq<UserView>,
    entry: spec_fn(UserView) -> Seq<char>,
    u: UserView,
)
    ensures
        rendered_concat(users.push(u), entry) == rendered_concat(users, entry) + entry(u),
{
    assert(users.push(u).drop_last() =~= users);
    assert(users.push(u).last() == u);
}

/// A contribution function that yields nothing off `keep` renders the same
/// text on a mapping and on its `keep`-filtered subsequence.
pub proof fn lemma_rendered_concat_filter(
    users: Seq<UserView>,
    entry: spec_fn(UserView) -> Seq<char>,
    keep: spec_fn(UserView) -> bool,
)
    requires
        forall|u: UserView| !keep(u) ==> #[trigger] entry(u) == Seq::<char>::empty(),
    ensures
        rendered_concat(users.filter(keep), entry) == rendered_concat(users, entry),
    decreases users.len(),
{
    reveal(Seq::filter);
    if users.len() == 0 {
        assert(users.filter(keep) =~= users);
    } else {
        let dl = users.drop_last();
        let last = users.last();
        lemma_rendered_concat_filter(dl, entry, keep);
        if keep(last) {
            lemma_rendered_concat_push(dl.filter(keep), entry, last);
        } else {
            assert(rendered_concat(dl, entry) + entry(last) =~= rendered_concat(dl, entry));
        }
    }
}

/// Filtering by one predicate and then by another filters by their
/// conjunction.
pub proof fn lemma_filter_compose<A>(
    s: Seq<A>,
    p: spec_fn(A) -> bool,
    q: spec_fn(A) -> bool,
    pq: spec_fn(A) -> bool,
)
    requires
        forall|a: A| #[trigger] pq(a) == (p(a) && q(a)),
    ensures
        s.filter(p).filter(q) == s.filter(pq),
    decreases s.len(),
{
    reveal(Seq::filter);
    if s.len() == 0 {
        assert(s.filter(p) =~= s);
        assert(s.filter(pq) =~= s);
    } else {
        let dl = s.drop_last();
        let last = s.last();
        lemma_filter_compose(dl, p, q, pq);
        if p(last) {
            lemma_filter_push(dl.filter(p), q, last);
        }
    }
}

/// Records without a source-control identity are absent from every artifact:
/// dropping them from the mapping leaves both organization artifacts and any
/// team artifact unchanged, whatever groups those records name.
pub proof fn lemma_no_identity_no_trace(users: Seq<UserView>, team: Seq<char>)
    ensures
        github_org_output(users.filter(has_github_fn())) == github_org_output(users),
        aws_org_output(users.filter(has_github_fn())) == aws_org_output(users),
        github_team_output(team, users.filter(has_github_fn())) == github_team_output(team, users),
{
    assert forall|u: UserView| !has_github_fn()(u) implies #[trigger] github_org_entry_fn()(u)
        == Seq::<char>::empty() by {}
    assert forall|u: UserView| !has_github_fn()(u) implies #[trigger] aws_org_entry_fn()(u)
        == Seq::<char>::empty() by {}
    assert forall|u: UserView| !has_github_fn()(u) implies #[trigger] github_team_entry_fn(team)(u)
        == Seq::<char>::empty() by {}
    lemma_rendered_concat_filter(users, github_org_entry_fn(), has_github_fn());
    lemma_rendered_concat_filter(users, aws_org_entry_fn(), has_github_fn());
    lemma_rendered_concat_filter(users, github_team_entry_fn(team), has_github_fn());
}

/// The role string in a membership block follows the super-admin flag, at the
/// role position of the block: `admin` (organization) and `maintainer` (team)
/// when the flag is set, `member` in both artifacts when it is not.
pub proof fn lemma_role_branches(u: UserView, team: Seq<char>)
    ensures
        github_org_block(u) == github_org_block_head(u) + spec_role_of(
            u.is_super_admin,
        ).spec_org_label() + github_org_block_tail(),
        github_team_block(team, u) == github_team_block_head(team, u) + spec_role_of(
            u.is_super_admin,
        ).spec_team_label() + github_team_block_tail(),
        u.is_super_admin ==> spec_role_of(u.is_super_admin).spec_org_label() == "admin"@,
        u.is_super_admin ==> spec_role_of(u.is_super_admin).spec_team_label() == "maintainer"@,
        !u.is_super_admin ==> spec_role_of(u.is_super_admin).spec_org_label() == "member"@,
        !u.is_super_admin ==> spec_role_of(u.is_super_admin).spec_team_label() == "member"@,
{
}

/// Running the pipeline twice on unchanged input produces byte-identical
/// artifacts: each run's (path, content) pairs equal `pipeline_artifacts` of
/// the input views — which is what `run_pipeline` ensures of every run — and
/// that value depends on nothing but the input.
pub proof fn lemma_pipeline_idempotent(
    users: Seq<UserView>,
    teams: Seq<Seq<char>>,
    first: Seq<(Seq<char>, Seq<char>)>,
    second: Seq<(Seq<char>, Seq<char>)>,
)
    requires
        first == pipeline_artifacts(users, teams),
        second == pipeline_artifacts(users, teams),
    ensures
        first == second,
{
}

/// A mapping with zero records yields well-formed artifacts holding only the
/// header comment and the closing newline — for both organization artifacts
/// and for any team.
pub proof fn lemma_empty_mapping_header_only(team: Seq<char>)
    ensures
        github_org_output(Seq::empty()) == org_header() + "\n"@,
        aws_org_output(Seq::empty()) == org_header() + "\n"@,
        github_team_output(team, Seq::empty()) == team_header(team) + "\n"@,
{
    assert(org_header() + Seq::<char>::empty() + "\n"@ =~= org_header() + "\n"@);
    assert(team_header(team) + Seq::<char>::empty() + "\n"@ =~= team_header(team) + "\n"@);
}

/// Records in the team that also carry an identity, as a first-class
/// predicate.
pub open spec fn team_and_github_fn(team: Seq<char>) -> spec_fn(UserView) -> bool {
    |u: UserView| in_team(u, team) && has_github(u)
}

/// The source-control identities a team artifact lists, in mapping order.
pub open spec fn team_identities(users: Seq<UserView>, team: Seq<char>) -> Seq<Seq<char>> {
    users.filter(team_and_github_fn(team)).map_values(github_id_fn())
}

/// A team artifact contains exactly the identities of the records whose group
/// names contain the team name and that carry an identity — one block per
/// such record, in mapping order — and nothing else: its text is the header,
/// those records' blocks in order, and a closing newline.
pub proof fn lemma_team_artifact_exact(users: Seq<UserView>, team: Seq<char>)
    ensures
        github_team_output(team, users.filter(team_filter(team))) == team_header(team)
            + rendered_concat(
            users.filter(team_and_github_fn(team)),
            github_team_entry_fn(team),
        ) + "\n"@,
        team_identities(users, team) == users.filter(team_and_github_fn(team)).map_values(
            github_id_fn(),
        ),
        forall|j: int|
            0 <= j < users.filter(team_and_github_fn(team)).len()
                ==> #[trigger] github_team_entry_fn(team)(
                users.filter(team_and_github_fn(team))[j],
            ) == github_team_block(team, users.filter(team_and_github_fn(team))[j])
                && team_identities(users, team)[j] == github_id(
                users.filter(team_and_github_fn(team))[j],
            ),
        forall|u: UserView|
            users.contains(u) && in_team(u, team) && has_github(u)
                ==> #[trigger] users.filter(team_and_github_fn(team)).contains(u),
{
    broadcast use vstd::seq_lib::group_filter_ensures;

    assert forall|a: UserView| #[trigger]
        team_and_github_fn(team)(a) == (team_filter(team)(a) && has_github_fn()(a)) by {}
    lemma_filter_compose(users, team_filter(team), has_github_fn(), team_and_github_fn(team));
    assert forall|u: UserView| !has_github_fn()(u) implies #[trigger] github_team_entry_fn(team)(u)
        == Seq::<char>::empty() by {}
    lemma_rendered_concat_filter(
        users.filter(team_filter(team)),
        github_team_entry_fn(team),
        has_github_fn(),
    );
}

} // verus!
