use vstd::prelude::*;
use vstd::string::*;
use crate::text::{is_prefix, starts_with_prefix, strip_prefix_of};

verus! {

/// A remote-tracking branch as reported after the fetch: its shorthand name
/// (prefixed with the remote's name) and the commit it points at.
#[derive(Debug, Clone, PartialEq, Eq)]
pub struct RemoteBranch {
    pub name: String,
    pub target: String,
}

/// One local tracking branch to materialize: the remote-tracking ref it
/// mirrors, the derived local branch name, and the commit both point at.
#[derive(Debug, Clone, PartialEq, Eq)]
pub struct BranchMapping {
    pub remote_ref: String,
    pub local_name: String,
    pub target: String,
}

impl View for RemoteBranch {
    type V = (Seq<char>, Seq<char>);

    open spec fn view(&self) -> (Seq<char>, Seq<char>) {
        (self.name@, self.target@)
    }
}

impl View for BranchMapping {
    type V = (Seq<char>, Seq<char>, Seq<char>);

    open spec fn view(&self) -> (Seq<char>, Seq<char>, Seq<char>) {
        (self.remote_ref@, self.local_name@, self.target@)
    }
}

/// The prefix every remote-tracking branch of the source remote carries.
pub open spec fn remote_prefix() -> Seq<char> {
    "origin/"@
}

/// The shorthand of the symbolic alias that names the remote's default
/// branch. It is not a real branch and must never be materialized.
pub open spec fn head_alias() -> Seq<char> {
    "origin/HEAD"@
}

/// Whether a remote-tracking branch name is exactly the symbolic HEAD alias.
/// A real branch whose name merely begins the same way is a branch like any
/// other and is mirrored.
pub open spec fn is_head_alias(name: Seq<char>) -> bool {
    name == head_alias()
}

/// The local branch name derived from a remote-tracking branch name by
/// stripping the remote prefix.
pub open spec fn local_of(name: Seq<char>) -> Seq<char> {
    name.skip(remote_prefix().len() as int)
}

/// The views of a list of remote branches.
pub open spec fn branch_views(branches: Seq<RemoteBranch>) -> Seq<(Seq<char>, Seq<char>)> {
    branches.map_values(|b: RemoteBranch| b@)
}

/// The views of a list of branch mappings.
pub open spec fn mapping_views(plan: Seq<BranchMapping>) -> Seq<(Seq<char>, Seq<char>, Seq<char>)> {
    plan.map_values(|m: BranchMapping| m@)
}

/// The views of a list of strings.
pub open spec fn string_views(v: Seq<String>) -> Seq<Seq<char>> {
    v.map_values(|s: String| s@)
}

/// The branch plan derived from the fetched remote-tracking branches, in
/// order: the symbolic HEAD alias, and only that alias, is left out; every
/// other branch yields a local branch named by stripping the remote prefix,
/// pointing at the same commit the fetch reported.
pub open spec fn spec_plan(branches: Seq<(Seq<char>, Seq<char>)>) -> Seq<
    (Seq<char>, Seq<char>, Seq<char>),
>
    decreases branches.len(),
{
    if branches.len() == 0 {
        Seq::empty()
    } else {
        let rest = spec_plan(branches.drop_last());
        let b = branches.last();
        if is_head_alias(b.0) {
            rest
        } else {
            rest.push((b.0, local_of(b.0), b.1))
        }
    }
}

/// Derives the local tracking branches to materialize from the fetched
/// remote-tracking branches. Relies on every name carrying the remote prefix,
/// as every remote-tracking branch of a single named remote does.
pub fn plan_local_branches(branches: &Vec<RemoteBranch>) -> (plan: Vec<BranchMapping>)
    requires
        forall|i: int|
            0 <= i < branches@.len() ==> is_prefix(remote_prefix(), branches@[i].name@),
    ensures
        mapping_views(plan@) == spec_plan(branch_views(branches@)),
{
    let head = String::from_str("origin/HEAD");
    let mut plan: Vec<BranchMapping> = Vec::new();
    let mut i: usize = 0;
    while i < branches.len()
        invariant
            0 <= i <= branches@.len(),
            head@ == head_alias(),
            forall|k: int|
                0 <= k < branches@.len() ==> is_prefix(remote_prefix(), branches@[k].name@),
            mapping_views(plan@) == spec_plan(branch_views(branches@).take(i as int)),
        decreases branches@.len() - i,
    {
        let ghost pre = branch_views(branches@).take(i as int);
        let b = &branches[i];
        if !(b.name == head) {
            let local_name = strip_prefix_of(b.name.as_str(), "origin/");
            plan.push(
                BranchMapping {
                    remote_ref: b.name.clone(),
                    local_name,
                    target: b.target.clone(),
                },
            );
        }
        i += 1;
        proof {
            let cur = branch_views(branches@).take(i as int);
            assert(cur.drop_last() =~= pre);
            assert(cur.last() == branches@[i - 1]@);
            assert(mapping_views(plan@) =~= spec_plan(cur));
        }
    }
    assert(branch_views(branches@).take(branches@.len() as int) =~= branch_views(branches@));
    plan
}

/// The symbolic HEAD alias is never materialized: every entry of the branch
/// plan stems from a fetched branch that is not the HEAD alias, keeps that
/// branch's target commit unchanged, and names the local branch by stripping
/// the remote prefix. No entry is invented.
pub proof fn lemma_head_never_materialized(branches: Seq<(Seq<char>, Seq<char>)>)
    ensures
        forall|j: int|
            0 <= j < spec_plan(branches).len() ==> !is_head_alias(#[trigger] spec_plan(branches)[j].0),
        forall|j: int|
            0 <= j < spec_plan(branches).len() ==> exists|i: int|
                0 <= i < branches.len() && branches[i] == (
                    #[trigger] spec_plan(branches)[j].0,
                    spec_plan(branches)[j].2,
                ) && spec_plan(branches)[j].1 == local_of(spec_plan(branches)[j].0),
    decreases branches.len(),
{
    if branches.len() > 0 {
        lemma_head_never_materialized(branches.drop_last());
        let rest = spec_plan(branches.drop_last());
        let b = branches.last();
        assert forall|j: int| 0 <= j < rest.len() implies exists|i: int|
            0 <= i < branches.len() && branches[i] == (#[trigger] rest[j].0, rest[j].2)
                && rest[j].1 == local_of(rest[j].0) by {
            let i = choose|i: int|
                0 <= i < branches.drop_last().len() && branches.drop_last()[i] == (rest[j].0, rest[j].2)
                    && rest[j].1 == local_of(rest[j].0);
            assert(branches[i] == (rest[j].0, rest[j].2));
        }
        if !is_head_alias(b.0) {
            assert(branches[branches.len() - 1] == b);
        }
    }
}

/// The full ref name of a local branch.
pub open spec fn local_ref_of(local: Seq<char>) -> Seq<char> {
    "refs/heads/"@ + local
}

/// The forced refspec that pushes a ref onto the identically named ref at the
/// destination.
pub open spec fn refspec_of(ref_name: Seq<char>) -> Seq<char> {
    "+"@ + ref_name + ":"@ + ref_name
}

/// The full ref name of a local branch.
pub fn local_ref_name(local: &str) -> (r: String)
    ensures
        r@ == local_ref_of(local@),
{
    let r = String::from_str("refs/heads/").concat(local);
    r
}

/// The forced refspec mapping a ref onto the identically named destination
/// ref.
pub fn push_refspec(ref_name: &str) -> (r: String)
    ensures
        r@ == refspec_of(ref_name@),
{
    let r = String::from_str("+").concat(ref_name).concat(":").concat(ref_name);
    assert(r@ =~= refspec_of(ref_name@));
    r
}

/// The refspecs that push every planned local branch, in plan order.
pub open spec fn spec_push_refs(plan: Seq<(Seq<char>, Seq<char>, Seq<char>)>) -> Seq<Seq<char>> {
    plan.map_values(|m: (Seq<char>, Seq<char>, Seq<char>)| refspec_of(local_ref_of(m.1)))
}

/// Builds the push refspecs for the planned local branches, in plan order.
pub fn push_refspecs(plan: &Vec<BranchMapping>) -> (r: Vec<String>)
    ensures
        string_views(r@) == spec_push_refs(mapping_views(plan@)),
{
    let mut r: Vec<String> = Vec::new();
    let mut i: usize = 0;
    while i < plan.len()
        invariant
            0 <= i <= plan@.len(),
            r@.len() == i as int,
            string_views(r@) =~= spec_push_refs(mapping_views(plan@)).take(i as int),
        decreases plan@.len() - i,
    {
        let full = local_ref_name(plan[i].local_name.as_str());
        let rs = push_refspec(full.as_str());
        let ghost rsg = rs@;
        r.push(rs);
        i += 1;
        proof {
            let mv = mapping_views(plan@);
            let ts = spec_push_refs(mv);
            assert(mv.len() == plan@.len());
            assert(ts.len() == plan@.len());
            assert(mv[i - 1] == plan@[i - 1]@);
            assert(ts[i - 1] == refspec_of(local_ref_of(mv[i - 1].1)));
            assert(rsg == refspec_of(local_ref_of(plan@[i - 1].local_name@)));
            assert(r@.len() == i as int);
            assert(r@[i - 1]@ == rsg);
            assert(string_views(r@)[i - 1] == rsg);
            assert(string_views(r@) =~= ts.take(i as int));
        }
    }
    assert(string_views(r@) =~= spec_push_refs(mapping_views(plan@)));
    r
}

/// The transport URL that authenticates as the synthetic access-token user.
pub open spec fn remote_url_of(token: Seq<char>, repo_path: Seq<char>) -> Seq<char> {
    "https://x-access-token:"@ + token + "@github.com/"@ + repo_path
}

/// The transport URL for a destination repository path, authenticated with
/// the access token as a synthetic username and an empty password.
pub fn authenticated_remote_url(token: &str, repo_path: &str) -> (r: String)
    ensures
        r@ == remote_url_of(token@, repo_path@),
{
    let r = String::from_str("https://x-access-token:").concat(token).concat(
        "@github.com/",
    ).concat(repo_path);
    assert(r@ =~= remote_url_of(token@, repo_path@));
    r
}

/// The web prefix that a clone URL carries in front of the repository path.
pub open spec fn host_prefix() -> Seq<char> {
    "https://github.com/"@
}

/// A clone URL with every leading occurrence of the web prefix removed.
pub open spec fn spec_trim_host(s: Seq<char>) -> Seq<char>
    decreases s.len(),
{
    if host_prefix().len() > 0 && is_prefix(host_prefix(), s) {
        spec_trim_host(s.skip(host_prefix().len() as int))
    } else {
        s
    }
}

/// The authenticated transport URL for the source: the clone URL with its web
/// prefix replaced by the token-bearing host.
pub fn authenticated_clone_url(token: &str, clone_url: &str) -> (r: String)
    ensures
        r@ == remote_url_of(token@, spec_trim_host(clone_url@)),
{
    proof {
        reveal_strlit("https://github.com/");
    }
    let mut path = String::from_str(clone_url);
    while starts_with_prefix(path.as_str(), "https://github.com/")
        invariant
            spec_trim_host(path@) == spec_trim_host(clone_url@),
        decreases path@.len(),
    {
        proof {
            reveal_strlit("https://github.com/");
        }
        path = strip_prefix_of(path.as_str(), "https://github.com/");
    }
    authenticated_remote_url(token, path.as_str())
}

/// The topics endpoint of a destination repository.
pub fn topics_url(repo_url: &str) -> (r: String)
    ensures
        r@ == repo_url@ + "/topics"@,
{
    String::from_str(repo_url).concat("/topics")
}

/// A correct partition of the push refspecs into batches: every batch but the
/// last carries exactly five refspecs, the last carries the remainder (five
/// when the count divides evenly), the number of batches is the count divided
/// by five rounded up, and batch `j` carries refspecs `5 j` through
/// `5 j + 4`, in order.
pub open spec fn is_batching(refs: Seq<Seq<char>>, batches: Seq<Seq<Seq<char>>>) -> bool {
    &&& batches.len() == (refs.len() + 4) / 5
    &&& forall|j: int|
        0 <= j < batches.len() ==> #[trigger] batches[j].len() == if 5 * (j + 1) <= refs.len() {
            5int
        } else {
            refs.len() - 5 * j
        }
    &&& forall|j: int, k: int|
        0 <= j < batches.len() && 0 <= k < batches[j].len() ==> #[trigger] batches[j][k] == refs[
            5 * j + k
        ]
}

/// The views of a list of batches.
pub open spec fn batch_views(batches: Seq<Vec<String>>) -> Seq<Seq<Seq<char>>> {
    batches.map_values(|b: Vec<String>| string_views(b@))
}

/// An exact copy of a list of strings.
pub fn duplicate_strings(v: &Vec<String>) -> (r: Vec<String>)
    ensures
        r@ == v@,
{
    let mut r: Vec<String> = Vec::new();
    let mut i: usize = 0;
    while i < v.len()
        invariant
            0 <= i <= v@.len(),
            r@ =~= v@.take(i as int),
        decreases v@.len() - i,
    {
        r.push(v[i].clone());
        i += 1;
        assert(r@ =~= v@.take(i as int));
    }
    assert(r@ =~= v@);
    r
}

/// Partitions the push refspecs, in order, into batches of at most five, so
/// that every push operation stays bounded: full batches of five, then one
/// final batch carrying what remains.
pub fn batch_refspecs(refs: &Vec<String>) -> (batches: Vec<Vec<String>>)
    ensures
        is_batching(string_views(refs@), batch_views(batches@)),
{
    let mut batches: Vec<Vec<String>> = Vec::new();
    let mut cur: Vec<String> = Vec::new();
    let mut i: usize = 0;
    while i < refs.len()
        invariant
            0 <= i <= refs@.len(),
            cur@.len() < 5,
            i == 5 * batches@.len() + cur@.len(),
            forall|j: int| 0 <= j < batches@.len() ==> #[trigger] batches@[j]@.len() == 5,
            forall|j: int, k: int|
                0 <= j < batches@.len() && 0 <= k < 5 ==> #[trigger] batches@[j]@[k] == refs@[
                    5 * j + k
                ],
            forall|k: int|
                0 <= k < cur@.len() ==> #[trigger] cur@[k] == refs@[5 * batches@.len() + k],
        decreases refs@.len() - i,
    {
        cur.push(refs[i].clone());
        i += 1;
        if cur.len() == crate::PUSH_BATCH_SIZE {
            batches.push(cur);
            cur = Vec::new();
        }
    }
    let ghost b0 = batches@.len() as int;
    let ghost c = cur@.len() as int;
    let ghost n = refs@.len() as int;
    let ghost full = batches@;
    let ghost curv = cur;
    let ghost curg = cur@;
    if cur.len() > 0 {
        batches.push(cur);
    }
    proof {
        let rv = string_views(refs@);
        let bv = batch_views(batches@);
        assert(n == 5 * b0 + c);
        if c == 0 {
            assert(batches@ == full);
            assert(bv.len() == b0);
            assert(b0 == (n + 4) / 5) by (nonlinear_arith)
                requires
                    n == 5 * b0,
                    b0 >= 0,
            ;
        } else {
            assert(batches@ == full.push(curv));
            assert(bv.len() == b0 + 1);
            assert(b0 + 1 == (n + 4) / 5) by (nonlinear_arith)
                requires
                    n == 5 * b0 + c,
                    0 < c < 5,
                    b0 >= 0,
            ;
        }
        assert forall|j: int| 0 <= j < bv.len() implies #[trigger] bv[j].len() == (if 5 * (j + 1)
            <= rv.len() {
            5int
        } else {
            rv.len() - 5 * j
        }) by {
            assert(bv[j] == string_views(batches@[j]@));
            if j < b0 {
                assert(batches@[j] == full[j]);
                assert(batches@[j]@.len() == 5);
                assert(5 * (j + 1) <= 5 * b0);
            } else {
                assert(batches@[j] == curv);
                assert(batches@[j]@.len() == c);
            }
        }
        assert forall|j: int, k: int|
            0 <= j < bv.len() && 0 <= k < bv[j].len() implies #[trigger] bv[j][k] == rv[5 * j
            + k] by {
            assert(bv[j] == string_views(batches@[j]@));
            assert(bv[j][k] == batches@[j]@[k]@);
            if j < b0 {
                assert(batches@[j] == full[j]);
                assert(batches@[j]@[k] == refs@[5 * j + k]);
            } else {
                assert(batches@[j] == curv);
                assert(batches@[j]@[k] == refs@[5 * b0 + k]);
            }
        }
    }
    batches
}

/// Push batching, stated over any correct batching: for `B` refspecs the
/// number of push operations is `B` divided by five rounded up, each push
/// carries at most five refspecs, and the final push carries `B` modulo five
/// of them, or five when the count divides evenly.
pub proof fn lemma_push_batching(refs: Seq<Seq<char>>, batches: Seq<Seq<Seq<char>>>)
    requires
        is_batching(refs, batches),
    ensures
        5 * batches.len() >= refs.len(),
        5 * (batches.len() - 1) < refs.len() || refs.len() == 0,
        forall|j: int| 0 <= j < batches.len() ==> #[trigger] batches[j].len() <= 5,
        refs.len() > 0 && refs.len() % 5 == 0 ==> batches.last().len() == 5,
        refs.len() % 5 != 0 ==> batches.last().len() == refs.len() % 5,
{
    let n = refs.len() as int;
    let b = batches.len() as int;
    assert(5 * b >= n && (n == 0 || 5 * (b - 1) < n)) by (nonlinear_arith)
        requires
            n >= 0,
            b == (n + 4) / 5,
    ;
    assert forall|j: int| 0 <= j < batches.len() implies #[trigger] batches[j].len() <= 5 by {
        assert(batches[j].len() == if 5 * (j + 1) <= n {
            5int
        } else {
            n - 5 * j
        });
    }
    if n > 0 {
        assert(batches.last().len() == if 5 * b <= n {
            5int
        } else {
            n - 5 * (b - 1)
        });
        assert(n % 5 == 0 ==> batches.last().len() == 5) by (nonlinear_arith)
            requires
                n > 0,
                b == (n + 4) / 5,
                batches.last().len() == if 5 * b <= n {
                    5int
                } else {
                    n - 5 * (b - 1)
                },
        ;
        assert(n % 5 != 0 ==> batches.last().len() == n % 5) by (nonlinear_arith)
            requires
                n > 0,
                b == (n + 4) / 5,
                batches.last().len() == if 5 * b <= n {
                    5int
                } else {
                    n - 5 * (b - 1)
                },
        ;
    }
}

} // verus!
