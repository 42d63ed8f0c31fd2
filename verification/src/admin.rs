//! Administrative views: the authorization gate, user statistics, per-key
//! ordering, and occurrence counting.
//!
//! The dashboards aggregate plain rows: totals and a rounded average over
//! the users' point balances, orders counted per user or product, and
//! rankings by points, order count or creation time. The handlers read the
//! rows and hand them here.

use vstd::prelude::*;
use vstd::multiset::Multiset;
use vstd::seq_lib::lemma_multiset_commutative;

use crate::text::str_eq_chars;

verus! {

broadcast use vstd::string::group_string_axioms, vstd::seq_lib::group_to_multiset_ensures, vstd::multiset::group_multiset_axioms;

/// A request made on behalf of a user with the given role.
#[derive(Debug)]
pub struct AdminRequest {
    pub user_role: String,
}

/// Whether an administrative request may proceed.
#[derive(Debug, Clone, Copy, PartialEq, Eq, Structural)]
pub enum AdminGate {
    /// The internal API key was missing or wrong.
    Unauthorized,
    /// The key was right but the caller is not an administrator.
    Forbidden,
    /// The request may proceed.
    Allowed,
}

/// Gate an administrative request on the internal key check and the
/// caller's role: the key first, then the role must be `ADMIN`.
pub fn admin_gate(key_ok: bool, user_role: &str) -> (r: AdminGate)
    ensures
        r == (if !key_ok {
            AdminGate::Unauthorized
        } else if user_role@ != "ADMIN"@ {
            AdminGate::Forbidden
        } else {
            AdminGate::Allowed
        }),
{
    if !key_ok {
        AdminGate::Unauthorized
    } else if !str_eq_chars(user_role, "ADMIN") {
        AdminGate::Forbidden
    } else {
        AdminGate::Allowed
    }
}

/// Totals over the user table.
#[derive(Debug, Clone, Copy, PartialEq, Eq, Structural)]
pub struct UserStats {
    pub total_users: i64,
    pub total_ink_points: i64,
    pub average_ink_points: i64,
    pub admin_count: i64,
}

/// The sum of the point balances.
pub open spec fn sum_points(s: Seq<(i32, bool)>) -> int
    decreases s.len(),
{
    if s.len() == 0 {
        0
    } else {
        sum_points(s.drop_last()) + s.last().0
    }
}

/// How many of the users are administrators.
pub open spec fn count_admins(s: Seq<(i32, bool)>) -> int
    decreases s.len(),
{
    if s.len() == 0 {
        0
    } else {
        count_admins(s.drop_last()) + (if s.last().1 {
            1int
        } else {
            0int
        })
    }
}

/// The quotient `sum / n` rounded to the nearest integer, ties away from
/// zero — how the database casts its exact average to an integer.
pub open spec fn rounded_avg(sum: int, n: int) -> int
    recommends
        n > 0,
{
    if sum >= 0 {
        (2 * sum + n) / (2 * n)
    } else {
        -((2 * (-sum) + n) / (2 * n))
    }
}

/// The dashboard's user statistics, over one entry per user: the point
/// balance and whether the user is an administrator. An empty table reads
/// as all zeroes.
pub fn user_stats_of(users: &Vec<(i32, bool)>) -> (r: UserStats)
    requires
        users@.len() <= 0x7fff_ffff,
    ensures
        r.total_users == users@.len(),
        r.total_ink_points == sum_points(users@),
        r.admin_count == count_admins(users@),
        r.average_ink_points == (if users@.len() == 0 {
            0int
        } else {
            rounded_avg(sum_points(users@), users@.len() as int)
        }),
{
    let n = users.len();
    let mut sum: i64 = 0;
    let mut admins: i64 = 0;
    proof {
        assert(users@.take(0) =~= Seq::<(i32, bool)>::empty());
    }
    for i in 0..n
        invariant
            n == users@.len(),
            n <= 0x7fff_ffff,
            sum == sum_points(users@.take(i as int)),
            admins == count_admins(users@.take(i as int)),
            -0x8000_0000 * (i as int) <= sum <= 0x7fff_ffff * (i as int),
            0 <= admins <= i,
    {
        let (pts, is_admin) = users[i];
        proof {
            assert(users@.take(i + 1).drop_last() =~= users@.take(i as int));
            assert(users@.take(i + 1).last() == users@[i as int]);
        }
        sum = sum + pts as i64;
        if is_admin {
            admins = admins + 1;
        }
    }
    proof {
        assert(users@.take(n as int) =~= users@);
    }
    let average: i64 = if n == 0 {
        0
    } else {
        let mag: u128 = if sum >= 0 {
            sum as u128
        } else {
            (-(sum as i128)) as u128
        };
        let q: u128 = (2 * mag + n as u128) / (2 * n as u128);
        proof {
            let num = 2 * mag as int + n as int;
            let den = 2 * n as int;
            assert(q == num / den);
            assert(num < (mag as int + n as int + 1) * den) by (nonlinear_arith)
                requires
                    den == 2 * n as int,
                    num == 2 * mag as int + n as int,
                    n as int >= 1,
                    mag as int >= 0,
            ;
            assert(num / den < mag as int + n as int + 1) by (nonlinear_arith)
                requires
                    num < (mag as int + n as int + 1) * den,
                    den > 0,
                    num >= 0,
            ;
        }
        if sum >= 0 {
            q as i64
        } else {
            -(q as i64)
        }
    };
    UserStats {
        total_users: n as i64,
        total_ink_points: sum,
        average_ink_points: average,
        admin_count: admins,
    }
}

/// One entry of the dashboard's ranking of users by points.
#[derive(Debug)]
pub struct TopUser {
    pub id: String,
    pub name: Option<String>,
    pub email: Option<String>,
    pub ink_points: i32,
    pub order_count: i64,
}

/// One entry of the dashboard's ranking of products by orders.
#[derive(Debug)]
pub struct ProductStat {
    pub id: String,
    pub name: String,
    pub category: String,
    pub order_count: i64,
}

/// The buyer shown beside a recent order.
#[derive(Debug)]
pub struct OrderUser {
    pub name: Option<String>,
    pub email: Option<String>,
    pub image: Option<String>,
}

/// The product shown beside a recent order.
#[derive(Debug)]
pub struct OrderProduct {
    pub name: String,
    pub point_price: i32,
    pub image: Option<String>,
}

/// A request to overwrite a user's point balance.
#[derive(Debug)]
pub struct UpdateUserInkPointsRequest {
    pub user_role: String,
    pub target_user_id: String,
    pub points: i32,
}

/// A bare success-or-failure answer.
#[derive(Debug)]
pub struct SimpleResult {
    pub success: bool,
    pub message: String,
}

/// Whether a sequence of keyed entries is in descending key order.
pub open spec fn sorted_desc(s: Seq<(i64, usize)>) -> bool {
    forall|i: int, j: int| 0 <= i < j < s.len() ==> #[trigger] s[i].0 >= #[trigger] s[j].0
}

/// Order entries by their key, largest first. Each entry carries the key
/// and the index of the row it stands for; the result holds exactly the
/// input entries.
pub fn sort_pairs_desc(pairs: &Vec<(i64, usize)>) -> (r: Vec<(i64, usize)>)
    ensures
        r@.len() == pairs@.len(),
        r@.to_multiset() == pairs@.to_multiset(),
        sorted_desc(r@),
{
    let n = pairs.len();
    let mut out: Vec<(i64, usize)> = Vec::new();
    proof {
        assert(pairs@.take(0) =~= Seq::<(i64, usize)>::empty());
        assert(out@.to_multiset() =~= pairs@.take(0).to_multiset());
    }
    for idx in 0..n
        invariant
            n == pairs@.len(),
            out@.len() == idx,
            out@.to_multiset() == pairs@.take(idx as int).to_multiset(),
            sorted_desc(out@),
    {
        let x = pairs[idx];
        let mut j: usize = 0;
        while j < out.len() && out[j].0 >= x.0
            invariant
                j <= out@.len(),
                forall|k: int| 0 <= k < j ==> out@[k].0 >= x.0,
            decreases out@.len() - j,
        {
            j = j + 1;
        }
        let ghost pre = out@;
        out.insert(j, x);
        proof {
            assert(out@ =~= pre.take(j as int) + seq![x] + pre.skip(j as int));
            lemma_multiset_commutative(pre.take(j as int) + seq![x], pre.skip(j as int));
            lemma_multiset_commutative(pre.take(j as int), seq![x]);
            lemma_multiset_commutative(pre.take(j as int), pre.skip(j as int));
            assert(pre.take(j as int) + pre.skip(j as int) =~= pre);
            assert(seq![x] =~= Seq::<(i64, usize)>::empty().push(x));
            assert(seq![x].to_multiset() =~= Multiset::<(i64, usize)>::empty().insert(x));
            assert(out@.to_multiset() =~= pre.to_multiset().insert(x));
            assert(pairs@.take(idx + 1).drop_last() =~= pairs@.take(idx as int));
            assert(pairs@.take(idx + 1) =~= pairs@.take(idx as int).push(x));
            assert(pairs@.take(idx + 1).to_multiset() =~= pairs@.take(
                idx as int,
            ).to_multiset().insert(x));
            assert forall|a: int, b: int| 0 <= a < b < out@.len() implies out@[a].0 >= out@[b].0 by {
                if b < j {
                    assert(out@[a] == pre[a] && out@[b] == pre[b]);
                } else if a > j {
                    assert(out@[a] == pre[a - 1] && out@[b] == pre[b - 1]);
                } else if a < j && b == j {
                    assert(out@[a] == pre[a]);
                } else if a == j && b > j {
                    assert(out@[b] == pre[b - 1]);
                    assert(j < pre.len());
                    assert(pre[j as int].0 < x.0);
                    assert(pre[j as int].0 >= pre[b - 1].0);
                } else if a < j && b > j {
                    assert(out@[a] == pre[a] && out@[b] == pre[b - 1]);
                }
            }
        }
    }
    proof {
        assert(pairs@.take(n as int) =~= pairs@);
    }
    out
}

/// The first `n` entries, or all of them if there are fewer — how a
/// ranking is cut to a page.
pub fn take_top(mut sorted: Vec<(i64, usize)>, n: usize) -> (r: Vec<(i64, usize)>)
    ensures
        r@ == (if n <= sorted@.len() {
            sorted@.subrange(0, n as int)
        } else {
            sorted@
        }),
{
    sorted.truncate(n);
    sorted
}

/// How many times each of `n` rows is referred to: `r[i]` counts the
/// occurrences of `i` in `refs`.
pub open spec fn count_of(s: Seq<usize>, v: usize) -> int
    decreases s.len(),
{
    if s.len() == 0 {
        0
    } else {
        count_of(s.drop_last(), v) + (if s.last() == v {
            1int
        } else {
            0int
        })
    }
}

proof fn lemma_count_of_bound(s: Seq<usize>, v: usize)
    ensures
        0 <= count_of(s, v) <= s.len(),
    decreases s.len(),
{
    if s.len() > 0 {
        lemma_count_of_bound(s.drop_last(), v);
    }
}

/// Count, for each of `n` rows, how many entries of `refs` point at it.
/// Entries must point at one of the rows.
pub fn order_counts(n: usize, refs: &Vec<usize>) -> (r: Vec<i64>)
    requires
        forall|i: int| 0 <= i < refs@.len() ==> refs@[i] < n,
        refs@.len() <= 0x7fff_ffff_ffff_ffff,
    ensures
        r@.len() == n,
        forall|v: int| 0 <= v < n ==> r@[v] == count_of(refs@, v as usize),
{
    let mut counts: Vec<i64> = Vec::new();
    let mut k: usize = 0;
    while k < n
        invariant
            k <= n,
            counts@.len() == k,
            forall|v: int| 0 <= v < k ==> counts@[v] == 0,
        decreases n - k,
    {
        counts.push(0);
        k = k + 1;
    }
    let m = refs.len();
    proof {
        assert(refs@.take(0) =~= Seq::<usize>::empty());
    }
    for i in 0..m
        invariant
            m == refs@.len(),
            m <= 0x7fff_ffff_ffff_ffff,
            counts@.len() == n,
            forall|j: int| 0 <= j < refs@.len() ==> refs@[j] < n,
            forall|v: int| 0 <= v < n ==> counts@[v] == count_of(refs@.take(i as int), v as usize),
    {
        let o = refs[i];
        let ghost pre = counts@;
        proof {
            lemma_count_of_bound(refs@.take(i as int), o);
            assert(count_of(refs@.take(i as int), o) <= i);
        }
        let c = counts[o];
        counts.set(o, c + 1);
        proof {
            assert forall|v: int| 0 <= v < n implies counts@[v] == count_of(
                refs@.take(i + 1),
                v as usize,
            ) by {
                assert(refs@.take(i + 1).drop_last() =~= refs@.take(i as int));
                assert(refs@.take(i + 1).last() == refs@[i as int]);
                if v == o as int {
                } else {
                    assert(counts@[v] == pre[v]);
                }
            }
        }
    }
    proof {
        assert(refs@.take(m as int) =~= refs@);
    }
    counts
}

} // verus!
