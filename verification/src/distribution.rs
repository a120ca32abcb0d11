//! The distribution engine: a pure pairing of two equal-size groups so that
//! every participant gives exactly one gift and receives exactly one, never
//! to or from themself.

use vstd::prelude::*;

use crate::text::str_eq;
use crate::types::State;
use crate::types::User;
use crate::types::UserView;

verus! {

/// Why a distribution request was refused; nothing is paired or persisted
/// when one of these is reported.
#[derive(Clone, Copy, Debug, PartialEq, Eq, Structural)]
pub enum DistributeError {
    /// The two groups differ in size.
    UnequalGroupSizes,
    /// Some participant already carries an assignment.
    AlreadyAssigned,
    /// The pairing would assign some participant to themself.
    SelfPairing,
}

/// Whether no participant of the group carries any assignment yet.
pub open spec fn spec_all_unassigned(s: Seq<UserView>) -> bool {
    forall|i: int| #![trigger s[i]] 0 <= i < s.len() ==> s[i].santa is None && s[i].child is None
}

/// Whether the deterministic pairing of the two equal-size groups would
/// assign some participant to themself.
pub open spec fn spec_has_self_pair(a: Seq<UserView>, b: Seq<UserView>) -> bool {
    exists|i: int|
        #![trigger a[i]]
        0 <= i < a.len() && (a[i].id == b[i].id || a[i].id == b[a.len() - 1 - i].id)
}

/// The first group after one greedy pass: member `i` receives from `b[i]`.
pub open spec fn spec_pass_first(a: Seq<UserView>, b: Seq<UserView>) -> Seq<UserView> {
    Seq::new(a.len(), |i: int| UserView { santa: Some(b[i].id), ..a[i] })
}

/// The second group after one greedy pass: member `j` gives to `a[j]` and
/// becomes `Distributed`.
pub open spec fn spec_pass_second(a: Seq<UserView>, b: Seq<UserView>) -> Seq<UserView> {
    Seq::new(
        b.len(),
        |j: int| UserView { child: Some(a[j].id), state: Some(State::Distributed), ..b[j] },
    )
}

/// The full distribution of two equal-size, wholly unassigned groups:
/// group A in input order followed by group B reversed, everyone paired and
/// `Distributed`.  Member `i` of group A receives from `b[i]` and gives to
/// `b[n-1-i]`; member `j` of group B receives from `a[j]` and gives to
/// `a[n-1-j]`.
pub open spec fn spec_distribute(a: Seq<UserView>, b: Seq<UserView>) -> Seq<UserView> {
    Seq::new(
        a.len(),
        |i: int|
            UserView {
                santa: Some(b[i].id),
                child: Some(b[a.len() - 1 - i].id),
                state: Some(State::Distributed),
                ..a[i]
            },
    ) + Seq::new(
        b.len(),
        |j: int|
            UserView {
                santa: Some(a[j].id),
                child: Some(a[b.len() - 1 - j].id),
                state: Some(State::Distributed),
                ..b[b.len() - 1 - j]
            },
    )
}

/// One greedy pass: every member of the first group takes the first member
/// of the second group that still gives to nobody as their giver.  Starting
/// from wholly unassigned sides, this aligns the groups index by index.
fn distribute_pass(first_group: &mut Vec<User>, second_group: &mut Vec<User>)
    requires
        old(first_group)@.len() == old(second_group)@.len(),
        forall|k: int|
            0 <= k < old(first_group)@.len() ==> old(first_group).deep_view()[k].santa is None,
        forall|k: int|
            0 <= k < old(second_group)@.len() ==> old(second_group).deep_view()[k].child is None,
    ensures
        final(first_group).deep_view() == spec_pass_first(
            old(first_group).deep_view(),
            old(second_group).deep_view(),
        ),
        final(second_group).deep_view() == spec_pass_second(
            old(first_group).deep_view(),
            old(second_group).deep_view(),
        ),
{
    let ghost a0 = old(first_group).deep_view();
    let ghost b0 = old(second_group).deep_view();
    let n = first_group.len();
    proof {
        assert forall|k: int| 0 <= k < n implies first_group@[k]@ == a0[k] && a0[k].santa
            is None by {
            assert(a0[k] == first_group.deep_view()[k]);
        }
        assert forall|k: int| 0 <= k < n implies second_group@[k]@ == b0[k] && b0[k].child
            is None by {
            assert(b0[k] == second_group.deep_view()[k]);
        }
    }
    let mut i: usize = 0;
    while i < n
        invariant
            i <= n,
            n == a0.len(),
            n == b0.len(),
            first_group@.len() == n,
            second_group@.len() == n,
            forall|k: int| #![trigger a0[k]] 0 <= k < n ==> a0[k].santa is None,
            forall|k: int| #![trigger b0[k]] 0 <= k < n ==> b0[k].child is None,
            forall|k: int|
                #![trigger first_group@[k]]
                0 <= k < i ==> first_group@[k]@ == (UserView { santa: Some(b0[k].id), ..a0[k] }),
            forall|k: int| #![trigger first_group@[k]] i <= k < n ==> first_group@[k]@ == a0[k],
            forall|k: int|
                #![trigger second_group@[k]]
                0 <= k < i ==> second_group@[k]@ == (UserView {
                    child: Some(a0[k].id),
                    state: Some(State::Distributed),
                    ..b0[k]
                }),
            forall|k: int| #![trigger second_group@[k]] i <= k < n ==> second_group@[k]@ == b0[k],
        decreases n - i,
    {
        let mut j: usize = 0;
        while j < n
            invariant
                j <= n,
                i < n,
                n == a0.len(),
                n == b0.len(),
                first_group@.len() == n,
                second_group@.len() == n,
                forall|k: int| #![trigger a0[k]] 0 <= k < n ==> a0[k].santa is None,
                forall|k: int| #![trigger b0[k]] 0 <= k < n ==> b0[k].child is None,
                forall|k: int|
                    #![trigger first_group@[k]]
                    0 <= k < i ==> first_group@[k]@ == (UserView {
                        santa: Some(b0[k].id),
                        ..a0[k]
                    }),
                forall|k: int| #![trigger first_group@[k]] i < k < n ==> first_group@[k]@ == a0[k],
                forall|k: int|
                    #![trigger second_group@[k]]
                    0 <= k < i ==> second_group@[k]@ == (UserView {
                        child: Some(a0[k].id),
                        state: Some(State::Distributed),
                        ..b0[k]
                    }),
                forall|k: int|
                    #![trigger second_group@[k]]
                    i < k < n ==> second_group@[k]@ == b0[k],
                j <= i ==> first_group@[i as int]@ == a0[i as int] && second_group@[i as int]@
                    == b0[i as int],
                j > i ==> first_group@[i as int]@ == (UserView {
                    santa: Some(b0[i as int].id),
                    ..a0[i as int]
                }) && second_group@[i as int]@ == (UserView {
                    child: Some(a0[i as int].id),
                    state: Some(State::Distributed),
                    ..b0[i as int]
                }),
            decreases n - j,
        {
            if first_group[i].santa.is_none() && second_group[j].child.is_none() {
                proof {
                    if j < i {
                        assert(second_group@[j as int]@.child == Some(a0[j as int].id));
                    }
                    if j > i {
                        assert(first_group@[i as int]@.santa == Some(b0[i as int].id));
                    }
                    assert(j == i);
                }
                let giver_id = second_group[j].id;
                let taker_id = first_group[i].id;
                first_group[i].santa = Some(giver_id);
                second_group[j].child = Some(taker_id);
                second_group[j].state = Some(State::Distributed);
            }
            j = j + 1;
        }
        i = i + 1;
    }
    proof {
        assert forall|k: int| 0 <= k < n implies first_group.deep_view()[k] == spec_pass_first(
            a0,
            b0,
        )[k] by {
            assert(first_group.deep_view()[k] == first_group@[k]@);
        }
        assert(first_group.deep_view() =~= spec_pass_first(a0, b0));
        assert forall|k: int| 0 <= k < n implies second_group.deep_view()[k] == spec_pass_second(
            a0,
            b0,
        )[k] by {
            assert(second_group.deep_view()[k] == second_group@[k]@);
        }
        assert(second_group.deep_view() =~= spec_pass_second(a0, b0));
    }
}

/// The same participants in opposite order.
fn reversed(v: Vec<User>) -> (r: Vec<User>)
    ensures
        r.deep_view() == v.deep_view().reverse(),
{
    let ghost orig = v.deep_view();
    let ghost orig_sh = v@;
    let mut rest = v;
    let mut out: Vec<User> = Vec::new();
    while rest.len() > 0
        invariant
            rest@.len() + out@.len() == orig_sh.len(),
            rest@ == orig_sh.take(rest@.len() as int),
            forall|k: int|
                #![trigger out@[k]]
                0 <= k < out@.len() ==> out@[k] == orig_sh[orig_sh.len() - 1 - k],
        decreases rest@.len(),
    {
        let x = rest.pop().unwrap();
        out.push(x);
        proof {
            assert(rest@ =~= orig_sh.take(rest@.len() as int));
        }
    }
    proof {
        assert forall|k: int| 0 <= k < out.deep_view().len() implies out.deep_view()[k]
            == orig.reverse()[k] by {
            assert(out.deep_view()[k] == out@[k]@);
            assert(orig[orig.len() - 1 - k] == orig_sh[orig_sh.len() - 1 - k]@);
        }
        assert(out.deep_view() =~= orig.reverse());
    }
    out
}

/// Whether no participant of the group carries any assignment yet.
fn all_unassigned(v: &Vec<User>) -> (r: bool)
    ensures
        r == spec_all_unassigned(v.deep_view()),
{
    let n = v.len();
    let mut i: usize = 0;
    while i < n
        invariant
            i <= n,
            n == v@.len(),
            forall|k: int|
                #![trigger v.deep_view()[k]]
                0 <= k < i ==> v.deep_view()[k].santa is None && v.deep_view()[k].child is None,
        decreases n - i,
    {
        if v[i].santa.is_some() || v[i].child.is_some() {
            proof {
                assert(!(v.deep_view()[i as int].santa is None && v.deep_view()[i as int].child
                    is None));
            }
            return false;
        }
        proof {
            assert(v.deep_view()[i as int] == v@[i as int]@);
        }
        i = i + 1;
    }
    true
}

/// Whether the deterministic pairing of the two groups would assign some
/// participant to themself.
fn has_self_pair(a: &Vec<User>, b: &Vec<User>) -> (r: bool)
    requires
        a@.len() == b@.len(),
    ensures
        r == spec_has_self_pair(a.deep_view(), b.deep_view()),
{
    let n = a.len();
    let mut i: usize = 0;
    while i < n
        invariant
            i <= n,
            n == a@.len(),
            n == b@.len(),
            forall|k: int|
                #![trigger a.deep_view()[k]]
                0 <= k < i ==> !(a.deep_view()[k].id == b.deep_view()[k].id || a.deep_view()[k].id
                    == b.deep_view()[n - 1 - k].id),
        decreases n - i,
    {
        if a[i].id == b[i].id || a[i].id == b[n - 1 - i].id {
            proof {
                assert(a.deep_view()[i as int].id == b.deep_view()[i as int].id || a.deep_view()[
                    i as int
                ].id == b.deep_view()[n - 1 - i].id);
            }
            return true;
        }
        proof {
            assert(a.deep_view()[i as int] == a@[i as int]@);
            assert(b.deep_view()[i as int] == b@[i as int]@);
            assert(b.deep_view()[n - 1 - i] == b@[n - 1 - i as int]@);
        }
        i = i + 1;
    }
    false
}

/// Pairs two equal-size groups of wholly unassigned participants.
///
/// On success the result is the deterministic pairing `spec_distribute`:
/// group A in input order followed by group B reversed, every member with
/// both a giver and a recipient and marked `Distributed`.  Unequal sizes, a
/// participant that already carries an assignment, and a pairing that would
/// assign someone to themself are each refused, in that order of checks,
/// with nothing paired.
pub fn distribute(group_a: Vec<User>, group_b: Vec<User>) -> (r: Result<
    Vec<User>,
    DistributeError,
>)
    ensures
        group_a@.len() != group_b@.len() ==> r == Err::<Vec<User>, DistributeError>(
            DistributeError::UnequalGroupSizes,
        ),
        group_a@.len() == group_b@.len() && !(spec_all_unassigned(group_a.deep_view())
            && spec_all_unassigned(group_b.deep_view())) ==> r == Err::<Vec<User>, DistributeError>(
            DistributeError::AlreadyAssigned,
        ),
        group_a@.len() == group_b@.len() && spec_all_unassigned(group_a.deep_view())
            && spec_all_unassigned(group_b.deep_view()) && spec_has_self_pair(
            group_a.deep_view(),
            group_b.deep_view(),
        ) ==> r == Err::<Vec<User>, DistributeError>(DistributeError::SelfPairing),
        group_a@.len() == group_b@.len() && spec_all_unassigned(group_a.deep_view())
            && spec_all_unassigned(group_b.deep_view()) && !spec_has_self_pair(
            group_a.deep_view(),
            group_b.deep_view(),
        ) ==> (r matches Ok(out) && out.deep_view() == spec_distribute(
            group_a.deep_view(),
            group_b.deep_view(),
        )),
{
    let ghost a0 = group_a.deep_view();
    let ghost b0 = group_b.deep_view();
    if group_a.len() != group_b.len() {
        return Err(DistributeError::UnequalGroupSizes);
    }
    if !(all_unassigned(&group_a) && all_unassigned(&group_b)) {
        return Err(DistributeError::AlreadyAssigned);
    }
    if has_self_pair(&group_a, &group_b) {
        return Err(DistributeError::SelfPairing);
    }
    let ghost n = a0.len();
    let mut first = group_a;
    let mut second = group_b;
    distribute_pass(&mut first, &mut second);
    let ghost a1 = first.deep_view();
    let ghost b1 = second.deep_view();
    let mut second = reversed(second);
    let ghost b2 = second.deep_view();
    proof {
        assert(a1.len() == n && b1.len() == n && b2.len() == n);
        assert(first.deep_view().len() == first@.len());
        assert(second.deep_view().len() == second@.len());
        assert(first@.len() == n && second@.len() == n);
        assert forall|k: int| 0 <= k < second@.len() implies second.deep_view()[k].santa
            is None by {
            assert(b2[k] == b1[n - 1 - k]);
            assert(b0[n - 1 - k].santa is None && b0[n - 1 - k].child is None);
            assert(b1[n - 1 - k].santa == b0[n - 1 - k].santa);
        }
        assert forall|k: int| 0 <= k < first@.len() implies first.deep_view()[k].child
            is None by {
            assert(a0[k].santa is None && a0[k].child is None);
            assert(a1[k].child == a0[k].child);
        }
    }
    distribute_pass(&mut second, &mut first);
    let ghost b3 = second.deep_view();
    let ghost a2 = first.deep_view();
    proof {
        assert(b3.len() == n && a2.len() == n);
        assert(first.deep_view().len() == first@.len());
        assert(second.deep_view().len() == second@.len());
    }
    let mut out = first;
    out.append(&mut second);
    proof {
        let d = spec_distribute(a0, b0);
        assert(out.deep_view().len() == out@.len());
        assert(out.deep_view().len() == d.len());
        assert forall|k: int| 0 <= k < d.len() implies out.deep_view()[k] == d[k] by {
            assert(out.deep_view()[k] == out@[k]@);
            if k < n {
                assert(out.deep_view()[k] == a2[k]);
                assert(a2[k] == (UserView {
                    child: Some(b2[k].id),
                    state: Some(State::Distributed),
                    ..a1[k]
                }));
                assert(b2[k] == b1[n - 1 - k]);
                assert(b1[n - 1 - k].id == b0[n - 1 - k].id);
                assert(a1[k] == (UserView { santa: Some(b0[k].id), ..a0[k] }));
            } else {
                let j = k - n;
                assert(out.deep_view()[k] == b3[j]);
                assert(b3[j] == (UserView { santa: Some(a1[j].id), ..b2[j] }));
                assert(a1[j].id == a0[j].id);
                assert(b2[j] == b1[n - 1 - j]);
                assert(b1[n - 1 - j] == (UserView {
                    child: Some(a0[n - 1 - j].id),
                    state: Some(State::Distributed),
                    ..b0[n - 1 - j]
                }));
            }
        }
        assert(out.deep_view() =~= d);
    }
    Ok(out)
}

/// The participants of one city group, in input order.
pub open spec fn spec_city_group(users: Seq<UserView>, city: Seq<char>) -> Seq<UserView>
    decreases users.len(),
{
    if users.len() == 0 {
        Seq::<UserView>::empty()
    } else {
        (if users[0].city == city {
            seq![users[0]]
        } else {
            Seq::<UserView>::empty()
        }) + spec_city_group(users.skip(1), city)
    }
}

/// Splits the participants into the two city groups, keeping input order;
/// participants of neither city are left out.
pub fn partition_by_city(users: Vec<User>, city_a: &str, city_b: &str) -> (r: (
    Vec<User>,
    Vec<User>,
))
    requires
        city_a@ != city_b@,
    ensures
        r.0.deep_view() == spec_city_group(users.deep_view(), city_a@),
        r.1.deep_view() == spec_city_group(users.deep_view(), city_b@),
{
    let ghost orig = users.deep_view();
    let mut rest = users;
    let mut in_a: Vec<User> = Vec::new();
    let mut in_b: Vec<User> = Vec::new();
    proof {
        assert(in_a.deep_view() + spec_city_group(rest.deep_view(), city_a@) =~= spec_city_group(
            orig,
            city_a@,
        ));
        assert(in_b.deep_view() + spec_city_group(rest.deep_view(), city_b@) =~= spec_city_group(
            orig,
            city_b@,
        ));
    }
    while rest.len() > 0
        invariant
            city_a@ != city_b@,
            in_a.deep_view() + spec_city_group(rest.deep_view(), city_a@) == spec_city_group(
                orig,
                city_a@,
            ),
            in_b.deep_view() + spec_city_group(rest.deep_view(), city_b@) == spec_city_group(
                orig,
                city_b@,
            ),
        decreases rest.len(),
    {
        let ghost pre = rest.deep_view();
        let ghost pre_a = in_a.deep_view();
        let ghost pre_b = in_b.deep_view();
        let u = rest.remove(0);
        proof {
            assert(u@ == pre[0]);
            assert(rest.deep_view() =~= pre.skip(1));
        }
        if str_eq(u.city.as_str(), city_a) {
            in_a.push(u);
            proof {
                assert(in_a.deep_view() + spec_city_group(rest.deep_view(), city_a@) =~= pre_a
                    + spec_city_group(pre, city_a@));
                assert(in_b.deep_view() + spec_city_group(rest.deep_view(), city_b@) =~= pre_b
                    + spec_city_group(pre, city_b@));
            }
        } else if str_eq(u.city.as_str(), city_b) {
            in_b.push(u);
            proof {
                assert(in_a.deep_view() + spec_city_group(rest.deep_view(), city_a@) =~= pre_a
                    + spec_city_group(pre, city_a@));
                assert(in_b.deep_view() + spec_city_group(rest.deep_view(), city_b@) =~= pre_b
                    + spec_city_group(pre, city_b@));
            }
        } else {
            proof {
                assert(in_a.deep_view() + spec_city_group(rest.deep_view(), city_a@) =~= pre_a
                    + spec_city_group(pre, city_a@));
                assert(in_b.deep_view() + spec_city_group(rest.deep_view(), city_b@) =~= pre_b
                    + spec_city_group(pre, city_b@));
            }
        }
    }
    proof {
        assert(rest.deep_view() =~= Seq::<UserView>::empty());
        assert(in_a.deep_view() =~= in_a.deep_view() + spec_city_group(
            rest.deep_view(),
            city_a@,
        ));
        assert(in_b.deep_view() =~= in_b.deep_view() + spec_city_group(
            rest.deep_view(),
            city_b@,
        ));
    }
    (in_a, in_b)
}

/// Whether every participant of the sequence carries a distinct identity.
pub open spec fn spec_distinct_ids(s: Seq<UserView>) -> bool {
    forall|i: int, j: int| 0 <= i < j < s.len() ==> s[i].id != s[j].id
}

/// The element of the distribution result at one index, spelled out.
proof fn lemma_distribute_index(a: Seq<UserView>, b: Seq<UserView>, i: int)
    requires
        a.len() == b.len(),
        0 <= i < a.len() + b.len(),
    ensures
        i < a.len() ==> spec_distribute(a, b)[i] == (UserView {
            santa: Some(b[i].id),
            child: Some(b[a.len() - 1 - i].id),
            state: Some(State::Distributed),
            ..a[i]
        }),
        a.len() <= i ==> spec_distribute(a, b)[i] == (UserView {
            santa: Some(a[i - a.len()].id),
            child: Some(a[b.len() - 1 - (i - a.len())].id),
            state: Some(State::Distributed),
            ..b[b.len() - 1 - (i - a.len())]
        }),
{
}

/// Completeness, self-avoidance and mutual consistency of the pairing: for
/// equal-size groups with pairwise distinct identities, every participant
/// of the distribution result has both a giver and a recipient, neither is
/// themself, their recipient's giver is them, and their giver's recipient
/// is them.
pub proof fn lemma_distribute_complete(a: Seq<UserView>, b: Seq<UserView>)
    requires
        a.len() == b.len(),
        spec_distinct_ids(a + b),
    ensures
        ({
            let out = spec_distribute(a, b);
            &&& out.len() == a.len() + b.len()
            &&& forall|i: int|
                0 <= i < out.len() ==> out[i].santa is Some && out[i].child is Some
            &&& forall|i: int|
                0 <= i < out.len() ==> out[i].santa != Some(out[i].id) && out[i].child != Some(
                    out[i].id,
                )
            &&& forall|i: int|
                #![trigger out[i].child]
                0 <= i < out.len() ==> exists|j: int|
                    #![trigger out[j].santa]
                    0 <= j < out.len() && out[i].child == Some(out[j].id) && out[j].santa == Some(
                        out[i].id,
                    )
            &&& forall|i: int|
                #![trigger out[i].santa]
                0 <= i < out.len() ==> exists|j: int|
                    #![trigger out[j].child]
                    0 <= j < out.len() && out[i].santa == Some(out[j].id) && out[j].child == Some(
                        out[i].id,
                    )
        }),
{
    let n = a.len();
    let out = spec_distribute(a, b);
    assert forall|i: int, j: int|
        #![trigger a[i].id, b[j].id]
        0 <= i < n && 0 <= j < n implies a[i].id != b[j].id by {
        assert((a + b)[i] == a[i]);
        assert((a + b)[n + j] == b[j]);
    }
    assert forall|i: int|
        0 <= i < out.len() implies out[i].santa is Some && out[i].child is Some by {
        lemma_distribute_index(a, b, i);
    }
    assert forall|i: int|
        0 <= i < out.len() implies out[i].santa != Some(out[i].id) && out[i].child != Some(
        out[i].id,
    ) by {
        lemma_distribute_index(a, b, i);
    }
    assert forall|i: int|
        #![trigger out[i].child]
        0 <= i < out.len() implies exists|j: int|
        #![trigger out[j].santa]
        0 <= j < out.len() && out[i].child == Some(out[j].id) && out[j].santa == Some(
        out[i].id,
    ) by {
        lemma_distribute_index(a, b, i);
        let w: int = if i < n {
            n + i
        } else {
            n - 1 - (i - n)
        };
        lemma_distribute_index(a, b, w);
        assert(0 <= w < out.len() && out[i].child == Some(out[w].id) && out[w].santa == Some(
            out[i].id,
        ));
    }
    assert forall|i: int|
        #![trigger out[i].santa]
        0 <= i < out.len() implies exists|j: int|
        #![trigger out[j].child]
        0 <= j < out.len() && out[i].santa == Some(out[j].id) && out[j].child == Some(
        out[i].id,
    ) by {
        lemma_distribute_index(a, b, i);
        let w: int = if i < n {
            n + (n - 1 - i)
        } else {
            i - n
        };
        lemma_distribute_index(a, b, w);
        assert(0 <= w < out.len() && out[i].santa == Some(out[w].id) && out[w].child == Some(
            out[i].id,
        ));
    }
}

/// Mutual consistency of the pairing as a two-sided equivalence: for
/// equal-size groups with pairwise distinct identities, one participant of
/// the distribution result gives to another exactly when the other receives
/// from the one.
pub proof fn lemma_distribute_mutual(a: Seq<UserView>, b: Seq<UserView>)
    requires
        a.len() == b.len(),
        spec_distinct_ids(a + b),
    ensures
        ({
            let out = spec_distribute(a, b);
            forall|i: int, j: int|
                #![trigger out[i].child, out[j].santa]
                0 <= i < out.len() && 0 <= j < out.len() ==> (out[i].child == Some(out[j].id)
                    <==> out[j].santa == Some(out[i].id))
        }),
{
    let n = a.len();
    let out = spec_distribute(a, b);
    assert forall|i: int, j: int|
        #![trigger a[i].id, b[j].id]
        0 <= i < n && 0 <= j < n implies a[i].id != b[j].id by {
        assert((a + b)[i] == a[i]);
        assert((a + b)[n + j] == b[j]);
    }
    assert forall|i: int, j: int|
        #![trigger a[i].id, a[j].id]
        0 <= i < n && 0 <= j < n && i != j implies a[i].id != a[j].id by {
        assert((a + b)[i] == a[i]);
        assert((a + b)[j] == a[j]);
    }
    assert forall|i: int, j: int|
        #![trigger b[i].id, b[j].id]
        0 <= i < n && 0 <= j < n && i != j implies b[i].id != b[j].id by {
        assert((a + b)[n + i] == b[i]);
        assert((a + b)[n + j] == b[j]);
    }
    assert forall|i: int, j: int|
        #![trigger out[i].child, out[j].santa]
        0 <= i < out.len() && 0 <= j < out.len() implies (out[i].child == Some(out[j].id)
        <==> out[j].santa == Some(out[i].id)) by {
        lemma_distribute_index(a, b, i);
        lemma_distribute_index(a, b, j);
    }
}

} // verus!
