//! What holds of the runs of rows and of the groups they stand for.

use crate::rows::groups_of;
use crate::rows::member_of;
use crate::rows::members_of;
use crate::rows::runs_of;
use crate::rows::same_group;
use crate::rows::GroupRow;
use vstd::prelude::*;

verus! {

/// Every run has a row, and rows that are there have a run.
pub proof fn lemma_runs_have_rows(rows: Seq<GroupRow>)
    ensures
        rows.len() > 0 ==> runs_of(rows).len() > 0,
        forall|i: int| 0 <= i < runs_of(rows).len() ==> (#[trigger] runs_of(rows)[i]).len() > 0,
    decreases rows.len(),
{
    if rows.len() > 0 {
        lemma_runs_have_rows(rows.drop_last());
        let before = runs_of(rows.drop_last());
        let runs = runs_of(rows);
        assert forall|i: int| 0 <= i < runs.len() implies (#[trigger] runs[i]).len() > 0 by {
            if i < runs.len() - 1 {
                assert(runs[i] == before[i]);
            }
        }
    }
}

/// The runs are the rows: put one after the other they give the rows back,
/// in their order. The rows of a run are of one group, and a run ends where
/// the next row is of another group.
pub proof fn lemma_runs_cut_the_rows(rows: Seq<GroupRow>)
    ensures
        runs_of(rows).flatten() == rows,
        rows.len() > 0 ==> runs_of(rows).len() > 0 && runs_of(rows).last().len() > 0
            && runs_of(rows).last().last() == rows.last(),
        forall|i: int, j: int|
            0 <= i < runs_of(rows).len() && 0 <= j < runs_of(rows)[i].len() ==> same_group(
                runs_of(rows)[i][0],
                #[trigger] runs_of(rows)[i][j],
            ),
        forall|i: int|
            0 <= i < runs_of(rows).len() - 1 ==> !same_group(
                (#[trigger] runs_of(rows)[i]).last(),
                runs_of(rows)[i + 1][0],
            ),
    decreases rows.len(),
{
    broadcast use Seq::lemma_flatten_push;

    lemma_runs_have_rows(rows);
    if rows.len() == 0 {
        assert(runs_of(rows).flatten() =~= rows);
    } else {
        let init = rows.drop_last();
        let row = rows.last();
        let before = runs_of(init);
        let runs = runs_of(rows);
        lemma_runs_cut_the_rows(init);
        lemma_runs_have_rows(init);
        assert(init.push(row) =~= rows);
        if rows.len() >= 2 && same_group(rows[rows.len() - 2], row) {
            assert(init.last() == rows[rows.len() - 2]);
            let open = before.last();
            assert(before.drop_last().push(open) =~= before);
            assert(runs.flatten() =~= before.drop_last().flatten() + open.push(row));
            assert(before.flatten() =~= before.drop_last().flatten() + open);
            assert(before.drop_last().flatten() + open.push(row) =~= (before.drop_last().flatten()
                + open).push(row));
            assert forall|i: int, j: int| 0 <= i < runs.len() && 0 <= j < runs[i].len() implies same_group(
                runs[i][0],
                #[trigger] runs[i][j],
            ) by {
                if i < runs.len() - 1 {
                    assert(runs[i] == before[i]);
                } else if j < open.len() {
                    assert(runs[i][j] == before[i][j]);
                    assert(runs[i][0] == before[i][0]);
                } else {
                    assert(runs[i][0] == before[i][0]);
                    assert(same_group(before[i][0], before[i][open.len() - 1]));
                }
            }
            assert forall|i: int| 0 <= i < runs.len() - 1 implies !same_group(
                (#[trigger] runs[i]).last(),
                runs[i + 1][0],
            ) by {
                assert(runs[i] == before[i]);
                assert(runs[i + 1][0] == before[i + 1][0]);
            }
        } else {
            assert(runs.flatten() =~= before.flatten() + seq![row]);
            assert forall|i: int, j: int| 0 <= i < runs.len() && 0 <= j < runs[i].len() implies same_group(
                runs[i][0],
                #[trigger] runs[i][j],
            ) by {
                if i < runs.len() - 1 {
                    assert(runs[i] == before[i]);
                }
            }
            assert forall|i: int| 0 <= i < runs.len() - 1 implies !same_group(
                (#[trigger] runs[i]).last(),
                runs[i + 1][0],
            ) by {
                assert(runs[i] == before[i]);
                if i < runs.len() - 2 {
                    assert(runs[i + 1] == before[i + 1]);
                } else {
                    assert(runs[i].last() == init.last());
                    assert(init.last() == rows[rows.len() - 2]);
                }
            }
        }
    }
}

/// The number of rows in the first `a` runs of `runs`.
pub open spec fn rows_before(runs: Seq<Seq<GroupRow>>, a: int) -> int
    decreases a,
{
    if a <= 0 {
        0
    } else {
        rows_before(runs, a - 1) + runs[a - 1].len()
    }
}

/// The number of rows in the first runs is that of any list of runs that
/// starts with the same runs.
proof fn lemma_rows_before_of_the_same_runs(
    runs: Seq<Seq<GroupRow>>,
    others: Seq<Seq<GroupRow>>,
    a: int,
)
    requires
        0 <= a <= runs.len(),
        a <= others.len(),
        forall|k: int| 0 <= k < a ==> runs[k] == others[k],
    ensures
        rows_before(runs, a) == rows_before(others, a),
    decreases a,
{
    if a > 0 {
        lemma_rows_before_of_the_same_runs(runs, others, a - 1);
    }
}

/// Where each row of the runs stands among the rows: the rows of a run
/// follow those of the runs before it, in their order.
pub proof fn lemma_rows_of_the_runs(rows: Seq<GroupRow>)
    ensures
        rows_before(runs_of(rows), runs_of(rows).len() as int) == rows.len(),
        forall|a: int|
            0 <= a < runs_of(rows).len() ==> 0 <= #[trigger] rows_before(runs_of(rows), a)
                && rows_before(runs_of(rows), a) + runs_of(rows)[a].len() == rows_before(
                runs_of(rows),
                a + 1,
            ) && rows_before(runs_of(rows), a + 1) <= rows.len(),
        forall|a: int, i: int|
            0 <= a < runs_of(rows).len() && 0 <= i < runs_of(rows)[a].len() ==> #[trigger] runs_of(
                rows,
            )[a][i] == rows[rows_before(runs_of(rows), a) + i],
    decreases rows.len(),
{
    let runs = runs_of(rows);
    lemma_runs_have_rows(rows);
    if rows.len() > 0 {
        let init = rows.drop_last();
        let before = runs_of(init);
        lemma_rows_of_the_runs(init);
        lemma_runs_have_rows(init);
        let shared = if rows.len() >= 2 && same_group(rows[rows.len() - 2], rows.last()) {
            before.len() - 1
        } else {
            before.len() as int
        };
        assert forall|a: int| 0 <= a <= shared implies rows_before(runs, a) == rows_before(
            before,
            a,
        ) by {
            lemma_rows_before_of_the_same_runs(runs, before, a);
        }
        assert(rows_before(runs, shared + 1) == rows_before(runs, shared) + runs[shared].len());
        if shared < before.len() {
            assert(rows_before(before, shared + 1) == rows_before(before, shared)
                + before[shared].len());
        }
        assert(rows_before(runs, runs.len() as int) == rows.len());
        assert forall|a: int| 0 <= a < runs.len() implies 0 <= #[trigger] rows_before(runs, a)
            && rows_before(runs, a) + runs[a].len() == rows_before(runs, a + 1) && rows_before(
            runs,
            a + 1,
        ) <= rows.len() by {
            if a < shared {
                assert(runs[a] == before[a]);
                assert(rows_before(before, a) + before[a].len() == rows_before(before, a + 1));
            }
        }
        assert forall|a: int, i: int|
            0 <= a < runs.len() && 0 <= i < runs[a].len() implies #[trigger] runs[a][i]
            == rows[rows_before(runs, a) + i] by {
            if a < shared {
                assert(runs[a] == before[a]);
                assert(before[a][i] == init[rows_before(before, a) + i]);
                assert(rows_before(before, a) + before[a].len() == rows_before(before, a + 1));
            } else if shared < before.len() && i < before[shared].len() {
                assert(runs[a][i] == before[a][i]);
                assert(before[a][i] == init[rows_before(before, a) + i]);
            }
        }
    }
}

/// The runs further on start further on among the rows.
proof fn lemma_later_runs_start_later(rows: Seq<GroupRow>, a: int, b: int)
    requires
        0 <= a <= b <= runs_of(rows).len(),
    ensures
        rows_before(runs_of(rows), a) <= rows_before(runs_of(rows), b),
        a < b ==> rows_before(runs_of(rows), a) + runs_of(rows)[a].len() <= rows_before(
            runs_of(rows),
            b,
        ),
    decreases b - a,
{
    lemma_rows_of_the_runs(rows);
    lemma_runs_have_rows(rows);
    if a < b {
        lemma_later_runs_start_later(rows, a, b - 1);
        assert(rows_before(runs_of(rows), b - 1) + runs_of(rows)[b - 1].len() == rows_before(
            runs_of(rows),
            b,
        ));
    }
}

/// Each member of a run is named by one of its rows, and a member further on
/// by a row further on.
pub proof fn lemma_members_follow_the_rows(run: Seq<GroupRow>, p: int, q: int)
    requires
        0 <= p < q < members_of(run).len(),
    ensures
        exists|i: int, j: int|
            0 <= i < j < run.len() && #[trigger] member_of(run[i]) == seq![members_of(run)[p]]
                && #[trigger] member_of(run[j]) == seq![members_of(run)[q]],
    decreases run.len(),
{
    let init = run.drop_last();
    let before = members_of(init);
    if q < before.len() {
        lemma_members_follow_the_rows(init, p, q);
        let (i, j) = choose|i: int, j: int|
            0 <= i < j < init.len() && #[trigger] member_of(init[i]) == seq![before[p]]
                && #[trigger] member_of(init[j]) == seq![before[q]];
        assert(member_of(run[i]) == seq![members_of(run)[p]] && member_of(run[j]) == seq![
            members_of(run)[q],
        ]);
    } else {
        lemma_member_has_its_row(init, p);
        let i = choose|i: int| 0 <= i < init.len() && #[trigger] member_of(init[i]) == seq![before[p]];
        let j = run.len() - 1;
        assert(member_of(run[j]) =~= seq![members_of(run)[q]]);
        assert(member_of(run[i]) == seq![members_of(run)[p]] && member_of(run[j]) == seq![
            members_of(run)[q],
        ]);
    }
}

/// Each member of a run is named by one of its rows.
pub proof fn lemma_member_has_its_row(run: Seq<GroupRow>, p: int)
    requires
        0 <= p < members_of(run).len(),
    ensures
        exists|i: int| 0 <= i < run.len() && #[trigger] member_of(run[i]) == seq![members_of(run)[p]],
    decreases run.len(),
{
    let init = run.drop_last();
    let before = members_of(init);
    if p < before.len() {
        lemma_member_has_its_row(init, p);
        let i = choose|i: int| 0 <= i < init.len() && #[trigger] member_of(init[i]) == seq![before[p]];
        assert(member_of(run[i]) == seq![members_of(run)[p]]);
    } else {
        let j = run.len() - 1;
        assert(member_of(run[j]) =~= seq![members_of(run)[p]]);
    }
}

/// The listing keeps the order of the rows. Where the rows come in the order
/// of their display names, and the rows of one group in the order of the
/// members they name, the groups are in the order of their display names and
/// the members of each group are in their order: whatever the two orders
/// are.
pub proof fn lemma_listing_keeps_the_order(
    rows: Seq<GroupRow>,
    names_in_order: spec_fn(Seq<char>, Seq<char>) -> bool,
    members_in_order: spec_fn(Seq<char>, Seq<char>) -> bool,
)
    requires
        forall|i: int, j: int|
            0 <= i < j < rows.len() ==> names_in_order(
                #[trigger] rows[i].display_name@,
                #[trigger] rows[j].display_name@,
            ),
        forall|i: int, j: int|
            0 <= i < j < rows.len() && same_group(rows[i], rows[j]) && member_of(rows[i]).len() > 0
                && member_of(rows[j]).len() > 0 ==> members_in_order(
                #[trigger] member_of(rows[i])[0],
                #[trigger] member_of(rows[j])[0],
            ),
    ensures
        forall|a: int, b: int|
            0 <= a < b < groups_of(rows).len() ==> names_in_order(
                #[trigger] groups_of(rows)[a].display_name,
                #[trigger] groups_of(rows)[b].display_name,
            ),
        forall|a: int, p: int, q: int|
            0 <= a < groups_of(rows).len() && 0 <= p < q < groups_of(rows)[a].users.len()
                ==> members_in_order(
                #[trigger] groups_of(rows)[a].users[p],
                #[trigger] groups_of(rows)[a].users[q],
            ),
{
    let runs = runs_of(rows);
    lemma_rows_of_the_runs(rows);
    lemma_runs_have_rows(rows);
    lemma_runs_cut_the_rows(rows);
    assert forall|a: int, b: int| 0 <= a < b < groups_of(rows).len() implies names_in_order(
        #[trigger] groups_of(rows)[a].display_name,
        #[trigger] groups_of(rows)[b].display_name,
    ) by {
        lemma_later_runs_start_later(rows, a, b);
        let i = rows_before(runs, a);
        let j = rows_before(runs, b);
        assert(runs[a][0] == rows[i]);
        assert(runs[b][0] == rows[j]);
        assert(names_in_order(rows[i].display_name@, rows[j].display_name@));
    }
    assert forall|a: int, p: int, q: int|
        0 <= a < groups_of(rows).len() && 0 <= p < q < groups_of(
            rows,
        )[a].users.len() implies members_in_order(
        #[trigger] groups_of(rows)[a].users[p],
        #[trigger] groups_of(rows)[a].users[q],
    ) by {
        let run = runs[a];
        lemma_members_follow_the_rows(run, p, q);
        let (i, j) = choose|i: int, j: int|
            0 <= i < j < run.len() && #[trigger] member_of(run[i]) == seq![members_of(run)[p]]
                && #[trigger] member_of(run[j]) == seq![members_of(run)[q]];
        let start = rows_before(runs, a);
        assert(run[i] == rows[start + i]);
        assert(run[j] == rows[start + j]);
        assert(same_group(run[0], run[i]));
        assert(same_group(run[0], run[j]));
        assert(member_of(rows[start + i])[0] == members_of(run)[p]);
        assert(member_of(rows[start + j])[0] == members_of(run)[q]);
        assert(members_in_order(member_of(rows[start + i])[0], member_of(rows[start + j])[0]));
    }
}

/// Every row has its group in the listing: a group without members is
/// listed as the others are.
pub proof fn lemma_every_row_has_its_group(rows: Seq<GroupRow>, j: int)
    requires
        0 <= j < rows.len(),
    ensures
        exists|i: int|
            0 <= i < groups_of(rows).len() && (#[trigger] groups_of(rows)[i]).id
                == rows[j].group_id && groups_of(rows)[i].display_name == rows[j].display_name@,
    decreases rows.len(),
{
    let init = rows.drop_last();
    let before = runs_of(init);
    let runs = runs_of(rows);
    lemma_runs_have_rows(rows);
    lemma_runs_have_rows(init);
    lemma_runs_cut_the_rows(rows);
    if j == rows.len() - 1 {
        let i = runs.len() - 1;
        assert(same_group(runs[i][0], runs[i][runs[i].len() - 1]));
        assert(groups_of(rows)[i].id == rows[j].group_id);
    } else {
        lemma_every_row_has_its_group(init, j);
        let i = choose|i: int|
            0 <= i < groups_of(init).len() && (#[trigger] groups_of(init)[i]).id
                == init[j].group_id && groups_of(init)[i].display_name == init[j].display_name@;
        assert(before[i][0] == runs[i][0]);
        assert(groups_of(rows)[i].id == rows[j].group_id);
    }
}

/// No member of a run is an empty text.
pub proof fn lemma_members_are_named(run: Seq<GroupRow>)
    ensures
        forall|k: int| 0 <= k < members_of(run).len() ==> (#[trigger] members_of(run)[k]).len() > 0,
    decreases run.len(),
{
    if run.len() > 0 {
        lemma_members_are_named(run.drop_last());
        let before = members_of(run.drop_last());
        assert forall|k: int| 0 <= k < members_of(run).len() implies (#[trigger] members_of(
            run,
        )[k]).len() > 0 by {
            if k < before.len() {
                assert(members_of(run)[k] == before[k]);
            } else {
                assert(members_of(run)[k] == member_of(run.last())[k - before.len()]);
            }
        }
    }
}

/// No group of a listing has a member that is an empty text.
pub proof fn lemma_no_group_has_an_unnamed_member(rows: Seq<GroupRow>)
    ensures
        forall|i: int, k: int|
            0 <= i < groups_of(rows).len() && 0 <= k < groups_of(rows)[i].users.len() ==> (
            #[trigger] groups_of(rows)[i].users[k]).len() > 0,
{
    assert forall|i: int, k: int|
        0 <= i < groups_of(rows).len() && 0 <= k < groups_of(rows)[i].users.len() implies (
    #[trigger] groups_of(rows)[i].users[k]).len() > 0 by {
        lemma_members_are_named(runs_of(rows)[i]);
    }
}

} // verus!
