//! From the rows that the database gives back to the entities of the
//! directory.

use crate::model::text_or_empty;
use crate::model::Group;
use crate::model::GroupId;
use crate::model::GroupIdAndName;
use crate::model::GroupView;
use crate::model::User;
use crate::runs::lemma_runs_have_rows;
use itertools::Itertools;
use vstd::prelude::*;

verus! {

/// One row of the users table, as the database gives it: a name that was
/// never stored is `None`.
#[derive(Debug, PartialEq, Eq)]
pub struct UserRow {
    pub user_id: String,
    pub email: String,
    pub display_name: Option<String>,
    pub first_name: Option<String>,
    pub last_name: Option<String>,
    pub avatar: Option<Vec<u8>>,
    pub creation_date: chrono::NaiveDateTime,
}

/// The text of `field`, or the empty text where the field is not there.
fn text_or_default(field: Option<String>) -> (text: String)
    ensures
        text@ == text_or_empty(field),
{
    match field {
        Some(text) => text,
        None => String::new(),
    }
}

/// The user that a row of the users table stands for: each column is the
/// field of its name, and a name that was never stored is the empty text.
pub fn user_from_row(row: UserRow) -> (user: User)
    ensures
        user.user_id == row.user_id,
        user.email == row.email,
        user.display_name@ == text_or_empty(row.display_name),
        user.first_name@ == text_or_empty(row.first_name),
        user.last_name@ == text_or_empty(row.last_name),
        user.avatar == row.avatar,
        user.creation_date == row.creation_date,
{
    User {
        user_id: row.user_id,
        email: row.email,
        display_name: text_or_default(row.display_name),
        first_name: text_or_default(row.first_name),
        last_name: text_or_default(row.last_name),
        avatar: row.avatar,
        creation_date: row.creation_date,
    }
}

/// One row of the listing of groups: a group and one of its members, or no
/// member where the group has none.
#[derive(Debug, PartialEq, Eq)]
pub struct GroupRow {
    pub group_id: GroupId,
    pub display_name: String,
    /// The id of the member. A row without a member has `None` here, or an
    /// empty text.
    pub user_id: Option<String>,
}

/// Whether `a` and `b` are rows of one group: of one id and one display name.
pub open spec fn same_group(a: GroupRow, b: GroupRow) -> bool {
    a.group_id == b.group_id && a.display_name@ == b.display_name@
}

/// The runs of `rows`: the rows in their order, cut wherever a row is of
/// another group than the row before it.
pub open spec fn runs_of(rows: Seq<GroupRow>) -> Seq<Seq<GroupRow>>
    decreases rows.len(),
{
    if rows.len() == 0 {
        Seq::empty()
    } else {
        let before = runs_of(rows.drop_last());
        if rows.len() >= 2 && same_group(rows[rows.len() - 2], rows.last()) {
            before.drop_last().push(before.last().push(rows.last()))
        } else {
            before.push(seq![rows.last()])
        }
    }
}

/// The member that `row` names: none where the row has no user id or an
/// empty one.
pub open spec fn member_of(row: GroupRow) -> Seq<Seq<char>> {
    match row.user_id {
        Some(user_id) => if user_id@.len() > 0 {
            seq![user_id@]
        } else {
            Seq::empty()
        },
        None => Seq::empty(),
    }
}

/// The members that the rows of `run` name, in the order of the rows.
pub open spec fn members_of(run: Seq<GroupRow>) -> Seq<Seq<char>>
    decreases run.len(),
{
    if run.len() == 0 {
        Seq::empty()
    } else {
        members_of(run.drop_last()) + member_of(run.last())
    }
}

/// The group that a run of rows stands for: the group of its first row, with
/// the members that its rows name.
pub open spec fn group_of(run: Seq<GroupRow>) -> GroupView {
    GroupView {
        id: run[0].group_id,
        display_name: run[0].display_name@,
        users: members_of(run),
    }
}

/// The groups that the rows of a listing stand for: one for each run of the
/// rows, in the order of the runs.
pub open spec fn groups_of(rows: Seq<GroupRow>) -> Seq<GroupView> {
    Seq::new(runs_of(rows).len(), |i: int| group_of(runs_of(rows)[i]))
}

/// The rows of each run of `runs`.
pub open spec fn run_views(runs: Seq<Vec<GroupRow>>) -> Seq<Seq<GroupRow>> {
    Seq::new(runs.len(), |i: int| runs[i]@)
}

impl GroupRow {
    /// What tells the group of a row: its id and its display name.
    pub fn key(&self) -> (key: (i32, String))
        ensures
            key.0 == self.group_id.0,
            key.1@ == self.display_name@,
    {
        (self.group_id.0, self.display_name.clone())
    }
}

/// `Itertools::group_by` with the key of a row, each group collected: the
/// rows cut into their runs. Neighbouring rows with equal keys are of one
/// run; a row whose key is not that of the row before it starts the next.
#[verifier::external_body]
fn runs_by_group(rows: Vec<GroupRow>) -> (runs: Vec<Vec<GroupRow>>)
    ensures
        run_views(runs@) == runs_of(rows@),
{
    rows.into_iter().group_by(|row| row.key()).into_iter().map(|(_, run)| run.collect()).collect()
}

/// The members that the rows of `run` name, in the order of the rows.
fn members(run: &Vec<GroupRow>) -> (users: Vec<String>)
    ensures
        Seq::new(users@.len(), |i: int| users@[i]@) == members_of(run@),
{
    let mut users: Vec<String> = Vec::new();
    let mut i: usize = 0;
    while i < run.len()
        invariant
            i <= run.len(),
            Seq::new(users@.len(), |k: int| users@[k]@) == members_of(run@.take(i as int)),
        decreases run.len() - i,
    {
        let ghost before = Seq::new(users@.len(), |k: int| users@[k]@);
        if let Some(user_id) = &run[i].user_id {
            if !user_id.as_str().is_empty() {
                users.push(user_id.clone());
            }
        }
        proof {
            assert(run@.take(i + 1).drop_last() =~= run@.take(i as int));
            assert(Seq::new(users@.len(), |k: int| users@[k]@) =~= before + member_of(run@[i as int]));
        }
        i = i + 1;
    }
    assert(run@.take(run@.len() as int) =~= run@);
    users
}

/// Folds the rows of the listing of groups into groups with their members.
/// The rows of one group follow each other: each run of rows of one group
/// gives one group. A row that names no member gives no member, so that a
/// group without members is listed, with no member.
pub fn groups_from_rows(rows: Vec<GroupRow>) -> (groups: Vec<Group>)
    ensures
        Seq::new(groups@.len(), |i: int| groups@[i]@) == groups_of(rows@),
{
    let runs = runs_by_group(rows);
    proof {
        lemma_runs_have_rows(rows@);
    }
    let mut groups: Vec<Group> = Vec::new();
    let mut i: usize = 0;
    while i < runs.len()
        invariant
            i <= runs.len(),
            run_views(runs@) == runs_of(rows@),
            forall|k: int| 0 <= k < runs_of(rows@).len() ==> (#[trigger] runs_of(rows@)[k]).len() > 0,
            groups@.len() == i,
            forall|k: int| 0 <= k < i ==> (#[trigger] groups@[k])@ == group_of(runs_of(rows@)[k]),
        decreases runs.len() - i,
    {
        let run = &runs[i];
        assert(run@ == run_views(runs@)[i as int]);
        let users = members(run);
        groups.push(
            Group { id: run[0].group_id, display_name: run[0].display_name.clone(), users },
        );
        i = i + 1;
    }
    assert(run_views(runs@).len() == runs@.len());
    groups
}

/// The id and display name of each group of `groups`, in order.
pub open spec fn group_names(groups: Seq<GroupIdAndName>) -> Seq<(GroupId, Seq<char>)> {
    Seq::new(groups.len(), |i: int| groups[i]@)
}

/// The items of `items` without repetition: each item where it occurs
/// first.
pub open spec fn distinct(items: Seq<(GroupId, Seq<char>)>) -> Seq<(GroupId, Seq<char>)>
    decreases items.len(),
{
    if items.len() == 0 {
        Seq::empty()
    } else {
        let before = distinct(items.drop_last());
        if before.contains(items.last()) {
            before
        } else {
            before.push(items.last())
        }
    }
}

/// Nothing occurs twice in `distinct(items)`, and what occurs in it is what
/// occurs in `items`.
pub proof fn lemma_distinct_is_the_set(items: Seq<(GroupId, Seq<char>)>)
    ensures
        distinct(items).no_duplicates(),
        forall|item: (GroupId, Seq<char>)|
            #![trigger distinct(items).contains(item)]
            #![trigger items.contains(item)]
            distinct(items).contains(item) <==> items.contains(item),
    decreases items.len(),
{
    if items.len() > 0 {
        let init = items.drop_last();
        let last = items.last();
        lemma_distinct_is_the_set(init);
        assert forall|item: (GroupId, Seq<char>)|
            #![trigger distinct(items).contains(item)]
            #![trigger items.contains(item)]
            distinct(items).contains(item) <==> items.contains(item) by {
            if items.contains(item) {
                let i = choose|i: int| 0 <= i < items.len() && items[i] == item;
                if i < items.len() - 1 {
                    assert(init[i] == item);
                    assert(init.contains(item));
                    let k = choose|k: int| 0 <= k < distinct(init).len() && distinct(init)[k] == item;
                    assert(distinct(items)[k] == item);
                } else if distinct(init).contains(last) {
                } else {
                    assert(distinct(items)[distinct(init).len() as int] == item);
                }
            }
            if distinct(items).contains(item) {
                let k = choose|k: int| 0 <= k < distinct(items).len() && distinct(items)[k] == item;
                if k < distinct(init).len() {
                    assert(distinct(init)[k] == item);
                    assert(distinct(init).contains(item));
                    let i = choose|i: int| 0 <= i < init.len() && init[i] == item;
                    assert(items[i] == item);
                } else {
                    assert(items[items.len() - 1] == item);
                }
            }
        }
    }
}

/// Whether the group `group` is among `groups`.
fn is_listed(groups: &Vec<GroupIdAndName>, group: &GroupIdAndName) -> (listed: bool)
    ensures
        listed == group_names(groups@).contains(group@),
{
    let mut i: usize = 0;
    while i < groups.len()
        invariant
            i <= groups.len(),
            forall|k: int| 0 <= k < i ==> group_names(groups@)[k] != group@,
        decreases groups.len() - i,
    {
        if groups[i].0.0 == group.0.0 && groups[i].1 == group.1 {
            assert(group_names(groups@)[i as int] == group@);
            return true;
        }
        i = i + 1;
    }
    false
}

/// The groups of a user, from the rows that name them: each group once,
/// where it is named first. No rows give no group.
pub fn user_groups_from_rows(rows: Vec<GroupIdAndName>) -> (groups: Vec<GroupIdAndName>)
    ensures
        group_names(groups@) == distinct(group_names(rows@)),
        rows@.len() == 0 ==> groups@.len() == 0,
        group_names(groups@).no_duplicates(),
        forall|group: (GroupId, Seq<char>)|
            #![trigger group_names(groups@).contains(group)]
            #![trigger group_names(rows@).contains(group)]
            group_names(groups@).contains(group) <==> group_names(rows@).contains(group),
{
    let mut groups: Vec<GroupIdAndName> = Vec::new();
    let mut i: usize = 0;
    while i < rows.len()
        invariant
            i <= rows.len(),
            group_names(groups@) == distinct(group_names(rows@).take(i as int)),
        decreases rows.len() - i,
    {
        let ghost before = group_names(groups@);
        assert(group_names(rows@).take(i + 1).drop_last() =~= group_names(rows@).take(i as int));
        if !is_listed(&groups, &rows[i]) {
            groups.push(GroupIdAndName(rows[i].0, rows[i].1.clone()));
            assert(group_names(groups@) =~= before.push(rows@[i as int]@));
        }
        i = i + 1;
    }
    proof {
        assert(group_names(rows@).take(rows@.len() as int) =~= group_names(rows@));
        lemma_distinct_is_the_set(group_names(rows@));
    }
    groups
}

} // verus!
