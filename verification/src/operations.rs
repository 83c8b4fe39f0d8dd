//! The operations that change a collection: add, delete, move and replace. Each
//! either succeeds and yields the whole new collection, or fails and leaves the
//! collection as it was.

use crate::search::{first_where, lemma_first_where, lemma_first_where_at, lemma_first_where_none};
use crate::workspace::{
    records, same_identity, unique, valid_collection, well_formed, Error, Failure, Field, Record,
    Workspace,
};
use vstd::prelude::*;

verus! {

/// The test that a record is the one that `key` identifies.
pub open spec fn identified_by(key: Record) -> spec_fn(Record) -> bool {
    |r: Record| same_identity(key, r)
}

/// Where the record that `key` identifies stands in `c`: the first one, should
/// several match.
pub open spec fn position_of(c: Seq<Record>, key: Record) -> Option<int> {
    first_where(c, identified_by(key))
}

/// Finds the record that `key` identifies.
pub fn locate(workspaces: &Vec<Workspace>, key: &Workspace) -> (out: Option<usize>)
    ensures
        match out {
            Some(i) => position_of(records(workspaces@), key@) == Some(i as int) && i
                < workspaces@.len(),
            None => position_of(records(workspaces@), key@) is None,
        },
{
    let ghost c = records(workspaces@);
    let ghost p = identified_by(key@);
    let mut i: usize = 0;
    while i < workspaces.len()
        invariant
            i <= workspaces@.len(),
            c == records(workspaces@),
            p == identified_by(key@),
            forall|j: int| 0 <= j < i ==> !p(#[trigger] c[j]),
        decreases workspaces@.len() - i,
    {
        if key.identifies(&workspaces[i]) {
            proof {
                lemma_first_where_at(c, p, i as int);
            }
            return Some(i);
        }
        i = i + 1;
    }
    proof {
        lemma_first_where_none(c, p);
    }
    None
}

/// Some record of `c` has this name.
pub open spec fn has_name(c: Seq<Record>, name: Seq<char>) -> bool {
    exists|i: int| 0 <= i < c.len() && (#[trigger] c[i]).name == name
}

/// Some record of `c` has this path.
pub open spec fn has_path(c: Seq<Record>, path: Seq<char>) -> bool {
    exists|i: int| 0 <= i < c.len() && (#[trigger] c[i]).path == path
}

/// Some record of `c` has this shortcut.
pub open spec fn has_shortcut(c: Seq<Record>, shortcut: Seq<char>) -> bool {
    exists|i: int| 0 <= i < c.len() && (#[trigger] c[i]).shortcut == Some(shortcut)
}

/// The field in which `new` repeats a record of `c`: the name before the path,
/// the path before the shortcut. `None` where it repeats nothing.
pub open spec fn collision(c: Seq<Record>, new: Record) -> Option<Field> {
    if has_name(c, new.name) {
        Some(Field::Name)
    } else if has_path(c, new.path) {
        Some(Field::Path)
    } else if new.shortcut is Some && has_shortcut(c, new.shortcut->0) {
        Some(Field::Shortcut)
    } else {
        None
    }
}

/// Whether some workspace of the list has this name.
pub fn name_taken(workspaces: &Vec<Workspace>, name: &String) -> (b: bool)
    ensures
        b == has_name(records(workspaces@), name@),
{
    let ghost c = records(workspaces@);
    let mut i: usize = 0;
    while i < workspaces.len()
        invariant
            i <= workspaces@.len(),
            c == records(workspaces@),
            forall|j: int| 0 <= j < i ==> (#[trigger] c[j]).name != name@,
        decreases workspaces@.len() - i,
    {
        if workspaces[i].name == *name {
            assert(c[i as int].name == name@);
            return true;
        }
        i = i + 1;
    }
    false
}

/// Whether some workspace of the list has this path.
pub fn path_taken(workspaces: &Vec<Workspace>, path: &String) -> (b: bool)
    ensures
        b == has_path(records(workspaces@), path@),
{
    let ghost c = records(workspaces@);
    let mut i: usize = 0;
    while i < workspaces.len()
        invariant
            i <= workspaces@.len(),
            c == records(workspaces@),
            forall|j: int| 0 <= j < i ==> (#[trigger] c[j]).path != path@,
        decreases workspaces@.len() - i,
    {
        if workspaces[i].path == *path {
            assert(c[i as int].path == path@);
            return true;
        }
        i = i + 1;
    }
    false
}

/// Whether some workspace of the list has this shortcut.
pub fn shortcut_taken(workspaces: &Vec<Workspace>, shortcut: &String) -> (b: bool)
    ensures
        b == has_shortcut(records(workspaces@), shortcut@),
{
    let ghost c = records(workspaces@);
    let mut i: usize = 0;
    while i < workspaces.len()
        invariant
            i <= workspaces@.len(),
            c == records(workspaces@),
            forall|j: int| 0 <= j < i ==> (#[trigger] c[j]).shortcut != Some(shortcut@),
        decreases workspaces@.len() - i,
    {
        match &workspaces[i].shortcut {
            Some(s) => {
                if *s == *shortcut {
                    assert(c[i as int].shortcut == Some(shortcut@));
                    return true;
                }
            },
            None => {},
        }
        i = i + 1;
    }
    false
}

/// The collection with `new` appended, or the field in which `new` repeats a
/// record that is already there.
pub open spec fn added(c: Seq<Record>, new: Record) -> Result<Seq<Record>, Failure> {
    match collision(c, new) {
        None => Ok(c.push(new)),
        Some(field) => Err(Failure::DuplicateField { field }),
    }
}

/// Appends `new_ws` to the list, as its last and lowest-ranked entry, unless its
/// name, path or shortcut is already there.
pub fn add_workspace(workspaces: &mut Vec<Workspace>, new_ws: Workspace) -> (out: Result<(), Error>)
    ensures
        match out {
            Ok(()) => {
                &&& added(records(old(workspaces)@), new_ws@) == Ok::<Seq<Record>, Failure>(
                    records(final(workspaces)@),
                )
                &&& final(workspaces)@ == old(workspaces)@.push(new_ws)
                &&& final(workspaces)@.len() == old(workspaces)@.len() + 1
                &&& final(workspaces)@.last() == new_ws
            },
            Err(e) => {
                &&& added(records(old(workspaces)@), new_ws@) == Err::<Seq<Record>, Failure>(e@)
                &&& final(workspaces)@ == old(workspaces)@
            },
        },
{
    proof {
        lemma_records_commute(workspaces@, new_ws, 0);
    }
    if name_taken(workspaces, &new_ws.name) {
        return Err(Error::DuplicateField { field: Field::Name });
    }
    if path_taken(workspaces, &new_ws.path) {
        return Err(Error::DuplicateField { field: Field::Path });
    }
    let repeated = match &new_ws.shortcut {
        Some(s) => shortcut_taken(workspaces, s),
        None => false,
    };
    if repeated {
        return Err(Error::DuplicateField { field: Field::Shortcut });
    }
    workspaces.push(new_ws);
    Ok(())
}

/// The collection without the record that `key` identifies, or `NotFound` where
/// it identifies none.
pub open spec fn deleted(c: Seq<Record>, key: Record) -> Result<Seq<Record>, Failure> {
    match position_of(c, key) {
        Some(i) => Ok(c.remove(i)),
        None => Err(Failure::NotFound),
    }
}

/// Removes the record that `del_ws` identifies.
pub fn delete_workspace(workspaces: &mut Vec<Workspace>, del_ws: &Workspace) -> (out: Result<
    (),
    Error,
>)
    ensures
        match out {
            Ok(()) => {
                &&& deleted(records(old(workspaces)@), del_ws@) == Ok::<Seq<Record>, Failure>(
                    records(final(workspaces)@),
                )
                &&& position_of(records(old(workspaces)@), del_ws@) matches Some(i)
                &&& 0 <= i < old(workspaces)@.len()
                &&& final(workspaces)@ == old(workspaces)@.remove(i)
            },
            Err(e) => {
                &&& deleted(records(old(workspaces)@), del_ws@) == Err::<Seq<Record>, Failure>(e@)
                &&& e == Error::NotFound
                &&& final(workspaces)@ == old(workspaces)@
            },
        },
{
    match locate(workspaces, del_ws) {
        Some(i) => {
            proof {
                lemma_records_commute(workspaces@, *del_ws, i as int);
            }
            workspaces.remove(i);
            Ok(())
        },
        None => Err(Error::NotFound),
    }
}

/// Where the record at `i`, of `n`, goes when it moves one place up or down: one
/// place toward the front or the back, and round to the other end from the first
/// or the last place.
pub open spec fn target_index(i: int, n: int, up: bool) -> int {
    if up {
        if i == 0 {
            n - 1
        } else {
            i - 1
        }
    } else {
        if i >= n - 1 {
            0
        } else {
            i + 1
        }
    }
}

/// `c` with the item at `i` taken out and put back at `t`; the items between the
/// two places shift by one.
pub open spec fn moved<A>(c: Seq<A>, i: int, t: int) -> Seq<A> {
    c.remove(i).insert(t, c[i])
}

/// The collection with the record that `key` identifies moved one place up or
/// down, and the place it moved to; `NotFound` where `key` identifies none, and
/// `InsufficientSize` where the record is the only one.
pub open spec fn shifted(c: Seq<Record>, key: Record, up: bool) -> Result<
    (Seq<Record>, int),
    Failure,
> {
    match position_of(c, key) {
        None => Err(Failure::NotFound),
        Some(i) => if c.len() <= 1 {
            Err(Failure::InsufficientSize)
        } else {
            let t = target_index(i, c.len() as int, up);
            Ok((moved(c, i, t), t))
        },
    }
}

/// Moves the record that `ws` identifies one place toward the front (`up`) or the
/// back, wrapping round at the ends, and returns its new position.
pub fn move_workspace(workspaces: &mut Vec<Workspace>, ws: &Workspace, up: bool) -> (out: Result<
    usize,
    Error,
>)
    ensures
        match out {
            Ok(t) => {
                &&& shifted(records(old(workspaces)@), ws@, up) == Ok::<(Seq<Record>, int), Failure>(
                    (records(final(workspaces)@), t as int),
                )
                &&& position_of(records(old(workspaces)@), ws@) matches Some(i)
                &&& old(workspaces)@.len() >= 2
                &&& t == target_index(i, old(workspaces)@.len() as int, up)
                &&& final(workspaces)@ == moved(old(workspaces)@, i, t as int)
            },
            Err(e) => {
                &&& shifted(records(old(workspaces)@), ws@, up) == Err::<
                    (Seq<Record>, int),
                    Failure,
                >(e@)
                &&& final(workspaces)@ == old(workspaces)@
            },
        },
        old(workspaces)@.len() <= 1 ==> out is Err,
{
    match locate(workspaces, ws) {
        Some(index) => {
            let len: usize = workspaces.len();
            if len <= 1 {
                return Err(Error::InsufficientSize);
            }
            proof {
                lemma_records_moved(
                    workspaces@,
                    index as int,
                    target_index(index as int, len as int, up),
                );
            }
            let new_index: usize = if up {
                if index == 0 {
                    len - 1
                } else {
                    index - 1
                }
            } else {
                if index >= len - 1 {
                    0
                } else {
                    index + 1
                }
            };
            let workspace = workspaces.remove(index);
            workspaces.insert(new_index, workspace);
            Ok(new_index)
        },
        None => Err(Error::NotFound),
    }
}

/// The collection with the record that `key` identifies given a new name and a
/// new path, at the same place and with the same shortcut; `NotFound` where `key`
/// identifies none.
pub open spec fn replaced(c: Seq<Record>, key: Record, name: Seq<char>, path: Seq<char>) -> Result<
    Seq<Record>,
    Failure,
> {
    match position_of(c, key) {
        Some(i) => Ok(c.update(i, Record { name, path, shortcut: c[i].shortcut })),
        None => Err(Failure::NotFound),
    }
}

/// Gives the record that `key` identifies a new name and a new path, in place;
/// its shortcut stays.
pub fn replace_workspace(
    workspaces: &mut Vec<Workspace>,
    key: &Workspace,
    new_name: String,
    new_path: String,
) -> (out: Result<(), Error>)
    ensures
        match out {
            Ok(()) => {
                &&& replaced(records(old(workspaces)@), key@, new_name@, new_path@) == Ok::<
                    Seq<Record>,
                    Failure,
                >(records(final(workspaces)@))
                &&& position_of(records(old(workspaces)@), key@) matches Some(i)
                &&& 0 <= i < old(workspaces)@.len()
                &&& final(workspaces)@ == old(workspaces)@.update(
                    i,
                    Workspace {
                        name: new_name,
                        path: new_path,
                        shortcut: old(workspaces)@[i].shortcut,
                    },
                )
            },
            Err(e) => {
                &&& replaced(records(old(workspaces)@), key@, new_name@, new_path@) == Err::<
                    Seq<Record>,
                    Failure,
                >(e@)
                &&& e == Error::NotFound
                &&& final(workspaces)@ == old(workspaces)@
            },
        },
{
    match locate(workspaces, key) {
        Some(i) => {
            proof {
                lemma_records_commute(
                    workspaces@,
                    Workspace {
                        name: new_name,
                        path: new_path,
                        shortcut: workspaces@[i as int].shortcut,
                    },
                    i as int,
                );
            }
            let before = workspaces.remove(i);
            workspaces.insert(
                i,
                Workspace { name: new_name, path: new_path, shortcut: before.shortcut },
            );
            assert(workspaces@ =~= old(workspaces)@.update(
                i as int,
                Workspace {
                    name: new_name,
                    path: new_path,
                    shortcut: old(workspaces)@[i as int].shortcut,
                },
            ));
            Ok(())
        },
        None => Err(Error::NotFound),
    }
}

/// The records of a list commute with the changes that the operations make to it.
pub proof fn lemma_records_commute(list: Seq<Workspace>, w: Workspace, i: int)
    ensures
        records(list.push(w)) == records(list).push(w@),
        0 <= i < list.len() ==> records(list.remove(i)) == records(list).remove(i),
        0 <= i <= list.len() ==> records(list.insert(i, w)) == records(list).insert(i, w@),
        0 <= i < list.len() ==> records(list.update(i, w)) == records(list).update(i, w@),
{
    assert(records(list.push(w)) =~= records(list).push(w@));
    if 0 <= i < list.len() {
        assert(records(list.remove(i)) =~= records(list).remove(i));
        assert(records(list.update(i, w)) =~= records(list).update(i, w@));
    }
    if 0 <= i <= list.len() {
        assert(records(list.insert(i, w)) =~= records(list).insert(i, w@));
    }
}

/// Moving a record commutes with taking the records of a list.
pub proof fn lemma_records_moved(list: Seq<Workspace>, i: int, t: int)
    requires
        0 <= i < list.len(),
        0 <= t < list.len(),
    ensures
        records(moved(list, i, t)) == moved(records(list), i, t),
{
    assert(records(moved(list, i, t)) =~= moved(records(list), i, t));
}

/// Adding to a collection of `n` records either fails and names the first field,
/// of name, path and shortcut, in which the new record repeats one that is there,
/// or gives a collection of `n + 1` records: those that were there, in their
/// order, and the new one last.
pub proof fn lemma_added(c: Seq<Record>, new: Record)
    ensures
        has_name(c, new.name) ==> added(c, new) == Err::<Seq<Record>, Failure>(
            Failure::DuplicateField { field: Field::Name },
        ),
        !has_name(c, new.name) && has_path(c, new.path) ==> added(c, new) == Err::<
            Seq<Record>,
            Failure,
        >(Failure::DuplicateField { field: Field::Path }),
        !has_name(c, new.name) && !has_path(c, new.path) && new.shortcut is Some && has_shortcut(
            c,
            new.shortcut->0,
        ) ==> added(c, new) == Err::<Seq<Record>, Failure>(
            Failure::DuplicateField { field: Field::Shortcut },
        ),
        !has_name(c, new.name) && !has_path(c, new.path) && !(new.shortcut is Some && has_shortcut(
            c,
            new.shortcut->0,
        )) ==> added(c, new) is Ok,
        added(c, new) matches Ok(d) ==> d.len() == c.len() + 1 && d.last() == new && d.drop_last()
            == c,
        c.len() == 0 ==> added(c, new) is Ok,
{
    assert(c.push(new).drop_last() =~= c);
}

/// A record that repeats nothing can be appended to a collection without
/// breaking uniqueness.
pub proof fn lemma_add_keeps_unique(c: Seq<Record>, new: Record)
    requires
        unique(c),
        added(c, new) is Ok,
    ensures
        unique(added(c, new)->Ok_0),
{
    let d = c.push(new);
    assert forall|i: int, j: int| 0 <= i < d.len() && 0 <= j < d.len() && i != j implies {
        &&& (#[trigger] d[i]).name != (#[trigger] d[j]).name
        &&& d[i].path != d[j].path
        &&& d[i].shortcut is Some ==> d[i].shortcut != d[j].shortcut
    } by {
        if i < c.len() && j < c.len() {
            assert(d[i] == c[i] && d[j] == c[j]);
        } else if i < c.len() {
            assert(d[i] == c[i] && d[j] == new);
        } else {
            assert(d[j] == c[j] && d[i] == new);
        }
    }
}

/// Taking a record out of a collection does not break uniqueness.
pub proof fn lemma_delete_keeps_unique(c: Seq<Record>, i: int)
    requires
        unique(c),
        0 <= i < c.len(),
    ensures
        unique(c.remove(i)),
{
    let d = c.remove(i);
    assert forall|a: int, b: int| 0 <= a < d.len() && 0 <= b < d.len() && a != b implies {
        &&& (#[trigger] d[a]).name != (#[trigger] d[b]).name
        &&& d[a].path != d[b].path
        &&& d[a].shortcut is Some ==> d[a].shortcut != d[b].shortcut
    } by {
        let a0 = if a < i { a } else { a + 1 };
        let b0 = if b < i { b } else { b + 1 };
        assert(d[a] == c[a0] && d[b] == c[b0]);
    }
}

/// A delete takes exactly one record out, the one that the key identifies, and
/// leaves the others in their order. In a collection with unique records the same
/// key then identifies nothing, so that a second delete fails with `NotFound`.
pub proof fn lemma_delete_twice(c: Seq<Record>, key: Record)
    requires
        unique(c),
        deleted(c, key) is Ok,
    ensures
        deleted(c, key)->Ok_0.len() == c.len() - 1,
        deleted(deleted(c, key)->Ok_0, key) == Err::<Seq<Record>, Failure>(Failure::NotFound),
{
    let p = identified_by(key);
    let i = position_of(c, key)->0;
    lemma_first_where(c, p);
    let d = c.remove(i);
    assert forall|j: int| 0 <= j < d.len() implies !p(#[trigger] d[j]) by {
        let j0 = if j < i { j } else { j + 1 };
        assert(d[j] == c[j0]);
        assert(c[i].name != c[j0].name);
    }
    lemma_first_where_none(d, p);
}

/// A delete fails exactly where the key identifies no record of the collection.
pub proof fn lemma_deleted(c: Seq<Record>, key: Record)
    ensures
        deleted(c, key) is Err <==> forall|i: int|
            0 <= i < c.len() ==> !same_identity(key, #[trigger] c[i]),
        deleted(c, key) matches Ok(d) ==> {
            let i = position_of(c, key)->0;
            &&& 0 <= i < c.len()
            &&& same_identity(key, c[i])
            &&& d == c.remove(i)
        },
{
    let p = identified_by(key);
    lemma_first_where(c, p);
    if deleted(c, key) is Ok {
        let i = position_of(c, key)->0;
        assert(p(c[i]));
    } else {
        assert forall|i: int| 0 <= i < c.len() implies !same_identity(key, #[trigger] c[i]) by {
            assert(!p(c[i]));
        }
    }
}

/// Where a moved item ends up, and what becomes of the others: those before both
/// places and those after both stay, those between shift by one toward the place
/// that was left.
pub proof fn lemma_moved<A>(c: Seq<A>, i: int, t: int)
    requires
        0 <= i < c.len(),
        0 <= t < c.len(),
    ensures
        moved(c, i, t).len() == c.len(),
        moved(c, i, t)[t] == c[i],
        forall|k: int| 0 <= k < c.len() && k < i && k < t ==> moved(c, i, t)[k] == c[k],
        forall|k: int| 0 <= k < c.len() && k > i && k > t ==> moved(c, i, t)[k] == c[k],
        forall|k: int| i <= k < t ==> moved(c, i, t)[k] == c[k + 1],
        forall|k: int| t < k <= i ==> moved(c, i, t)[k] == c[k - 1],
        moved(c, i, t).to_multiset() == c.to_multiset(),
{
    let r = c.remove(i);
    vstd::seq_lib::to_multiset_remove(c, i);
    vstd::seq_lib::to_multiset_insert(r, t, c[i]);
    assert(c.to_multiset().count(c[i]) > 0) by {
        vstd::seq_lib::to_multiset_contains(c, c[i]);
        assert(c.contains(c[i]));
    }
    assert(c.to_multiset().remove(c[i]).insert(c[i]) =~= c.to_multiset());
}

/// Moving up from the first place wraps round to the last, and moving down from
/// the last place wraps round to the first; the other records keep their order.
pub proof fn lemma_move_wraps<A>(c: Seq<A>)
    requires
        c.len() >= 2,
    ensures
        target_index(0, c.len() as int, true) == c.len() - 1,
        moved(c, 0, c.len() - 1) == c.drop_first().push(c.first()),
        moved(c, 0, c.len() - 1).last() == c.first(),
        target_index(c.len() - 1, c.len() as int, false) == 0,
        moved(c, c.len() - 1, 0) == seq![c.last()] + c.drop_last(),
        moved(c, c.len() - 1, 0).first() == c.last(),
{
    assert(moved(c, 0, c.len() - 1) =~= c.drop_first().push(c.first()));
    assert(moved(c, c.len() - 1, 0) =~= seq![c.last()] + c.drop_last());
}

/// Moving the first record of two or more up makes it the last, and moving the
/// last record down makes it the first.
pub proof fn lemma_shift_wraps(c: Seq<Record>, key: Record)
    requires
        c.len() >= 2,
    ensures
        position_of(c, key) == Some(0int) ==> shifted(c, key, true) == Ok::<
            (Seq<Record>, int),
            Failure,
        >((c.drop_first().push(c.first()), c.len() - 1)),
        position_of(c, key) == Some(c.len() - 1) ==> shifted(c, key, false) == Ok::<
            (Seq<Record>, int),
            Failure,
        >((seq![c.last()] + c.drop_last(), 0int)),
{
    lemma_move_wraps(c);
}

/// In a collection of one record or none a move always fails, with `NotFound`
/// where the key identifies nothing and `InsufficientSize` where it identifies
/// the one record.
pub proof fn lemma_shift_needs_two(c: Seq<Record>, key: Record, up: bool)
    requires
        c.len() <= 1,
    ensures
        shifted(c, key, up) is Err,
        shifted(c, key, up)->Err_0 == if c.len() == 1 && same_identity(key, c[0]) {
            Failure::InsufficientSize
        } else {
            Failure::NotFound
        },
{
    let p = identified_by(key);
    lemma_first_where(c, p);
    if c.len() == 1 {
        assert(p(c[0]) == same_identity(key, c[0]));
    }
}

/// Away from the ends a move is a swap with the neighbour on that side.
pub proof fn lemma_move_inside<A>(c: Seq<A>, i: int, up: bool)
    requires
        0 <= i < c.len(),
        if up {
            i > 0
        } else {
            i < c.len() - 1
        },
    ensures
        moved(c, i, target_index(i, c.len() as int, up)) == c.update(
            i,
            c[target_index(i, c.len() as int, up)],
        ).update(target_index(i, c.len() as int, up), c[i]),
{
    let t = target_index(i, c.len() as int, up);
    assert(moved(c, i, t) =~= c.update(i, c[t]).update(t, c[i]));
}

/// Moving a record does not break uniqueness, and the key that identified it
/// finds it at the place that the move returns.
pub proof fn lemma_move_keeps_unique(c: Seq<Record>, key: Record, up: bool)
    requires
        unique(c),
        shifted(c, key, up) is Ok,
    ensures
        ({
            let (d, t) = shifted(c, key, up)->Ok_0;
            &&& 0 <= t < c.len()
            &&& d.len() == c.len()
            &&& unique(d)
            &&& position_of(d, key) == Some(t)
            &&& d.to_multiset() == c.to_multiset()
        }),
{
    let p = identified_by(key);
    let i = position_of(c, key)->0;
    lemma_first_where(c, p);
    let t = target_index(i, c.len() as int, up);
    let d = moved(c, i, t);
    lemma_moved(c, i, t);
    let src = |k: int| if k == t { i } else if k < i && k < t { k } else if k > i && k > t { k } else if i <= k < t { k + 1 } else { k - 1 };
    assert forall|k: int| 0 <= k < d.len() implies 0 <= src(k) < c.len() && d[k] == c[src(k)] by {}
    assert forall|a: int, b: int| 0 <= a < d.len() && 0 <= b < d.len() && a != b implies {
        &&& (#[trigger] d[a]).name != (#[trigger] d[b]).name
        &&& d[a].path != d[b].path
        &&& d[a].shortcut is Some ==> d[a].shortcut != d[b].shortcut
    } by {
        assert(d[a] == c[src(a)] && d[b] == c[src(b)]);
        assert(src(a) != src(b));
    }
    assert forall|k: int| 0 <= k < t implies !p(#[trigger] d[k]) by {
        assert(d[k] == c[src(k)]);
        assert(src(k) != i);
        assert(c[i].name != c[src(k)].name);
    }
    lemma_first_where_at(d, p, t);
}

/// A replace changes one record and nothing else: the record that the key
/// identifies gets the new name and path, at the place where it stood and with
/// the shortcut it had; every other record stays where and as it was.
pub proof fn lemma_replaced(c: Seq<Record>, key: Record, name: Seq<char>, path: Seq<char>)
    ensures
        replaced(c, key, name, path) is Err <==> position_of(c, key) is None,
        replaced(c, key, name, path) matches Ok(d) ==> {
            let i = position_of(c, key)->0;
            &&& 0 <= i < c.len()
            &&& same_identity(key, c[i])
            &&& d.len() == c.len()
            &&& d[i] == Record { name, path, shortcut: c[i].shortcut }
            &&& forall|j: int| 0 <= j < c.len() && j != i ==> d[j] == c[j]
        },
{
    let p = identified_by(key);
    lemma_first_where(c, p);
    if position_of(c, key) is Some {
        let i = position_of(c, key)->0;
        assert(p(c[i]));
    }
}

/// The invariant of a collection outlasts every change that goes through: adding
/// a well-formed record, deleting a record, and moving one.
pub proof fn lemma_changes_keep_valid(c: Seq<Record>, r: Record, up: bool)
    requires
        valid_collection(c),
    ensures
        well_formed(r) && added(c, r) is Ok ==> valid_collection(added(c, r)->Ok_0),
        deleted(c, r) is Ok ==> valid_collection(deleted(c, r)->Ok_0),
        shifted(c, r, up) is Ok ==> valid_collection(shifted(c, r, up)->Ok_0.0),
{
    if well_formed(r) && added(c, r) is Ok {
        lemma_add_keeps_unique(c, r);
        let d = c.push(r);
        assert forall|i: int| 0 <= i < d.len() implies well_formed(#[trigger] d[i]) by {
            if i < c.len() {
                assert(d[i] == c[i]);
            }
        }
    }
    if deleted(c, r) is Ok {
        lemma_first_where(c, identified_by(r));
        let i = position_of(c, r)->0;
        lemma_delete_keeps_unique(c, i);
        let d = c.remove(i);
        assert forall|k: int| 0 <= k < d.len() implies well_formed(#[trigger] d[k]) by {
            let k0 = if k < i { k } else { k + 1 };
            assert(d[k] == c[k0]);
        }
    }
    if shifted(c, r, up) is Ok {
        lemma_move_keeps_unique(c, r, up);
        lemma_first_where(c, identified_by(r));
        let i = position_of(c, r)->0;
        let t = target_index(i, c.len() as int, up);
        let d = moved(c, i, t);
        lemma_moved(c, i, t);
        assert forall|k: int| 0 <= k < d.len() implies well_formed(#[trigger] d[k]) by {
            let k0 = if k == t {
                i
            } else if k < i && k < t {
                k
            } else if k > i && k > t {
                k
            } else if i <= k < t {
                k + 1
            } else {
                k - 1
            };
            assert(d[k] == c[k0]);
        }
    }
}

} // verus!
