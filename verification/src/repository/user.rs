//! The user repository: reading stored users and registering new ones.
use crate::error::{AppError, AppResult};
use crate::id::{is_random_uuid_value, uuid_from_u128, UserId};
use crate::model::role::Role;
use crate::model::user::{row_is_user, unknown_role_message, user_of_row, CreateUser, User, UserRow};
use vstd::prelude::*;

verus! {

/// The message of the error that a registration which stored nothing gives.
pub open spec fn no_user_created_message() -> Seq<char> {
    "No user has been created"@
}

/// The users that stored rows read as, in row order; rows whose role name names
/// no role are left out.
pub open spec fn users_of_rows(rows: Seq<UserRow>) -> Seq<User> {
    rows.filter(|r: UserRow| row_is_user(r)).map_values(|r: UserRow| user_of_row(r))
}

/// The current user as looked up by identifier: none when no row was found, and
/// an error when the row found does not read as a user.
pub fn current_user_from_row(row: Option<UserRow>) -> (r: AppResult<Option<User>>)
    ensures
        row is None ==> r == Ok::<Option<User>, AppError>(None),
        row matches Some(x) ==> (row_is_user(x) ==> r == Ok::<Option<User>, AppError>(Some(user_of_row(x)))),
        row matches Some(x) ==> (!row_is_user(x) ==> (r matches Err(AppError::ConversionEntityError(m))
            && m@ == unknown_role_message())),
{
    match row {
        Some(x) => {
            let user = User::try_from_row(x)?;
            Ok(Some(user))
        },
        None => Ok(None),
    }
}

/// All users that the stored rows read as, in row order.
pub fn users_from_rows(rows: Vec<UserRow>) -> (users: Vec<User>)
    ensures
        users@ == users_of_rows(rows@),
{
    let ghost all = rows@;
    let mut users: Vec<User> = Vec::new();
    for row in it: rows
        invariant
            it.seq() == all,
            users@ == users_of_rows(all.take(it.index() as int)),
    {
        let ghost i = it.index();
        let ghost r = row;
        assert(all.take(i + 1).drop_last() =~= all.take(i as int));
        assert(all.take(i + 1).last() == r);
        reveal_with_fuel(Seq::filter, 1);
        if let Ok(user) = User::try_from_row(row) {
            users.push(user);
        }
        assert(users@ =~= users_of_rows(all.take(i + 1)));
    }
    assert(all.take(all.len() as int) =~= all);
    users
}

/// The user that a registration stored, once the insert has run: its name and
/// e-mail address as given, the ordinary-user role and a freshly drawn random
/// (version 4) identifier; a registration that stored no row fails with
/// `NoRowsAffectedError`.
pub fn created_user(event: CreateUser, rows_affected: u64) -> (r: AppResult<User>)
    ensures
        rows_affected >= 1 ==> (r matches Ok(u) && u.name == event.name && u.email == event.email
            && u.role == Role::USER
            && exists|v: u128| is_random_uuid_value(v) && u.id.0 == #[trigger] uuid_from_u128(v)),
        rows_affected < 1 ==> (r matches Err(AppError::NoRowsAffectedError(m))
            && m@ == no_user_created_message()),
{
    let user_id = UserId::new();
    let role = Role::default();
    if rows_affected < 1 {
        return Err(AppError::NoRowsAffectedError(String::from_str("No user has been created")));
    }
    let CreateUser { name, email, password: _ } = event;
    Ok(User { id: user_id, name, email, role })
}

/// No rows list no users.
pub proof fn lemma_users_of_no_rows()
    ensures
        users_of_rows(Seq::<UserRow>::empty()) == Seq::<User>::empty(),
{
    assert(users_of_rows(Seq::<UserRow>::empty()) =~= Seq::<User>::empty());
}

/// One more row, wherever the list ends, adds the user it reads as at the end
/// of the listing when its role name names a role, and nothing otherwise.
pub proof fn lemma_users_of_rows_push(rows: Seq<UserRow>, row: UserRow)
    ensures
        row_is_user(row) ==> users_of_rows(rows.push(row)) == users_of_rows(rows).push(user_of_row(row)),
        !row_is_user(row) ==> users_of_rows(rows.push(row)) == users_of_rows(rows),
{
    reveal_with_fuel(Seq::filter, 1);
    let pred = |r: UserRow| row_is_user(r);
    assert(rows.push(row).drop_last() =~= rows);
    assert(rows.push(row).last() == row);
    let f = rows.push(row).filter(pred);
    if row_is_user(row) {
        assert(f == rows.filter(pred).push(row));
        assert(users_of_rows(rows.push(row)) =~= users_of_rows(rows).push(user_of_row(row)));
    } else {
        assert(f == rows.filter(pred));
    }
}

/// Every row whose role name names a role, at any position, has its user in
/// the listing, and every listed user is read from such a row.
pub proof fn lemma_users_of_rows_members(rows: Seq<UserRow>)
    ensures
        forall|i: int| 0 <= i < rows.len() && row_is_user(rows[i])
            ==> #[trigger] users_of_rows(rows).contains(user_of_row(rows[i])),
        forall|j: int| 0 <= j < users_of_rows(rows).len()
            ==> exists|i: int| 0 <= i < rows.len() && row_is_user(rows[i])
                && #[trigger] users_of_rows(rows)[j] == user_of_row(rows[i]),
        users_of_rows(rows).len() <= rows.len(),
{
    let pred = |r: UserRow| row_is_user(r);
    let f = rows.filter(pred);
    rows.lemma_filter_len(pred);
    assert forall|i: int| 0 <= i < rows.len() && row_is_user(rows[i])
        implies #[trigger] users_of_rows(rows).contains(user_of_row(rows[i])) by {
        rows.lemma_filter_contains(pred, i);
        let k = choose|k: int| 0 <= k < f.len() && f[k] == rows[i];
        assert(users_of_rows(rows)[k] == user_of_row(rows[i]));
    }
    assert forall|j: int| 0 <= j < users_of_rows(rows).len()
        implies exists|i: int| 0 <= i < rows.len() && row_is_user(rows[i])
            && #[trigger] users_of_rows(rows)[j] == user_of_row(rows[i]) by {
        assert(f.contains(f[j]));
        rows.lemma_filter_contains_rev(pred, f[j]);
        rows.lemma_filter_pred(pred, j);
        let i = choose|i: int| 0 <= i < rows.len() && rows[i] == f[j];
        assert(users_of_rows(rows)[j] == user_of_row(rows[i]));
    }
}

} // verus!
