//! The user entity, read back verbatim from the `user` table.

use vstd::prelude::*;

verus! {

/// One row of the `user` table.  Every field is optional; rows are created
/// and updated outside this service, which only reads them.
#[derive(Clone, Debug, PartialEq)]
pub struct User {
    pub id: Option<String>,
    pub name: Option<String>,
    pub login_name: Option<String>,
    pub pwd: Option<String>,
    pub app_key: Option<String>,
    pub update_time: Option<i64>,
    pub create_time: Option<i64>,
}

/// Whether the row's primary key equals `id`.
pub open spec fn spec_user_has_id(u: User, id: Seq<char>) -> bool {
    u.id matches Some(s) && s@ == id
}

/// The point lookup by primary key: the index of the first row whose `id`
/// equals the key.  No row matching is an absent result, not an error.
pub fn find_user_by_id(rows: &Vec<User>, id: &String) -> (r: Option<usize>)
    ensures
        r matches Some(i) ==> i < rows@.len() && spec_user_has_id(rows@[i as int], id@) && (forall|
            j: int,
        | 0 <= j < i ==> !spec_user_has_id(rows@[j], id@)),
        r is None ==> forall|j: int| 0 <= j < rows@.len() ==> !spec_user_has_id(rows@[j], id@),
{
    let mut k: usize = 0;
    while k < rows.len()
        invariant
            k <= rows@.len(),
            forall|j: int| 0 <= j < k ==> !spec_user_has_id(rows@[j], id@),
        decreases rows@.len() - k,
    {
        let hit: bool = match &rows[k].id {
            Some(s) => *s == *id,
            None => false,
        };
        if hit {
            return Some(k);
        }
        k = k + 1;
    }
    None
}

} // verus!
