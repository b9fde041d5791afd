use crate::error::ApiError;
use crate::user::{DisplayName, User, UserRole};
use vstd::prelude::*;
use vstd::std_specs::cmp::PartialEqSpec;
use vstd::string::StringExecFns;
use vstd::string::StringSliceAdditionalSpecFns;

verus! {

/// Returns the greeting `Hello, {name}!`.
pub fn greet_user(name: &str) -> (r: String)
    ensures
        r@ == "Hello, "@ + name@ + "!"@,
{
    String::from_str("Hello, ").concat(name).concat("!")
}

/// A deterministic stand-in for a data fetch: it performs no I/O. Identifier
/// zero is rejected with `NotFound`; any other identifier yields a synthetic
/// record with that identifier and fixed placeholder fields.
pub fn fetch_user_data(user_id: u32) -> (r: Result<User, ApiError>)
    ensures
        user_id == 0 ==> (r matches Err(e) && e is NotFound),
        user_id != 0 ==> (r matches Ok(u) && u.id == user_id && u.name@ == "Alice"@ && u.email@
            == "alice@example.com"@ && u.role is Admin),
{
    if user_id == 0 {
        return Err(ApiError::NotFound);
    }
    Ok(
        User {
            id: user_id,
            name: String::from_str("Alice"),
            email: String::from_str("alice@example.com"),
            role: UserRole::Admin,
        },
    )
}

/// Returns the first user in the sequence whose identifier matches, under
/// the sequence's order; returns nothing when no identifier matches.
pub fn find_user_by_id<'a>(users: &'a [User], id: u32) -> (r: Option<&'a User>)
    ensures
        match r {
            Some(u) => exists|i: int|
                0 <= i < users@.len() && users@[i].id == id && *u == users@[i] && (forall|j: int|
                    0 <= j < i ==> users@[j].id != id),
            None => forall|i: int| 0 <= i < users@.len() ==> users@[i].id != id,
        },
{
    let mut i: usize = 0;
    while i < users.len()
        invariant
            i <= users@.len(),
            forall|j: int| 0 <= j < i ==> users@[j].id != id,
        decreases users@.len() - i,
    {
        if users[i].id == id {
            return Some(&users[i]);
        }
        i += 1;
    }
    None
}

/// Returns the display string of each user, in input order.
pub fn process_users(users: &[User]) -> (r: Vec<String>)
    ensures
        r@.len() == users@.len(),
        forall|i: int| 0 <= i < users@.len() ==> r@[i]@ == users@[i].display_name_spec(),
{
    let mut out: Vec<String> = Vec::new();
    let mut i: usize = 0;
    while i < users.len()
        invariant
            i <= users@.len(),
            out@.len() == i,
            forall|j: int| 0 <= j < i ==> out@[j]@ == users@[j].display_name_spec(),
        decreases users@.len() - i,
    {
        out.push(users[i].get_display_name());
        i += 1;
    }
    out
}

/// The characters that describe each role. The mapping is exhaustive over
/// the closed set of roles.
pub open spec fn role_description_spec(role: UserRole) -> Seq<char> {
    match role {
        UserRole::Admin => "Administrator with full access"@,
        UserRole::User => "Regular user"@,
        UserRole::Moderator => "User with moderation privileges"@,
    }
}

/// Returns the description of the given role.
pub fn get_role_description(role: &UserRole) -> (r: &str)
    ensures
        r@ == role_description_spec(*role),
{
    match role {
        UserRole::Admin => "Administrator with full access",
        UserRole::User => "Regular user",
        UserRole::Moderator => "User with moderation privileges",
    }
}

/// Every role's description is non-empty, and the descriptions of the three
/// roles are pairwise distinct.
pub proof fn lemma_role_descriptions_distinct()
    ensures
        forall|role: UserRole| #[trigger] role_description_spec(role).len() > 0,
        role_description_spec(UserRole::Admin) != role_description_spec(UserRole::User),
        role_description_spec(UserRole::Admin) != role_description_spec(UserRole::Moderator),
        role_description_spec(UserRole::User) != role_description_spec(UserRole::Moderator),
{
    reveal_strlit("Administrator with full access");
    reveal_strlit("Regular user");
    reveal_strlit("User with moderation privileges");
    assert(role_description_spec(UserRole::Admin).len() == 30);
    assert(role_description_spec(UserRole::User).len() == 12);
    assert(role_description_spec(UserRole::Moderator).len() == 31);
}

/// Returns the position of the first element equal to `value`, or nothing
/// when no element is. The promise holds for types whose equality obeys
/// its specification.
pub fn find<T: PartialEq>(slice: &[T], value: &T) -> (r: Option<usize>)
    ensures
        T::obeys_eq_spec() ==> match r {
            Some(i) => 0 <= i < slice@.len() && slice@[i as int].eq_spec(value) && (forall|j: int|
                0 <= j < i ==> !slice@[j].eq_spec(value)),
            None => forall|j: int| 0 <= j < slice@.len() ==> !slice@[j].eq_spec(value),
        },
{
    let mut i: usize = 0;
    while i < slice.len()
        invariant
            i <= slice@.len(),
            T::obeys_eq_spec() ==> forall|j: int| 0 <= j < i ==> !slice@[j].eq_spec(value),
        decreases slice@.len() - i,
    {
        if slice[i] == *value {
            return Some(i);
        }
        i += 1;
    }
    None
}

/// The subsequence of administrators, in input order.
pub open spec fn admins_of(users: Seq<User>) -> Seq<User> {
    users.filter(|u: User| u.spec_is_admin())
}

/// The names of the administrators, in input order.
pub open spec fn admin_names_of(users: Seq<User>) -> Seq<Seq<char>> {
    admins_of(users).map_values(|u: User| u.name@)
}

proof fn lemma_admins_of_take_step(users: Seq<User>, i: int)
    requires
        0 <= i < users.len(),
    ensures
        admins_of(users.take(i + 1)) == (if users[i].spec_is_admin() {
            admins_of(users.take(i)).push(users[i])
        } else {
            admins_of(users.take(i))
        }),
{
    reveal(Seq::filter);
    assert(users.take(i + 1).drop_last() =~= users.take(i));
    assert(users.take(i + 1).last() == users[i]);
}

/// Returns exactly the users whose role is `Admin`, keeping their
/// relative order. An input without administrators, the empty input
/// among them, yields an empty result.
pub fn filter_admin_users(users: Vec<User>) -> (r: Vec<User>)
    ensures
        r@ == admins_of(users@),
{
    let mut out: Vec<User> = Vec::new();
    let mut i: usize = 0;
    proof {
        reveal(Seq::filter);
        assert(admins_of(users@.take(0)) =~= Seq::<User>::empty());
    }
    while i < users.len()
        invariant
            i <= users@.len(),
            out@ == admins_of(users@.take(i as int)),
        decreases users@.len() - i,
    {
        proof {
            lemma_admins_of_take_step(users@, i as int);
        }
        let u = users[i].clone();
        if u.is_admin() {
            out.push(u);
        }
        i += 1;
    }
    proof {
        assert(users@.take(users@.len() as int) =~= users@);
    }
    out
}

/// Returns the names (not the full display strings) of the administrators,
/// in input order.
pub fn process_user_names(users: &[User]) -> (r: Vec<String>)
    ensures
        r.deep_view() == admin_names_of(users@),
{
    let mut out: Vec<String> = Vec::new();
    let mut i: usize = 0;
    proof {
        reveal(Seq::filter);
        assert(admins_of(users@.take(0)) =~= Seq::<User>::empty());
        assert(out.deep_view() =~= admin_names_of(users@.take(0)));
    }
    while i < users.len()
        invariant
            i <= users@.len(),
            out.deep_view() == admin_names_of(users@.take(i as int)),
        decreases users@.len() - i,
    {
        proof {
            lemma_admins_of_take_step(users@, i as int);
        }
        let ghost prev = out.deep_view();
        if users[i].is_admin() {
            out.push(users[i].name.clone());
            proof {
                assert(out.deep_view() =~= prev.push(users@[i as int].name@));
                assert(admin_names_of(users@.take(i + 1)) =~= admin_names_of(
                    users@.take(i as int),
                ).push(users@[i as int].name@));
            }
        } else {
            proof {
                assert(admin_names_of(users@.take(i + 1)) =~= admin_names_of(
                    users@.take(i as int),
                ));
            }
        }
        i += 1;
    }
    proof {
        assert(users@.take(users@.len() as int) =~= users@);
    }
    out
}

/// Returns whichever input has the greater byte length; when the lengths
/// are equal the second input wins.
pub fn longest<'a>(x: &'a str, y: &'a str) -> (r: &'a str)
    ensures
        x.spec_bytes().len() > y.spec_bytes().len() ==> r@ == x@,
        x.spec_bytes().len() <= y.spec_bytes().len() ==> r@ == y@,
{
    let x_len = x.as_bytes().len();
    let y_len = y.as_bytes().len();
    if x_len > y_len {
        x
    } else {
        y
    }
}

} // verus!
