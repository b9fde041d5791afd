use vstd::prelude::*;
use vstd::string::StringExecFns;

verus! {

/// Permission level of a directory entry. A closed set: exactly these
/// three classifications exist.
#[derive(Clone, Copy, Debug, PartialEq, Eq, Structural)]
pub enum UserRole {
    Admin,
    User,
    Moderator,
}

/// One entry of the directory, constructed fully formed. Only the email
/// may later change in place.
#[derive(Debug)]
pub struct User {
    pub id: u32,
    pub name: String,
    pub email: String,
    pub role: UserRole,
}

impl Clone for User {
    fn clone(&self) -> (r: Self)
        ensures
            r == *self,
    {
        User {
            id: self.id,
            name: self.name.clone(),
            email: self.email.clone(),
            role: self.role,
        }
    }
}

/// A human-readable label for a value.
pub trait DisplayName {
    /// The characters the label is promised to consist of.
    spec fn display_name_spec(&self) -> Seq<char>;

    fn get_display_name(&self) -> (r: String)
        ensures
            r@ == self.display_name_spec(),
    ;
}

impl DisplayName for User {
    /// A user's label is `name <email>`.
    open spec fn display_name_spec(&self) -> Seq<char> {
        self.name@ + " <"@ + self.email@ + ">"@
    }

    fn get_display_name(&self) -> (r: String) {
        self.name.clone().concat(" <").concat(self.email.as_str()).concat(">")
    }
}

impl User {
    /// Whether this entry is classified as an administrator.
    pub open spec fn spec_is_admin(&self) -> bool {
        self.role is Admin
    }

    pub fn new(id: u32, name: String, email: String, role: UserRole) -> (r: Self)
        ensures
            r.id == id,
            r.name == name,
            r.email == email,
            r.role == role,
    {
        Self { id, name, email, role }
    }

    /// True exactly when the entry's role is `Admin`.
    pub fn is_admin(&self) -> (r: bool)
        ensures
            r == self.spec_is_admin(),
    {
        self.role == UserRole::Admin
    }

    /// Replaces the email in place; every other field keeps its value.
    pub fn update_email(&mut self, new_email: String)
        ensures
            final(self).email == new_email,
            final(self).id == old(self).id,
            final(self).name == old(self).name,
            final(self).role == old(self).role,
    {
        self.email = new_email;
    }
}

} // verus!
