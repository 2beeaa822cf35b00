use vstd::prelude::*;
use vstd::string::*;
use crate::text::same_text;

verus! {

/// The closed set of roles an identity can carry.
#[derive(Clone, Copy, Debug, PartialEq, Eq, Structural)]
pub enum Role {
    Admin,
    Uploader,
    Regular,
}

/// The tag under which `Admin` is stored.
pub open spec fn admin_tag() -> Seq<char> {
    seq!['A', 'd', 'm', 'i', 'n']
}

/// The tag under which `Uploader` is stored.
pub open spec fn uploader_tag() -> Seq<char> {
    seq!['U', 'p', 'l', 'o', 'a', 'd', 'e', 'r']
}

/// The tag under which `Regular` is stored.
pub open spec fn regular_tag() -> Seq<char> {
    seq!['R', 'e', 'g', 'u', 'l', 'a', 'r']
}

impl Role {
    /// The canonical string tag of a role.
    pub open spec fn tag(self) -> Seq<char> {
        match self {
            Role::Admin => admin_tag(),
            Role::Uploader => uploader_tag(),
            Role::Regular => regular_tag(),
        }
    }

    /// The role that a tag names, if it is canonical. The comparison is
    /// case-sensitive.
    pub open spec fn of_tag(tag: Seq<char>) -> Option<Role> {
        if tag == admin_tag() {
            Some(Role::Admin)
        } else if tag == uploader_tag() {
            Some(Role::Uploader)
        } else if tag == regular_tag() {
            Some(Role::Regular)
        } else {
            None
        }
    }

    /// Renders the role as its canonical tag.
    pub fn to_string(&self) -> (out: String)
        ensures
            out@ == self.tag(),
    {
        proof {
            reveal_strlit("Admin");
            reveal_strlit("Uploader");
            reveal_strlit("Regular");
        }
        let out = match self {
            Role::Admin => String::from_str("Admin"),
            Role::Uploader => String::from_str("Uploader"),
            Role::Regular => String::from_str("Regular"),
        };
        assert(out@ =~= self.tag());
        out
    }

    /// Reads a role back from its tag; any other text names no role.
    pub fn from_tag(tag: &str) -> (out: Option<Role>)
        ensures
            out == Role::of_tag(tag@),
    {
        if same_text(tag, Role::Admin.to_string().as_str()) {
            Some(Role::Admin)
        } else if same_text(tag, Role::Uploader.to_string().as_str()) {
            Some(Role::Uploader)
        } else if same_text(tag, Role::Regular.to_string().as_str()) {
            Some(Role::Regular)
        } else {
            None
        }
    }
}

/// The three tags are pairwise different, so a tag names at most one role and
/// every role is read back from its own tag.
pub proof fn lemma_tag_names_its_role(role: Role)
    ensures
        Role::of_tag(role.tag()) == Some(role),
{
    assert(admin_tag().len() == 5);
    assert(uploader_tag().len() == 8);
    assert(regular_tag().len() == 7);
}

} // verus!
