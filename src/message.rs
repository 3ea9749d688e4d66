use vstd::prelude::*;

verus! {

/// Who wrote a message.
#[derive(Clone, Copy, Debug, PartialEq, Eq, Structural)]
pub enum Role {
    User,
    Assistant,
    System,
}

/// The name a role is stored and sent under.
pub open spec fn role_name_spec(role: Role) -> Seq<char> {
    match role {
        Role::User => seq!['u', 's', 'e', 'r'],
        Role::Assistant => seq!['a', 's', 's', 'i', 's', 't', 'a', 'n', 't'],
        Role::System => seq!['s', 'y', 's', 't', 'e', 'm'],
    }
}

/// The role whose name is `name`, if any.
pub open spec fn role_from_name_spec(name: Seq<char>) -> Option<Role> {
    if name == role_name_spec(Role::User) {
        Some(Role::User)
    } else if name == role_name_spec(Role::Assistant) {
        Some(Role::Assistant)
    } else if name == role_name_spec(Role::System) {
        Some(Role::System)
    } else {
        None
    }
}

/// Whether two strings hold the same characters.
pub fn same_text(a: &str, b: &str) -> (r: bool)
    ensures
        r == (a@ == b@),
{
    let x: String = a.to_owned();
    let y: String = b.to_owned();
    x == y
}

impl Role {
    /// The name of this role: "user", "assistant" or "system".
    pub fn name(&self) -> (r: &'static str)
        ensures
            r@ == role_name_spec(*self),
    {
        proof {
            reveal_strlit("user");
            reveal_strlit("assistant");
            reveal_strlit("system");
        }
        match self {
            Role::User => "user",
            Role::Assistant => "assistant",
            Role::System => "system",
        }
    }

    /// The role named `name`; `None` when it names none.
    pub fn from_name(name: &str) -> (r: Option<Role>)
        ensures
            r == role_from_name_spec(name@),
    {
        proof {
            reveal_strlit("user");
            reveal_strlit("assistant");
            reveal_strlit("system");
            assert("user"@ =~= role_name_spec(Role::User));
            assert("assistant"@ =~= role_name_spec(Role::Assistant));
            assert("system"@ =~= role_name_spec(Role::System));
        }
        if same_text(name, "user") {
            Some(Role::User)
        } else if same_text(name, "assistant") {
            Some(Role::Assistant)
        } else if same_text(name, "system") {
            Some(Role::System)
        } else {
            None
        }
    }
}

/// One entry of a conversation: who wrote it and what it says.
#[derive(Debug)]
pub struct Message {
    pub role: Role,
    pub content: String,
}

impl Clone for Message {
    fn clone(&self) -> (r: Self)
        ensures
            r == *self,
    {
        Message { role: self.role, content: self.content.clone() }
    }
}

impl Message {
    /// A message of `role` holding the text `content`.
    pub fn new(role: Role, content: &str) -> (r: Message)
        ensures
            r.role == role,
            r.content@ == content@,
    {
        Message { role, content: content.to_owned() }
    }
}

} // verus!
