use vstd::prelude::*;

verus! {

/// Who wrote a message of a conversation.
#[derive(Clone, Copy, Debug, PartialEq, Eq, Structural)]
pub enum Role {
    User,
    Assistant,
    System,
    Tools,
}

/// The name under which a role is shown and sent.
pub open spec fn role_name(role: Role) -> Seq<char> {
    match role {
        Role::User => "user"@,
        Role::Assistant => "assistant"@,
        Role::System => "system"@,
        Role::Tools => "tools"@,
    }
}

/// Each role is shown and sent under a name of its own.
pub proof fn lemma_role_names_distinct()
    ensures
        forall|a: Role, b: Role| #[trigger] role_name(a) == #[trigger] role_name(b) ==> a == b,
{
    reveal_strlit("user");
    reveal_strlit("assistant");
    reveal_strlit("system");
    reveal_strlit("tools");
    assert("user"@.len() == 4);
    assert("assistant"@.len() == 9);
    assert("system"@.len() == 6);
    assert("tools"@.len() == 5);
    assert forall|a: Role, b: Role| #[trigger] role_name(a) == #[trigger] role_name(b) implies a
        == b by {
        if a != b {
            assert(role_name(a).len() != role_name(b).len());
        }
    }
}

impl Role {
    /// The role's name, as it is displayed.
    pub fn to_string(&self) -> (r: String)
        ensures
            r@ == role_name(*self),
    {
        match self {
            Role::User => String::from_str("user"),
            Role::Assistant => String::from_str("assistant"),
            Role::System => String::from_str("system"),
            Role::Tools => String::from_str("tools"),
        }
    }
}

} // verus!
