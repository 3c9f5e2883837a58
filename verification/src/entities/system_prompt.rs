use vstd::prelude::*;

use crate::text::concat_all;

verus! {

/// The instructions every conversation starts from. The wording is this
/// library's own.
pub const SYSTEM_PROMPT: &'static str =
    "You are asq, an assistant that answers questions asked from a terminal. Answer precisely and concisely.\n";

/// The views of a sequence of strings.
pub open spec fn string_views(v: Seq<String>) -> Seq<Seq<char>> {
    v.map_values(|s: String| s@)
}

/// The system prompt: the base instructions followed by the skill text of
/// every tool, in order.
pub fn system_prompt(skills: &[String]) -> (r: String)
    ensures
        r@ == SYSTEM_PROMPT@ + concat_all(string_views(skills@)),
{
    let mut buf = String::from_str(SYSTEM_PROMPT);
    let mut i: usize = 0;
    assert(string_views(skills@).take(0) =~= Seq::<Seq<char>>::empty());
    while i < skills.len()
        invariant
            i <= skills.len(),
            buf@ == SYSTEM_PROMPT@ + concat_all(string_views(skills@).take(i as int)),
        decreases skills.len() - i,
    {
        buf.append(skills[i].as_str());
        assert(string_views(skills@).take(i + 1).drop_last() =~= string_views(skills@).take(
            i as int,
        ));
        assert(buf@ =~= SYSTEM_PROMPT@ + concat_all(string_views(skills@).take(i + 1)));
        i = i + 1;
    }
    assert(string_views(skills@).take(skills.len() as int) =~= string_views(skills@));
    buf
}

} // verus!
