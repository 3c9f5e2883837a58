//! Removing saved memories.
use vstd::prelude::*;

use std::collections::HashSet;

use crate::entities::system_prompt::string_views;

verus! {

/// The command that removes saved memories.
#[derive(Clone, Copy, Debug)]
pub struct MemoriesDeleteController;

/// The memories whose index is not in `removed`, in order.
pub open spec fn kept_memories(memories: Seq<Seq<char>>, removed: Set<usize>) -> Seq<Seq<char>>
    decreases memories.len(),
{
    if memories.len() == 0 {
        seq![]
    } else {
        let rest = kept_memories(memories.drop_last(), removed);
        if removed.contains((memories.len() - 1) as usize) {
            rest
        } else {
            rest.push(memories.last())
        }
    }
}

/// Selecting no index keeps every memory.
pub proof fn lemma_remove_none(memories: Seq<Seq<char>>)
    ensures
        kept_memories(memories, Set::empty()) == memories,
    decreases memories.len(),
{
    if memories.len() > 0 {
        lemma_remove_none(memories.drop_last());
        assert(memories.drop_last().push(memories.last()) =~= memories);
    }
}

/// Selecting every index keeps no memory.
pub proof fn lemma_remove_all(memories: Seq<Seq<char>>, removed: Set<usize>)
    requires
        forall|i: usize| (i as int) < memories.len() ==> #[trigger] removed.contains(i),
    ensures
        kept_memories(memories, removed).len() == 0,
    decreases memories.len(),
{
    if memories.len() > 0 {
        assert(removed.contains((memories.len() - 1) as usize));
        lemma_remove_all(memories.drop_last(), removed);
    }
}

impl MemoriesDeleteController {
    /// The memories left after removing those at the selected indexes.
    pub fn remaining_memories(memories: &[String], indexes_to_remove: &HashSet<usize>) -> (r: Vec<
        String,
    >)
        ensures
            string_views(r@) == kept_memories(string_views(memories@), indexes_to_remove@),
    {
        broadcast use vstd::std_specs::hash::group_hash_axioms;

        let mut kept: Vec<String> = Vec::new();
        let mut i: usize = 0;
        let ghost ms = string_views(memories@);
        while i < memories.len()
            invariant
                i <= memories.len(),
                ms == string_views(memories@),
                string_views(kept@) == kept_memories(ms.take(i as int), indexes_to_remove@),
            decreases memories.len() - i,
        {
            assert(ms.take(i + 1).drop_last() =~= ms.take(i as int));
            assert(ms.take(i + 1).last() == memories@[i as int]@);
            if !indexes_to_remove.contains(&i) {
                let ghost old = kept@;
                kept.push(memories[i].clone());
                assert(string_views(kept@) =~= string_views(old).push(memories@[i as int]@));
            }
            i = i + 1;
        }
        assert(ms.take(memories.len() as int) =~= ms);
        kept
    }
}

} // verus!
