//! What the files held before they were edited.
use vstd::prelude::*;

use crate::lines::texts;
use crate::text::same_text;

verus! {

/// For each file what it held before each of its edits, the latest last. A file is known by its path.
#[derive(Debug)]
pub struct UndoStacks {
    stacks: Vec<(String, Vec<String>)>,
}

/// What the file at `path` held before each of its edits.
spec fn stack_of(stacks: Seq<(String, Vec<String>)>, path: Seq<char>) -> Seq<Seq<char>>
    decreases stacks.len(),
{
    if stacks.len() == 0 {
        Seq::empty()
    } else if stacks.last().0@ == path {
        texts(stacks.last().1@)
    } else {
        stack_of(stacks.drop_last(), path)
    }
}

/// No path occurs twice.
spec fn distinct_paths(stacks: Seq<(String, Vec<String>)>) -> bool {
    forall|i: int, j: int| 0 <= i < j < stacks.len() ==> stacks[i].0@ != stacks[j].0@
}

/// The stack of a path is the one that stands with it.
proof fn lemma_stack_at(stacks: Seq<(String, Vec<String>)>, at: int)
    requires
        distinct_paths(stacks),
        0 <= at < stacks.len(),
    ensures
        stack_of(stacks, stacks[at].0@) == texts(stacks[at].1@),
    decreases stacks.len(),
{
    if at < stacks.len() - 1 {
        lemma_stack_at(stacks.drop_last(), at);
    }
}

/// A path that does not occur has the empty stack.
proof fn lemma_no_stack(stacks: Seq<(String, Vec<String>)>, path: Seq<char>)
    requires
        forall|i: int| 0 <= i < stacks.len() ==> stacks[i].0@ != path,
    ensures
        stack_of(stacks, path) == Seq::<Seq<char>>::empty(),
    decreases stacks.len(),
{
    if stacks.len() > 0 {
        lemma_no_stack(stacks.drop_last(), path);
    }
}

/// Changing the stack of one path leaves the others as they are.
proof fn lemma_other_stack(
    stacks: Seq<(String, Vec<String>)>,
    changed: Seq<(String, Vec<String>)>,
    at: int,
    path: Seq<char>,
)
    requires
        0 <= at < stacks.len() == changed.len(),
        forall|i: int| 0 <= i < stacks.len() && i != at ==> stacks[i] == changed[i],
        stacks[at].0 == changed[at].0,
        stacks[at].0@ != path,
    ensures
        stack_of(stacks, path) == stack_of(changed, path),
    decreases stacks.len(),
{
    if at < stacks.len() - 1 {
        lemma_other_stack(stacks.drop_last(), changed.drop_last(), at, path);
    } else {
        assert(stacks.drop_last() =~= changed.drop_last());
    }
}

impl UndoStacks {
    /// What each file held before each of its edits. A file that was not edited has an empty history.
    pub closed spec fn view(&self) -> Map<Seq<char>, Seq<Seq<char>>> {
        Map::new(|path: Seq<char>| true, |path: Seq<char>| stack_of(self.stacks@, path))
    }

    /// No path occurs twice.
    pub closed spec fn well_formed(&self) -> bool {
        distinct_paths(self.stacks@)
    }

    /// Every path has a history, be it an empty one.
    pub proof fn lemma_every_path_has_a_history(&self, path: Seq<char>)
        ensures
            self@.contains_key(path),
    {
    }

    /// No file has been edited.
    pub fn new() -> (undo: UndoStacks)
        ensures
            undo.well_formed(),
            forall|path: Seq<char>| #[trigger] undo@[path] == Seq::<Seq<char>>::empty(),
    {
        UndoStacks { stacks: Vec::new() }
    }

    /// Where the stack of `path` stands.
    fn position(&self, path: &str) -> (found: Option<usize>)
        ensures
            found matches Some(at) ==> at < self.stacks@.len() && self.stacks@[at as int].0@
                == path@,
            found is None ==> forall|i: int|
                0 <= i < self.stacks@.len() ==> self.stacks@[i].0@ != path@,
    {
        let mut i: usize = 0;
        while i < self.stacks.len()
            invariant
                i <= self.stacks@.len(),
                forall|j: int| 0 <= j < i ==> self.stacks@[j].0@ != path@,
            decreases self.stacks@.len() - i,
        {
            if same_text(self.stacks[i].0.as_str(), path) {
                return Some(i);
            }
            i += 1;
        }
        None
    }

    /// Notes what the file at `path` holds before an edit.
    pub fn save_undo(&mut self, path: &str, content: String)
        requires
            old(self).well_formed(),
        ensures
            final(self).well_formed(),
            final(self)@ == old(self)@.insert(path@, old(self)@[path@].push(content@)),
    {
        let ghost before = self.stacks@;
        match self.position(path) {
            Some(at) => {
                let ghost history = before[at as int].1@;
                self.stacks[at].1.push(content);
                proof {
                    assert(self.stacks@[at as int].1@ == history.push(content));
                    assert(texts(history.push(content)) =~= texts(history).push(content@));
                    lemma_stack_at(before, at as int);
                    lemma_stack_at(self.stacks@, at as int);
                    assert forall|other: Seq<char>| other != path@ implies stack_of(
                        self.stacks@,
                        other,
                    ) == stack_of(before, other) by {
                        lemma_other_stack(before, self.stacks@, at as int, other);
                    }
                }
            },
            None => {
                let mut history: Vec<String> = Vec::new();
                history.push(content);
                proof {
                    lemma_no_stack(before, path@);
                    assert(texts(history@) =~= Seq::<Seq<char>>::empty().push(content@));
                }
                self.stacks.push((path.to_owned(), history));
                assert(self.stacks@.drop_last() =~= before);
            },
        }
        assert(self@ =~= old(self)@.insert(path@, old(self)@[path@].push(content@)));
    }

    /// Takes back what the file at `path` held before its latest edit.
    pub fn pop_undo(&mut self, path: &str) -> (content: Option<String>)
        requires
            old(self).well_formed(),
        ensures
            final(self).well_formed(),
            content is Some <==> old(self)@[path@].len() > 0,
            content matches Some(content) ==> {
                &&& content@ == old(self)@[path@].last()
                &&& final(self)@ == old(self)@.insert(path@, old(self)@[path@].drop_last())
            },
            content is None ==> final(self)@ == old(self)@,
    {
        let ghost before = self.stacks@;
        match self.position(path) {
            Some(at) => {
                let ghost history = before[at as int].1@;
                let content = self.stacks[at].1.pop();
                proof {
                    lemma_stack_at(before, at as int);
                    lemma_stack_at(self.stacks@, at as int);
                    if history.len() > 0 {
                        assert(texts(history.drop_last()) =~= texts(history).drop_last());
                    }
                    assert forall|other: Seq<char>| other != path@ implies stack_of(
                        self.stacks@,
                        other,
                    ) == stack_of(before, other) by {
                        lemma_other_stack(before, self.stacks@, at as int, other);
                    }
                    if history.len() > 0 {
                        assert(self@ =~= old(self)@.insert(
                            path@,
                            old(self)@[path@].drop_last(),
                        ));
                    } else {
                        assert(self@ =~= old(self)@);
                    }
                }
                content
            },
            None => {
                proof {
                    lemma_no_stack(before, path@);
                }
                None
            },
        }
    }
}

} // verus!
