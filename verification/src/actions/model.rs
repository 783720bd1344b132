//! What a user can want an assistant to do.

use vstd::prelude::*;

verus! {

#[derive(Clone, Copy, Debug, PartialEq, Eq, Structural)]
pub enum Intent {
    Nothing,
    Unclear,
    Ask,
    Brainstorm,
    Change,
}

impl Intent {
    /// Every intent, in declaration order.
    pub open spec fn all() -> Seq<Intent> {
        seq![Intent::Nothing, Intent::Unclear, Intent::Ask, Intent::Brainstorm, Intent::Change]
    }

    /// The position of the intent in declaration order.
    pub open spec fn position(&self) -> int {
        match self {
            Intent::Nothing => 0,
            Intent::Unclear => 1,
            Intent::Ask => 2,
            Intent::Brainstorm => 3,
            Intent::Change => 4,
        }
    }

    /// The intent that is declared after this one, if there is one.
    fn successor(&self) -> (res: Option<Intent>)
        ensures
            match res {
                Some(next) => next.position() == self.position() + 1,
                None => self.position() == 4,
            },
    {
        match self {
            Self::Nothing => Some(Self::Unclear),
            Self::Unclear => Some(Self::Ask),
            Self::Ask => Some(Self::Brainstorm),
            Self::Brainstorm => Some(Self::Change),
            // last is None
            Self::Change => None,
        }
    }

    /// Return all the variants of this Enum.
    pub fn variants() -> (vs: Vec<Self>)
        ensures
            vs@ == Self::all(),
    {
        // Walking the successors makes sure that a new variant cannot be
        // forgotten here: the match in `successor` would not compile.
        let mut vs = Vec::new();
        vs.push(Self::Nothing);
        let mut nxt = Some(Self::Unclear);
        while nxt.is_some()
            invariant
                1 <= vs@.len() <= 5,
                vs@ =~= Self::all().take(vs@.len() as int),
                match nxt {
                    Some(intent) => intent.position() == vs@.len(),
                    None => vs@.len() == 5,
                },
            decreases 5 - vs@.len(),
        {
            if let Some(intent) = nxt {
                assert(Self::all()[intent.position()] == intent);
                vs.push(intent);
                nxt = intent.successor();
            }
        }
        assert(Self::all().take(5) =~= Self::all());
        vs
    }
}

} // verus!
