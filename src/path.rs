//! The integrator's termination policy: how a light path traced through the
//! scene ends, given how many bounces it may take and what the scene does
//! with each ray.

use vstd::prelude::*;

verus! {

/// What the scene did with one ray of a path.
#[derive(Clone, Copy, PartialEq, Eq, Structural, Debug)]
pub enum Interaction {
    /// The ray hit nothing and sees the sky.
    Escaped,
    /// The ray hit a surface whose material absorbed it.
    Absorbed,
    /// The ray hit a surface whose material sent out a new ray.
    Scattered,
}

/// How a path ends.
#[derive(Clone, Copy, PartialEq, Eq, Structural, Debug)]
pub enum PathEnd {
    /// Its bounces were spent before it escaped: it carries no light.
    Exhausted,
    /// It reached the sky: it carries the sky's light, attenuated by every
    /// surface it scattered from.
    Escaped,
    /// A surface absorbed it: it carries no light.
    Absorbed,
}

impl PathEnd {
    /// Whether the path carries no light at all.
    pub open spec fn is_black(self) -> bool {
        !(self is Escaped)
    }
}

/// How a path with `depth` bounces left ends when the scene answers its
/// successive rays with `answers`, or `None` while it goes on. The depth is
/// looked at before each query: a path with none left ends at once.
pub open spec fn path_end(depth: nat, answers: Seq<Interaction>) -> Option<PathEnd>
    decreases answers.len(),
{
    if depth == 0 {
        Some(PathEnd::Exhausted)
    } else if answers.len() == 0 {
        None
    } else {
        match answers[0] {
            Interaction::Escaped => Some(PathEnd::Escaped),
            Interaction::Absorbed => Some(PathEnd::Absorbed),
            Interaction::Scattered => path_end((depth - 1) as nat, answers.drop_first()),
        }
    }
}

/// Whether every answer in `answers` is a scatter.
pub open spec fn all_scattered(answers: Seq<Interaction>) -> bool {
    forall|i: int| 0 <= i < answers.len() ==> answers[i] == Interaction::Scattered
}

/// After `k` scatters a path is a path with `k` bounces fewer.
proof fn lemma_path_end_after_scatters(depth: nat, answers: Seq<Interaction>, next: Seq<Interaction>)
    requires
        all_scattered(answers),
        answers.len() < depth,
    ensures
        path_end(depth, answers + next) == path_end((depth - answers.len()) as nat, next),
    decreases answers.len(),
{
    if answers.len() > 0 {
        assert((answers + next).drop_first() =~= answers.drop_first() + next);
        lemma_path_end_after_scatters((depth - 1) as nat, answers.drop_first(), next);
    } else {
        assert(answers + next =~= next);
    }
}

/// One light path being traced: its bounce budget and what the scene has
/// answered so far.
pub struct Path {
    remaining: u32,
    ended: Option<PathEnd>,
    max_depth: Ghost<nat>,
    answers: Ghost<Seq<Interaction>>,
}

impl Path {
    /// The bounces the path was started with.
    pub closed spec fn max_depth(&self) -> nat {
        self.max_depth@
    }

    /// The scene's answers to the path's rays, in order.
    pub closed spec fn answers(&self) -> Seq<Interaction> {
        self.answers@
    }

    /// How the path has ended, or `None` while it goes on.
    pub open spec fn end(&self) -> Option<PathEnd> {
        path_end(self.max_depth(), self.answers())
    }

    pub closed spec fn wf(&self) -> bool {
        &&& self.ended == self.end()
        &&& self.ended is None ==> {
            &&& all_scattered(self.answers@)
            &&& self.remaining + self.answers@.len() == self.max_depth@
            &&& self.remaining > 0
        }
        &&& self.ended is Some ==> self.remaining == 0
    }

    /// A path that may take `max_depth` bounces and has not been traced yet.
    pub fn new(max_depth: u32) -> (p: Path)
        ensures
            p.wf(),
            p.max_depth() == max_depth,
            p.answers() == Seq::<Interaction>::empty(),
    {
        if max_depth == 0 {
            Path { remaining: 0, ended: Some(PathEnd::Exhausted), max_depth: Ghost(0), answers: Ghost(Seq::empty()) }
        } else {
            Path {
                remaining: max_depth,
                ended: None,
                max_depth: Ghost(max_depth as nat),
                answers: Ghost(Seq::empty()),
            }
        }
    }

    /// How the path has ended, or `None` while its next ray is to be traced.
    pub fn outcome(&self) -> (r: Option<PathEnd>)
        requires
            self.wf(),
        ensures
            r == self.end(),
    {
        self.ended
    }

    /// Records what the scene did with the current ray and returns how the
    /// path ends, or `None` where it scattered and may bounce on.
    pub fn record(&mut self, answer: Interaction) -> (r: Option<PathEnd>)
        requires
            old(self).wf(),
            old(self).end() is None,
        ensures
            final(self).wf(),
            final(self).max_depth() == old(self).max_depth(),
            final(self).answers() == old(self).answers().push(answer),
            r == final(self).end(),
            r == (match answer {
                Interaction::Escaped => Some(PathEnd::Escaped),
                Interaction::Absorbed => Some(PathEnd::Absorbed),
                Interaction::Scattered => if old(self).answers().len() + 1 == old(self).max_depth() {
                    Some(PathEnd::Exhausted)
                } else {
                    None::<PathEnd>
                },
            }),
    {
        let ghost before = self.answers@;
        let ghost depth = self.max_depth@;
        proof {
            lemma_path_end_after_scatters(depth, before, seq![answer]);
            assert(before + seq![answer] =~= before.push(answer));
            assert(seq![answer].drop_first() =~= Seq::<Interaction>::empty());
            let left = (depth - before.len()) as nat;
            assert(left == self.remaining);
            assert(path_end((left - 1) as nat, Seq::<Interaction>::empty()) == if left == 1 {
                Some(PathEnd::Exhausted)
            } else {
                None::<PathEnd>
            });
        }
        self.answers = Ghost(before.push(answer));
        let r = match answer {
            Interaction::Escaped => Some(PathEnd::Escaped),
            Interaction::Absorbed => Some(PathEnd::Absorbed),
            Interaction::Scattered => {
                if self.remaining == 1 {
                    Some(PathEnd::Exhausted)
                } else {
                    None
                }
            },
        };
        match r {
            Some(_) => {
                self.remaining = 0;
            },
            None => {
                self.remaining = self.remaining - 1;
            },
        }
        self.ended = r;
        assert(all_scattered(before) && answer == Interaction::Scattered ==> all_scattered(before.push(answer)));
        r
    }
}

/// A path given no bounces ends exhausted, and so black, before the scene is
/// queried, whatever the scene would answer.
pub proof fn lemma_zero_depth_is_black(answers: Seq<Interaction>)
    ensures
        path_end(0, answers) == Some(PathEnd::Exhausted),
        path_end(0, answers).unwrap().is_black(),
{
}

/// A path that goes on after `answers` has been answered fewer times than it
/// had bounces, every time by a scatter: no path queries the scene more
/// often than its depth allows.
pub proof fn lemma_bounces_bounded(depth: nat, answers: Seq<Interaction>)
    requires
        path_end(depth, answers) is None,
    ensures
        answers.len() < depth,
        all_scattered(answers),
    decreases answers.len(),
{
    if answers.len() > 0 {
        lemma_bounces_bounded((depth - 1) as nat, answers.drop_first());
        assert forall|i: int| 0 <= i < answers.len() implies answers[i] == Interaction::Scattered by {
            if i > 0 {
                assert(answers[i] == answers.drop_first()[i - 1]);
            }
        }
    }
}

} // verus!
