//! The tokenizer: pulls characters through a lookahead cursor and tries
//! every registered token kind, in registry order, at the current position.
//! The first kind whose claim strategy succeeds wins, so the registry order
//! itself encodes priority.

use vstd::prelude::*;

use crate::cursor::LookaheadCursor;
use crate::token::{LexError, Token};

verus! {

/// A token kind that can try to claim a prefix of the remaining input.
pub trait Tokenizable: Sized + Copy {
    /// What this kind claims at position `pos` of `chars`: the matched text,
    /// or nothing.
    spec fn spec_claim(&self, chars: Seq<char>, pos: int) -> Option<Seq<char>>;

    /// Every successful claim consumes at least one character, stays within
    /// the input, and returns exactly the characters it consumed.
    proof fn claim_properties(&self, chars: Seq<char>, pos: int)
        requires
            0 <= pos <= chars.len(),
        ensures
            self.spec_claim(chars, pos) matches Some(s) ==> 0 < s.len() <= chars.len() - pos && s
                == chars.subrange(pos, pos + s.len() as int),
    ;

    /// Attempts to recognise a prefix of the uncommitted input as this kind,
    /// committing exactly the matched characters on success and nothing on
    /// failure.
    fn claim(&self, buffer: &mut LookaheadCursor) -> (r: Option<String>)
        requires
            old(buffer).wf(),
            old(buffer)@.ahead == old(buffer)@.committed,
        ensures
            final(buffer).wf(),
            final(buffer)@.chars == old(buffer)@.chars,
            match r {
                Some(s) => self.spec_claim(old(buffer)@.chars, old(buffer)@.committed) == Some(s@)
                    && final(buffer)@.committed == old(buffer)@.committed + s@.len(),
                None => self.spec_claim(old(buffer)@.chars, old(buffer)@.committed) is None
                    && final(buffer)@.committed == old(buffer)@.committed,
            },
    ;
}

/// The first-match-wins selection: the claim of the first kind in registry
/// order that succeeds at `pos`, together with that kind.
pub open spec fn first_claim<Kind: Tokenizable>(
    registry: Seq<Kind>,
    chars: Seq<char>,
    pos: int,
) -> Option<(Kind, Seq<char>)>
    decreases registry.len(),
{
    if registry.len() == 0 {
        None
    } else {
        match registry[0].spec_claim(chars, pos) {
            Some(s) => Some((registry[0], s)),
            None => first_claim(registry.drop_first(), chars, pos),
        }
    }
}

/// The tokenizing state machine: scanning until the input ends, or faulted
/// for good once a position no kind claims has been reported.
pub struct Tokenizer<'a, Kind> {
    pub registry: Vec<Kind>,
    pub cursor: LookaheadCursor<'a>,
    pub faulted: bool,
}

impl<'a, Kind: Tokenizable> Tokenizer<'a, Kind> {
    pub open spec fn wf(self) -> bool {
        self.cursor.wf()
    }

    pub fn new(input: &'a str, registry: Vec<Kind>) -> (t: Self)
        ensures
            t.wf(),
            t.cursor@.chars == input@,
            t.cursor@.committed == 0,
            t.registry == registry,
            !t.faulted,
    {
        Tokenizer { registry, cursor: LookaheadCursor::new(input), faulted: false }
    }

    /// One tokenizing step. Yields the token the first claiming kind matched
    /// at the current position, a single terminal error if no kind claims
    /// there, or nothing at the end of the input. A faulted tokenizer yields
    /// nothing, however often it is queried.
    #[verifier::loop_isolation(false)]
    pub fn next(&mut self) -> (r: Option<Result<Token<Kind>, LexError>>)
        requires
            old(self).wf(),
        ensures
            final(self).wf(),
            final(self).registry == old(self).registry,
            final(self).cursor@.chars == old(self).cursor@.chars,
            old(self).faulted ==> r is None && *final(self) == *old(self),
            !old(self).faulted ==> {
                let chars = old(self).cursor@.chars;
                let pos = old(self).cursor@.committed;
                if pos == chars.len() {
                    r is None && !final(self).faulted && final(self).cursor@.committed == pos
                } else {
                    match first_claim(old(self).registry@, chars, pos) {
                        Some((kind, s)) => {
                            &&& r matches Some(Ok(t))
                            &&& t.kind == kind
                            &&& t.value@ == s
                            &&& t.start == pos
                            &&& t.length == s.len()
                            &&& t.line == 0
                            &&& t.column == 0
                            &&& !final(self).faulted
                            &&& final(self).cursor@.committed == pos + s.len()
                        },
                        None => {
                            &&& r matches Some(Err(e))
                            &&& e.offset == pos
                            &&& final(self).faulted
                            &&& final(self).cursor@.committed == pos
                        },
                    }
                }
            },
    {
        if self.faulted {
            return None;
        }
        if self.cursor.at_end() {
            return None;
        }
        let ghost chars = self.cursor@.chars;
        let pos = self.cursor.position();
        let n = self.registry.len();
        let mut i: usize = 0;
        proof {
            assert(self.registry@.skip(0) =~= self.registry@);
        }
        while i < n
            invariant
                self.wf(),
                self.cursor@.chars == chars,
                self.cursor@.committed == pos as int,
                self.registry == old(self).registry,
                self.faulted == old(self).faulted,
                i <= n,
                n == self.registry@.len(),
                first_claim(self.registry@, chars, pos as int) == first_claim(
                    self.registry@.skip(i as int),
                    chars,
                    pos as int,
                ),
            decreases n - i,
        {
            self.cursor.reset_peek();
            let kind = self.registry[i];
            let claimed = kind.claim(&mut self.cursor);
            proof {
                assert(self.registry@.skip(i as int)[0] == self.registry@[i as int]);
                assert(self.registry@.skip(i as int).drop_first() =~= self.registry@.skip(
                    i as int + 1,
                ));
            }
            match claimed {
                Some(s) => {
                    let newpos = self.cursor.position();
                    let length = newpos - pos;
                    return Some(
                        Ok(Token { kind, start: pos, length, line: 0, column: 0, value: s }),
                    );
                },
                None => {
                    i = i + 1;
                },
            }
        }
        proof {
            assert(self.registry@.skip(n as int) =~= Seq::<Kind>::empty());
        }
        self.faulted = true;
        Some(Err(LexError { offset: pos }))
    }
}

/// The tokenizing entry point: a tokenizer over `input` with the given
/// ordered token kind registry.
pub fn tokenize<'a, Kind: Tokenizable>(input: &'a str, registry: Vec<Kind>) -> (t: Tokenizer<
    'a,
    Kind,
>)
    ensures
        t.wf(),
        t.cursor@.chars == input@,
        t.cursor@.committed == 0,
        t.registry == registry,
        !t.faulted,
{
    Tokenizer::new(input, registry)
}

} // verus!
