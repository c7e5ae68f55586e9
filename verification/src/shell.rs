//! Command parsing for the interactive shell.
//!
//! A command line is a byte string; its arguments are the space-separated
//! words, stated exactly by [`spec_tokens`]. Parsing fills a caller-supplied
//! bounded argument container, failing on an empty line or on more words
//! than the container holds, and the dispatcher names the command the first
//! word selects.

use vstd::prelude::*;
use crate::stack_vec::StackVec;

verus! {

/// The space byte that separates arguments.
pub const SPACE: u8 = 32;

/// The words completed after reading the first `i` bytes of `s`, and the
/// word still being read: a space ends the current word (dropping it when
/// empty), any other byte extends it.
pub open spec fn tok_state(s: Seq<u8>, i: int) -> (Seq<Seq<u8>>, Seq<u8>)
    decreases i,
{
    if i <= 0 {
        (Seq::empty(), Seq::empty())
    } else {
        let (words, cur) = tok_state(s, i - 1);
        if s[i - 1] == SPACE {
            if cur.len() == 0 {
                (words, Seq::empty())
            } else {
                (words.push(cur), Seq::empty())
            }
        } else {
            (words, cur.push(s[i - 1]))
        }
    }
}

/// The space-separated words of `s`, in order, empty words dropped.
pub open spec fn spec_tokens(s: Seq<u8>) -> Seq<Seq<u8>> {
    let (words, cur) = tok_state(s, s.len() as int);
    if cur.len() == 0 {
        words
    } else {
        words.push(cur)
    }
}

/// Why a command line could not be parsed.
#[derive(PartialEq, Eq, Structural, Debug)]
pub enum Error {
    /// The line holds no words.
    Empty,
    /// The line holds more words than the argument container.
    TooManyArgs,
}

/// What the first word of a command selects.
#[derive(PartialEq, Eq, Structural, Debug)]
pub enum CommandKind {
    /// Print the remaining arguments back.
    Echo,
    /// Leave the shell.
    Exit,
    /// No command of this name exists.
    Unknown,
}

/// A parsed shell command: its space-separated arguments, the first of
/// which is the command's path.
pub struct Command {
    args: StackVec<Vec<u8>>,
}

/// True when `a` and `b` hold the same bytes.
fn bytes_eq(a: &[u8], b: &[u8]) -> (r: bool)
    ensures
        r == (a@ == b@),
{
    if a.len() != b.len() {
        return false;
    }
    let mut i: usize = 0;
    while i < a.len()
        invariant
            i <= a@.len(),
            a@.len() == b@.len(),
            forall|j: int| 0 <= j < i ==> a@[j] == b@[j],
        decreases a@.len() - i,
    {
        if a[i] != b[i] {
            return false;
        }
        i = i + 1;
    }
    proof {
        assert(a@ =~= b@);
    }
    true
}

impl Command {
    /// The arguments, each a byte string, in order.
    pub closed spec fn spec_args(self) -> Seq<Seq<u8>> {
        self.args@.map_values(|v: Vec<u8>| v@)
    }

    /// Parses a command from the line `line`, keeping the arguments in
    /// `storage`, whose length bounds how many the command may have. An
    /// argument-free line is `Empty`; more arguments than `storage` holds
    /// is `TooManyArgs`.
    pub fn parse(line: &[u8], storage: Vec<Vec<u8>>) -> (r: Result<Command, Error>)
        ensures
            spec_tokens(line@).len() == 0 <==> r == Err::<Command, Error>(Error::Empty),
            0 < spec_tokens(line@).len() && spec_tokens(line@).len() > storage@.len() <==> r
                == Err::<Command, Error>(Error::TooManyArgs),
            r matches Ok(c) ==> c.spec_args() == spec_tokens(line@),
    {
        let ghost s = line@;
        let mut args: StackVec<Vec<u8>> = StackVec::new(storage);
        let mut cur: Vec<u8> = Vec::new();
        let mut i: usize = 0;
        while i < line.len()
            invariant
                i <= s.len(),
                line@ == s,
                args.wf(),
                args.spec_capacity() == storage@.len(),
                (args@.map_values(|v: Vec<u8>| v@), cur@) == tok_state(s, i as int),
                tok_state(s, i as int).0.len() <= args.spec_capacity(),
            decreases s.len() - i,
        {
            let ghost words0 = args@.map_values(|v: Vec<u8>| v@);
            let b = line[i];
            if b == SPACE {
                if cur.len() > 0 {
                    let finished = cur;
                    cur = Vec::new();
                    match args.push(finished) {
                        Ok(()) => {
                            proof {
                                assert(args@.map_values(|v: Vec<u8>| v@) =~= words0.push(
                                    tok_state(s, i as int).1,
                                ));
                            }
                        },
                        Err(()) => {
                            proof {
                                lemma_tok_words_grow(s, i as int + 1, s.len() as int);
                                assert(spec_tokens(s).len() >= tok_state(s, i as int + 1).0.len());
                            }
                            return Err(Error::TooManyArgs);
                        },
                    }
                }
            } else {
                cur.push(b);
            }
            i = i + 1;
        }
        if cur.len() > 0 {
            let finished = cur;
            let ghost words0 = args@.map_values(|v: Vec<u8>| v@);
            match args.push(finished) {
                Ok(()) => {
                    proof {
                        assert(args@.map_values(|v: Vec<u8>| v@) =~= words0.push(
                            tok_state(s, s.len() as int).1,
                        ));
                    }
                },
                Err(()) => {
                    return Err(Error::TooManyArgs);
                },
            }
        }
        if args.is_empty() {
            return Err(Error::Empty);
        }
        Ok(Command { args })
    }

    /// Returns this command's path: its first argument.
    pub fn path(&self) -> (r: &Vec<u8>)
        requires
            self.spec_args().len() > 0,
        ensures
            r@ == self.spec_args()[0],
    {
        self.args.get(0)
    }

    /// Returns the number of arguments, the path included.
    pub fn arg_count(&self) -> (r: usize)
        ensures
            r == self.spec_args().len(),
    {
        self.args.len()
    }

    /// Returns the argument at position `i`.
    pub fn arg(&self, i: usize) -> (r: &Vec<u8>)
        requires
            i < self.spec_args().len(),
        ensures
            r@ == self.spec_args()[i as int],
    {
        self.args.get(i)
    }

    /// Names the command the path selects: `echo`, `exit`, or none of the
    /// commands the shell knows.
    pub fn kind(&self) -> (r: CommandKind)
        requires
            self.spec_args().len() > 0,
        ensures
            r == CommandKind::Echo <==> self.spec_args()[0] == seq![101u8, 99u8, 104u8, 111u8],
            r == CommandKind::Exit <==> self.spec_args()[0] == seq![101u8, 120u8, 105u8, 116u8],
    {
        let path = self.path();
        let echo: [u8; 4] = [101, 99, 104, 111];
        let exit: [u8; 4] = [101, 120, 105, 116];
        if bytes_eq(path.as_slice(), echo.as_slice()) {
            proof {
                assert(echo@ =~= seq![101u8, 99u8, 104u8, 111u8]);
            }
            CommandKind::Echo
        } else if bytes_eq(path.as_slice(), exit.as_slice()) {
            proof {
                assert(exit@ =~= seq![101u8, 120u8, 105u8, 116u8]);
            }
            CommandKind::Exit
        } else {
            proof {
                assert(echo@ =~= seq![101u8, 99u8, 104u8, 111u8]);
                assert(exit@ =~= seq![101u8, 120u8, 105u8, 116u8]);
            }
            CommandKind::Unknown
        }
    }
}

/// Reading more of the line never loses a completed word: the words of
/// `tok_state` only grow with the prefix, and every completed word is a
/// token of the whole line.
proof fn lemma_tok_words_grow(s: Seq<u8>, i: int, j: int)
    requires
        0 <= i <= j <= s.len(),
    ensures
        tok_state(s, i).0.len() <= tok_state(s, j).0.len(),
        tok_state(s, j).0.len() <= spec_tokens(s).len(),
    decreases j - i,
{
    if i < j {
        lemma_tok_words_grow(s, i + 1, j);
    }
    if j < s.len() {
        lemma_tok_words_grow_tail(s, j);
    }
}

/// The completed words at any prefix are no more than the tokens of the
/// whole line.
proof fn lemma_tok_words_grow_tail(s: Seq<u8>, j: int)
    requires
        0 <= j <= s.len(),
    ensures
        tok_state(s, j).0.len() <= spec_tokens(s).len(),
    decreases s.len() - j,
{
    if j < s.len() {
        lemma_tok_words_grow_tail(s, j + 1);
    }
}

} // verus!
