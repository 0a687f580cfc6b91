//! The set of typed commands of one command mode, queried by prefix while
//! the user types.
use vstd::prelude::*;

verus! {

pub open spec fn is_prefix(p: Seq<u8>, s: Seq<u8>) -> bool {
    p.len() <= s.len() && s.subrange(0, p.len() as int) == p
}

/// The commands known in one mode.
pub struct CommandTree {
    commands: Vec<Vec<u8>>,
}

impl CommandTree {
    /// The commands, as byte strings.
    pub closed spec fn view(&self) -> Set<Seq<u8>> {
        Set::new(|c: Seq<u8>| exists|i: int| 0 <= i < self.commands@.len() && #[trigger] self.commands@[i]@ == c)
    }

    /// No command at all.
    pub fn new() -> (r: CommandTree)
        ensures
            r@ == Set::<Seq<u8>>::empty(),
    {
        let r = CommandTree { commands: Vec::new() };
        assert(r@ =~= Set::<Seq<u8>>::empty());
        r
    }

    /// Adds `command` to the known commands.
    pub fn add_command(&mut self, command: &[u8])
        ensures
            final(self)@ == old(self)@.insert(command@),
    {
        let mut v: Vec<u8> = Vec::new();
        let mut i: usize = 0;
        while i < command.len()
            invariant
                i <= command@.len(),
                v@ == command@.subrange(0, i as int),
            decreases command@.len() - i,
        {
            v.push(command[i]);
            i = i + 1;
        }
        assert(v@ == command@);
        let ghost before = self.commands@;
        self.commands.push(v);
        assert forall|c: Seq<u8>| final(self)@.contains(c) == old(self)@.insert(command@).contains(c) by {
            if c == command@ {
                assert(self.commands@[before.len() as int]@ == c);
            }
            if old(self)@.contains(c) {
                let i = choose|i: int| 0 <= i < before.len() && #[trigger] before[i]@ == c;
                assert(self.commands@[i]@ == c);
            }
        }
        assert(self@ =~= old(self)@.insert(command@));
    }

    /// For `typed`: whether it can still grow into a command (it is empty or
    /// the start of one), and whether it is a command itself.
    pub fn has_command(&self, typed: &[u8]) -> (r: (bool, bool))
        ensures
            r.0 == (typed@.len() == 0 || exists|c: Seq<u8>| self@.contains(c) && is_prefix(typed@, c)),
            r.1 == self@.contains(typed@),
    {
        let mut prefix = typed.len() == 0;
        let mut exact = false;
        let mut k: usize = 0;
        while k < self.commands.len()
            invariant
                k <= self.commands@.len(),
                prefix == (typed@.len() == 0 || exists|i: int| 0 <= i < k && is_prefix(typed@, #[trigger] self.commands@[i]@)),
                exact == (exists|i: int| 0 <= i < k && #[trigger] self.commands@[i]@ == typed@),
            decreases self.commands@.len() - k,
        {
            let (p, e) = starts_with(&self.commands[k], typed);
            if p {
                prefix = true;
            }
            if e {
                exact = true;
            }
            k = k + 1;
        }
        proof {
            if exists|c: Seq<u8>| self@.contains(c) && is_prefix(typed@, c) {
                let c = choose|c: Seq<u8>| self@.contains(c) && is_prefix(typed@, c);
                let i = choose|i: int| 0 <= i < self.commands@.len() && #[trigger] self.commands@[i]@ == c;
                assert(is_prefix(typed@, self.commands@[i]@));
            }
            if prefix && typed@.len() != 0 {
                let i = choose|i: int| 0 <= i < self.commands@.len() && is_prefix(typed@, #[trigger] self.commands@[i]@);
                assert(self@.contains(self.commands@[i]@));
            }
            if exact {
                let i = choose|i: int| 0 <= i < self.commands@.len() && #[trigger] self.commands@[i]@ == typed@;
                assert(self@.contains(self.commands@[i]@));
            }
            if self@.contains(typed@) {
                let i = choose|i: int| 0 <= i < self.commands@.len() && #[trigger] self.commands@[i]@ == typed@;
            }
        }
        (prefix, exact)
    }
}

/// Whether `p` is a prefix of `s`, and whether the two are equal.
fn starts_with(s: &Vec<u8>, p: &[u8]) -> (r: (bool, bool))
    ensures
        r.0 == is_prefix(p@, s@),
        r.1 == (s@ == p@),
{
    if p.len() > s.len() {
        return (false, false);
    }
    let mut i: usize = 0;
    while i < p.len()
        invariant
            p@.len() <= s@.len(),
            i <= p@.len(),
            forall|j: int| 0 <= j < i ==> s@[j] == p@[j],
        decreases p@.len() - i,
    {
        if s[i] != p[i] {
            assert(s@.subrange(0, p@.len() as int)[i as int] != p@[i as int]);
            return (false, false);
        }
        i = i + 1;
    }
    assert(s@.subrange(0, p@.len() as int) =~= p@);
    let same = p.len() == s.len();
    if same {
        assert(s@ =~= p@);
    }
    (true, same)
}

} // verus!
