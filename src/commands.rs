//! The table from command name to the handler slot that receives it.
use vstd::prelude::*;

verus! {

/// A command name as it is stored: with a leading `/`, added where it was missing.
pub open spec fn normalized_command(cmd: Seq<char>) -> Seq<char> {
    if cmd.len() > 0 && cmd[0] == '/' {
        cmd
    } else {
        seq!['/'] + cmd
    }
}

pub fn normalize_command(cmd: &str) -> (r: String)
    ensures
        r@ == normalized_command(cmd@),
{
    if cmd.unicode_len() > 0 && cmd.get_char(0) == '/' {
        cmd.to_owned()
    } else {
        let mut r = String::from_str("/");
        proof {
            reveal_strlit("/");
        }
        r.append(cmd);
        r
    }
}

/// The slot of the last entry for `key`: later registrations replace earlier ones.
pub open spec fn lookup_in(e: Seq<(String, usize)>, key: Seq<char>) -> Option<usize>
    decreases e.len(),
{
    if e.len() == 0 {
        None
    } else if e.last().0@ == key {
        Some(e.last().1)
    } else {
        lookup_in(e.drop_last(), key)
    }
}

/// Command names, each bound to the slot of the handler that receives its messages.
pub struct CommandTable {
    entries: Vec<(String, usize)>,
}

impl View for CommandTable {
    type V = Map<Seq<char>, usize>;

    closed spec fn view(&self) -> Map<Seq<char>, usize> {
        Map::new(
            |k: Seq<char>| lookup_in(self.entries@, k) is Some,
            |k: Seq<char>| lookup_in(self.entries@, k)->0,
        )
    }
}

impl CommandTable {
    pub fn new() -> (r: CommandTable)
        ensures
            r@ == Map::<Seq<char>, usize>::empty(),
    {
        let r = CommandTable { entries: Vec::new() };
        assert(r@ =~= Map::<Seq<char>, usize>::empty());
        r
    }

    /// Binds `name` to `slot`, replacing any earlier binding of `name`.
    pub fn insert(&mut self, name: String, slot: usize)
        ensures
            final(self)@ == old(self)@.insert(name@, slot),
    {
        let ghost k = name@;
        self.entries.push((name, slot));
        proof {
            assert(self.entries@.drop_last() =~= old(self).entries@);
            assert(self@ =~= old(self)@.insert(k, slot));
        }
    }

    pub fn get(&self, key: &String) -> (r: Option<usize>)
        ensures
            r == self@.get(key@),
    {
        let mut i = self.entries.len();
        assert(self.entries@.subrange(0, i as int) =~= self.entries@);
        while i > 0
            invariant
                i <= self.entries@.len(),
                lookup_in(self.entries@, key@) == lookup_in(self.entries@.subrange(0, i as int), key@),
            decreases i,
        {
            proof {
                assert(self.entries@.subrange(0, i as int).drop_last()
                    =~= self.entries@.subrange(0, i - 1));
            }
            if self.entries[i - 1].0 == *key {
                return Some(self.entries[i - 1].1);
            }
            i = i - 1;
        }
        None
    }

}

} // verus!
