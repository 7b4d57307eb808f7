use vstd::prelude::*;
use crate::ast::SourceLocation;
use crate::error::{Error, ErrorKind, Fault, fault};

verus! {

/// The slot bound to `name` in a table whose entries are listed oldest
/// first: the position of the most recent entry with that name.
pub open spec fn resolve(t: Seq<Seq<char>>, name: Seq<char>) -> Option<int>
    decreases t.len(),
{
    if t.len() == 0 {
        None
    } else if t.last() == name {
        Some(t.len() - 1)
    } else {
        resolve(t.drop_last(), name)
    }
}

/// The views of a sequence of strings.
pub open spec fn names_of(v: Seq<String>) -> Seq<Seq<char>> {
    v.map_values(|s: String| s@)
}

/// Message of a failed lookup.
pub open spec fn unresolved_message(name: Seq<char>) -> Seq<char> {
    "The name \""@ + name + "\" is not found"@
}

/// What a lookup of `name` at `position` yields.
pub open spec fn lookup_result(t: Seq<Seq<char>>, name: Seq<char>, position: Option<SourceLocation>) -> Result<usize, Fault> {
    match resolve(t, name) {
        Some(i) => Ok(i as usize),
        None => Err(fault(ErrorKind::UnresolvedName, unresolved_message(name), position)),
    }
}

/// Stack of (name, slot) bindings. The entry at stack position `i`, counted
/// from the bottom, holds slot `i`: a binding takes as its slot the size of
/// the table when it is pushed. Lookups scan from the top, so a later binding
/// shadows an earlier one with the same name.
pub struct ScopeTable {
    names: Vec<String>,
}

impl View for ScopeTable {
    type V = Seq<Seq<char>>;

    /// The bound names, oldest first; the slot of each is its index.
    closed spec fn view(&self) -> Seq<Seq<char>> {
        self.names@.map_values(|s: String| s@)
    }
}

impl ScopeTable {
    pub fn new() -> (r: ScopeTable)
        ensures
            r@ == Seq::<Seq<char>>::empty(),
    {
        let r = ScopeTable { names: Vec::new() };
        assert(r@ =~= Seq::<Seq<char>>::empty());
        r
    }

    pub fn len(&self) -> (r: usize)
        ensures
            r == self@.len(),
    {
        self.names.len()
    }

    /// Binds `name` to a fresh slot, the current size of the table.
    pub fn push(&mut self, name: String) -> (slot: usize)
        ensures
            slot == old(self)@.len(),
            final(self)@ == old(self)@.push(name@),
    {
        let slot = self.names.len();
        self.names.push(name);
        assert(final(self)@ =~= old(self)@.push(name@));
        slot
    }

    /// Binds each of `names` in order.
    pub fn push_names(&mut self, names: &Vec<String>)
        ensures
            final(self)@ == old(self)@ + names_of(names@),
    {
        let mut i: usize = 0;
        while i < names.len()
            invariant
                i <= names@.len(),
                self@ == old(self)@ + names_of(names@.subrange(0, i as int)),
            decreases names@.len() - i,
        {
            self.push(names[i].clone());
            assert(names_of(names@.subrange(0, i + 1)) =~= names_of(names@.subrange(0, i as int)).push(
                names@[i as int]@,
            ));
            assert(old(self)@ + names_of(names@.subrange(0, i + 1)) =~= (old(self)@ + names_of(
                names@.subrange(0, i as int),
            )).push(names@[i as int]@));
            i = i + 1;
        }
        assert(names@.subrange(0, i as int) =~= names@);
    }

    /// Removes the `k` most recent bindings.
    pub fn pop_n(&mut self, k: usize)
        requires
            k <= old(self)@.len(),
        ensures
            final(self)@ == old(self)@.subrange(0, old(self)@.len() - k),
    {
        let mut i: usize = 0;
        while i < k
            invariant
                i <= k,
                k <= old(self)@.len(),
                self.names@ == old(self).names@.subrange(0, old(self).names@.len() - i),
            decreases k - i,
        {
            self.names.pop();
            i = i + 1;
        }
        assert(self@ =~= old(self)@.subrange(0, old(self)@.len() - k));
    }

    /// The slot of the most recent binding of `name`.
    pub fn lookup(&self, name: &String, position: Option<SourceLocation>) -> (r: Result<usize, Error>)
        ensures
            match r {
                Ok(slot) => lookup_result(self@, name@, position) == Ok::<usize, Fault>(slot),
                Err(e) => lookup_result(self@, name@, position) == Err::<usize, Fault>(e@),
            },
    {
        let mut i: usize = self.names.len();
        assert(self@.subrange(0, i as int) =~= self@);
        while i > 0
            invariant
                i <= self@.len(),
                self@.len() == self.names@.len(),
                resolve(self@, name@) == resolve(self@.subrange(0, i as int), name@),
            decreases i,
        {
            assert(self@.subrange(0, i as int).last() == self.names@[i - 1]@);
            if self.names[i - 1] == *name {
                return Ok(i - 1);
            }
            assert(self@.subrange(0, i as int).drop_last() =~= self@.subrange(0, i - 1));
            i = i - 1;
        }
        let message = String::from_str("The name \"").concat(name.as_str()).concat("\" is not found");
        proof {
            reveal_strlit("The name \"");
            reveal_strlit("\" is not found");
        }
        Err(Error::new(ErrorKind::UnresolvedName, message, position))
    }
}

} // verus!
