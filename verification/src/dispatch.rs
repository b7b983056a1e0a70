//! Command dispatch: a registry from command identifiers to handlers.
//!
//! A [`CommandRegistry`] records identifier-to-handler pairs; registering an
//! identifier twice deliberately lets the last registration win. Invoking an
//! identifier routes the optional argument payload to the registered handler
//! and returns the handler's result: a success payload, or the handler's own
//! failure carried through unchanged. Invoking an identifier that was never
//! registered reports [`DispatchError::CommandNotFound`], distinct from any
//! handler failure, so the caller can tell "no handler exists" from
//! "handled but failed".
//!
//! The registry is modelled as a [`Map`] from identifier characters to the
//! handler value; its view is the fold of the recorded pairs in
//! registration order, so the last pair for an identifier is the one the
//! map holds.

use vstd::prelude::*;

verus! {

/// Why an invocation failed: no handler registered for the identifier, or
/// the registered handler itself reported a failure (carried through
/// unchanged).
#[derive(Debug)]
pub enum DispatchError {
    CommandNotFound,
    HandlerFailure(String),
}

/// The mapping a sequence of identifier-handler pairs denotes, later pairs
/// overriding earlier ones.
pub open spec fn registered_map<H>(entries: Seq<(Seq<char>, H)>) -> Map<Seq<char>, H>
    decreases entries.len(),
{
    if entries.len() == 0 {
        Map::empty()
    } else {
        registered_map(entries.drop_last()).insert(entries.last().0, entries.last().1)
    }
}

/// A mapping from command identifiers to handlers of type `H`.
pub struct CommandRegistry<H> {
    entries: Vec<(String, H)>,
}

impl<H> View for CommandRegistry<H> {
    type V = Map<Seq<char>, H>;

    closed spec fn view(&self) -> Map<Seq<char>, H> {
        registered_map(self.entries@.map_values(|p: (String, H)| (p.0@, p.1)))
    }
}

/// An identifier is in the denoted map exactly when some recorded pair
/// carries it.
proof fn lemma_registered_map_contains<H>(entries: Seq<(Seq<char>, H)>, id: Seq<char>)
    ensures
        registered_map(entries).contains_key(id) <==> exists|j: int|
            0 <= j < entries.len() && entries[j].0 == id,
    decreases entries.len(),
{
    if entries.len() > 0 {
        lemma_registered_map_contains(entries.drop_last(), id);
        if registered_map(entries).contains_key(id) && entries.last().0 != id {
            let j = choose|j: int| 0 <= j < entries.drop_last().len() && entries.drop_last()[j].0
                == id;
            assert(entries[j].0 == id);
        }
        if exists|j: int| 0 <= j < entries.len() && entries[j].0 == id {
            let j = choose|j: int| 0 <= j < entries.len() && entries[j].0 == id;
            if j < entries.len() - 1 {
                assert(entries.drop_last()[j].0 == id);
            }
        }
    }
}

/// The pair that denotes an identifier's handler is the last one recorded
/// for it.
proof fn lemma_registered_map_last_match<H>(entries: Seq<(Seq<char>, H)>, i: int)
    requires
        0 <= i < entries.len(),
        forall|j: int| i < j < entries.len() ==> (#[trigger] entries[j]).0 != entries[i].0,
    ensures
        registered_map(entries).contains_key(entries[i].0),
        registered_map(entries)[entries[i].0] == entries[i].1,
    decreases entries.len(),
{
    if i == entries.len() - 1 {
        assert(entries.last() == entries[i]);
    } else {
        assert(forall|j: int|
            i < j < entries.drop_last().len() ==> (#[trigger] entries.drop_last()[j]).0
                != entries.drop_last()[i].0);
        lemma_registered_map_last_match(entries.drop_last(), i);
        assert(entries.last().0 != entries[i].0);
    }
}

impl<H> CommandRegistry<H> {
    /// Creates an empty registry: no identifier has a handler.
    pub fn new() -> (r: Self)
        ensures
            r@ == Map::<Seq<char>, H>::empty(),
    {
        CommandRegistry { entries: Vec::new() }
    }

    /// Records `handler` for `id`. If `id` was registered before, the new
    /// handler replaces the old one: the last registration wins.
    pub fn register(&mut self, id: &str, handler: H)
        ensures
            final(self)@ == old(self)@.insert(id@, handler),
    {
        let ghost prev = self.entries@.map_values(|p: (String, H)| (p.0@, p.1));
        self.entries.push((id.to_owned(), handler));
        proof {
            let cur = self.entries@.map_values(|p: (String, H)| (p.0@, p.1));
            assert(cur =~= prev.push((id@, handler)));
            assert(cur.drop_last() =~= prev);
        }
    }

    /// Finds the position of the pair that decides `id`: the last recorded
    /// pair carrying `id`, if any.
    fn find_last(&self, id: &str) -> (r: Option<usize>)
        ensures
            match r {
                Some(i) => {
                    &&& i < self.entries@.len()
                    &&& self.entries@[i as int].0@ == id@
                    &&& forall|j: int|
                        i < j < self.entries@.len() ==> (#[trigger] self.entries@[j]).0@ != id@
                },
                None => forall|j: int|
                    0 <= j < self.entries@.len() ==> (#[trigger] self.entries@[j]).0@ != id@,
            },
    {
        let key: String = id.to_owned();
        let mut i: usize = self.entries.len();
        while i > 0
            invariant
                i <= self.entries@.len(),
                key@ == id@,
                forall|j: int|
                    i <= j < self.entries@.len() ==> (#[trigger] self.entries@[j]).0@ != id@,
            decreases i,
        {
            i = i - 1;
            if self.entries[i].0 == key {
                return Some(i);
            }
        }
        None
    }

    /// Looks up the handler registered for `id`: the one the last
    /// registration for `id` recorded, or `None` if `id` was never
    /// registered.
    pub fn lookup(&self, id: &str) -> (r: Option<&H>)
        ensures
            match r {
                Some(h) => self@.contains_key(id@) && *h == self@[id@],
                None => !self@.contains_key(id@),
            },
    {
        let found = self.find_last(id);
        proof {
            let ghost m = self.entries@.map_values(|p: (String, H)| (p.0@, p.1));
            lemma_registered_map_contains(m, id@);
            if let Some(i) = found {
                lemma_registered_map_last_match(m, i as int);
            }
        }
        match found {
            Some(i) => Some(&self.entries[i].1),
            None => None,
        }
    }
}

impl<H: Fn(Option<String>) -> Result<String, String>> CommandRegistry<H> {
    /// Routes one command: looks up the handler registered for `id` and
    /// calls it on `arg`.
    ///
    /// The result is the handler's success payload, the handler's own
    /// failure carried through unchanged as
    /// [`DispatchError::HandlerFailure`], or
    /// [`DispatchError::CommandNotFound`] exactly when `id` was never
    /// registered.
    pub fn invoke(&self, id: &str, arg: Option<String>) -> (r: Result<String, DispatchError>)
        requires
            self@.contains_key(id@) ==> call_requires(self@[id@], (arg,)),
        ensures
            match r {
                Ok(payload) => self@.contains_key(id@) && call_ensures(
                    self@[id@],
                    (arg,),
                    Ok(payload),
                ),
                Err(DispatchError::CommandNotFound) => !self@.contains_key(id@),
                Err(DispatchError::HandlerFailure(failure)) => self@.contains_key(id@)
                    && call_ensures(self@[id@], (arg,), Err(failure)),
            },
    {
        match self.lookup(id) {
            Some(handler) => match handler(arg) {
                Ok(payload) => Ok(payload),
                Err(failure) => Err(DispatchError::HandlerFailure(failure)),
            },
            None => Err(DispatchError::CommandNotFound),
        }
    }
}

/// Law: the last registration wins. Registering `h1` and then `h2` for the
/// same identifier leaves the registry exactly as if only `h2` had been
/// registered, and the identifier maps to `h2`.
pub proof fn lemma_last_registration_wins<H>(
    m: Map<Seq<char>, H>,
    id: Seq<char>,
    h1: H,
    h2: H,
)
    ensures
        m.insert(id, h1).insert(id, h2) == m.insert(id, h2),
        m.insert(id, h2)[id] == h2,
{
    assert(m.insert(id, h1).insert(id, h2) =~= m.insert(id, h2));
}

} // verus!
