//! Handler registry: the startup-populated table from method name to the
//! handler the dispatch loop runs on the owner thread. Handlers themselves
//! need the owner context, which only the embedding holds, so the table maps
//! each name to the embedding's identifier for its handler; registration
//! appends, and lookup returns the most recent registration of a name, so a
//! later registration of the same name overrides an earlier one.

use vstd::prelude::*;

verus! {

/// The embedding's identifier for the handler that applies a window title.
pub const SET_TITLE_HANDLER: u64 = 1;

/// The name-to-handler table, viewed as the sequence of registrations in the
/// order they were made.
pub struct ApiManager {
    handlers: Vec<(String, u64)>,
}

/// The handler registered under `name`: the most recent registration wins.
pub open spec fn spec_lookup(handlers: Seq<(Seq<char>, u64)>, name: Seq<char>) -> Option<u64>
    decreases handlers.len(),
{
    if handlers.len() == 0 {
        None
    } else if handlers.last().0 == name {
        Some(handlers.last().1)
    } else {
        spec_lookup(handlers.drop_last(), name)
    }
}

impl View for ApiManager {
    type V = Seq<(Seq<char>, u64)>;

    closed spec fn view(&self) -> Seq<(Seq<char>, u64)> {
        self.handlers@.map_values(|p: (String, u64)| (p.0@, p.1))
    }
}

impl ApiManager {
    /// A registry with no handler registered.
    pub fn new() -> (r: Self)
        ensures
            r@ == Seq::<(Seq<char>, u64)>::empty(),
    {
        let r = ApiManager { handlers: Vec::new() };
        proof {
            assert(r@ =~= Seq::<(Seq<char>, u64)>::empty());
        }
        r
    }

    /// Registers `handler` under `name`. A duplicate name overrides the
    /// earlier registration.
    pub fn register_api(&mut self, name: String, handler: u64)
        ensures
            final(self)@ == old(self)@.push((name@, handler)),
    {
        self.handlers.push((name, handler));
        proof {
            assert(self@ =~= old(self)@.push((name@, handler)));
        }
    }

    /// The handler registered under `name`, if any.
    pub fn lookup(&self, name: &String) -> (r: Option<u64>)
        ensures
            r == spec_lookup(self@, name@),
    {
        let mut i: usize = self.handlers.len();
        proof {
            assert(self@.take(i as int) =~= self@);
        }
        while i > 0
            invariant
                i <= self.handlers.len(),
                self.handlers@.len() == self@.len(),
                spec_lookup(self@, name@) == spec_lookup(self@.take(i as int), name@),
            decreases i,
        {
            i = i - 1;
            proof {
                assert(self@.take(i + 1).last() == self@[i as int]);
                assert(self@.take(i + 1).drop_last() =~= self@.take(i as int));
            }
            if self.handlers[i].0 == *name {
                return Some(self.handlers[i].1);
            }
        }
        proof {
            assert(self@.take(0) =~= Seq::<(Seq<char>, u64)>::empty());
        }
        None
    }
}

/// Registers the built-in operations the embedding exposes on its window.
pub fn register_api_instances(api_manager: &mut ApiManager)
    ensures
        final(api_manager)@ == old(api_manager)@.push(("set_title"@, SET_TITLE_HANDLER)),
{
    api_manager.register_api("set_title".to_owned(), SET_TITLE_HANDLER);
}

} // verus!
