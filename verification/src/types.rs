//! The records of an event log as typed values, and the actors among them.

use vstd::prelude::*;

verus! {

/// One event of the log.
#[derive(Default, Debug, Clone, PartialEq, Eq)]
pub struct Event {
    pub id: Option<String>,
    pub type_field: Option<String>,
    pub actor: Option<Actor>,
    pub repo: Option<Repo>,
    pub public: bool,
    pub created_at: Option<String>,
}

/// Who caused an event.
#[derive(Default, Debug, Clone, PartialEq, Eq)]
pub struct Actor {
    pub id: Option<i64>,
    pub login: Option<String>,
    pub display_login: Option<String>,
    pub gravatar_id: Option<String>,
    pub url: Option<String>,
    pub avatar_url: Option<String>,
}

/// The repository an event belongs to.
#[derive(Default, Debug, Clone, PartialEq, Eq)]
pub struct Repo {
    pub id: Option<u64>,
    pub name: Option<String>,
    pub url: Option<String>,
}

/// The actors of the events that have one, in the order of the events.
pub open spec fn actors_of(events: Seq<Event>) -> Seq<Actor>
    decreases events.len(),
{
    if events.len() == 0 {
        Seq::empty()
    } else {
        let before = actors_of(events.drop_last());
        match events.last().actor {
            Some(actor) => before.push(actor),
            None => before,
        }
    }
}

/// The actors of several lists, list after list.
pub open spec fn gathered(lists: Seq<Vec<Actor>>) -> Seq<Actor>
    decreases lists.len(),
{
    if lists.len() == 0 {
        Seq::empty()
    } else {
        gathered(lists.drop_last()) + lists.last()@
    }
}

/// The elements of `items` in reverse order.
fn reversed<T>(items: Vec<T>) -> (back: Vec<T>)
    ensures
        back@ == items@.reverse(),
{
    let mut items = items;
    let ghost all = items@;
    let mut back: Vec<T> = Vec::new();
    while items.len() > 0
        invariant
            items@.len() <= all.len(),
            items@ == all.take(items@.len() as int),
            back@ == all.skip(items@.len() as int).reverse(),
        decreases items@.len(),
    {
        let item = items.pop().unwrap();
        back.push(item);
        proof {
            let n = items@.len() as int;
            assert(items@ =~= all.take(n));
            assert(item == all[n]);
            assert(all.skip(n).reverse() =~= all.skip(n + 1).reverse().push(all[n]));
        }
    }
    proof {
        assert(all.skip(0) =~= all);
    }
    back
}

/// Keeps the actor of each event that has one and drops the events without.
pub fn collect_actors(events: Vec<Event>) -> (actors: Vec<Actor>)
    ensures
        actors@ == actors_of(events@),
{
    let ghost all = events@;
    let mut stack = reversed(events);
    let mut actors: Vec<Actor> = Vec::new();
    proof {
        assert(all.take(0) =~= Seq::<Event>::empty());
    }
    while stack.len() > 0
        invariant
            stack@.len() <= all.len(),
            stack@ == all.reverse().take(stack@.len() as int),
            actors@ == actors_of(all.take(all.len() - stack@.len())),
        decreases stack@.len(),
    {
        let ghost done = all.len() - stack@.len();
        let event = stack.pop().unwrap();
        proof {
            assert(stack@ =~= all.reverse().take(stack@.len() as int));
            assert(event == all[done]);
            assert(all.take(done + 1).drop_last() =~= all.take(done));
        }
        match event.actor {
            Some(actor) => {
                actors.push(actor);
            },
            None => {},
        }
    }
    proof {
        assert(all.take(all.len() as int) =~= all);
    }
    actors
}

/// Puts the actors of several lists into one, list after list.
pub fn gather_actors(lists: Vec<Vec<Actor>>) -> (actors: Vec<Actor>)
    ensures
        actors@ == gathered(lists@),
{
    let ghost all = lists@;
    let mut stack = reversed(lists);
    let mut actors: Vec<Actor> = Vec::new();
    proof {
        assert(all.take(0) =~= Seq::<Vec<Actor>>::empty());
    }
    while stack.len() > 0
        invariant
            stack@.len() <= all.len(),
            stack@ == all.reverse().take(stack@.len() as int),
            actors@ == gathered(all.take(all.len() - stack@.len())),
        decreases stack@.len(),
    {
        let ghost done = all.len() - stack@.len();
        let mut list = stack.pop().unwrap();
        proof {
            assert(stack@ =~= all.reverse().take(stack@.len() as int));
            assert(list == all[done]);
            assert(all.take(done + 1).drop_last() =~= all.take(done));
        }
        actors.append(&mut list);
    }
    proof {
        assert(all.take(all.len() as int) =~= all);
    }
    actors
}

} // verus!
