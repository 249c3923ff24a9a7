//! The router: a table from route names to handlers. A request is handed to
//! the handler registered under its route's exact name; a request for a
//! route that nothing is registered under is answered too, with the failure
//! that says so.

use vstd::prelude::*;
use crate::error_messages::service::{code_and_message, ServiceErrorKind};
use crate::model::ErrorModel;

verus! {

/// A request as it arrives: the body, not yet decoded.
#[derive(Debug, Clone, PartialEq, Eq)]
pub struct RouterInput {
    pub request_body: String,
}

/// An answer as it leaves: the body, already encoded.
#[derive(Debug, Clone, PartialEq, Eq)]
pub struct RouterOutput {
    pub response_body: String,
}

/// The table of routes. Each name stands in it once; registering a name
/// again replaces its handler. Beside the table the router holds the
/// encoder of failures, which turns the failure to tell into an answer.
pub struct Router<H: Fn(RouterInput) -> RouterOutput, E: Fn(ErrorModel) -> RouterOutput> {
    rules: Vec<(String, H)>,
    unknown: E,
}

/// Whether no name stands twice among the rules.
pub open spec fn names_are_distinct<H>(rules: Seq<(String, H)>) -> bool {
    forall|i: int, j: int|
        0 <= i < rules.len() && 0 <= j < rules.len() && i != j ==> (#[trigger] rules[i]).0@
            != (#[trigger] rules[j]).0@
}

/// Whether a rule for `route` stands at place `i`.
pub open spec fn stands_at<H>(rules: Seq<(String, H)>, route: Seq<char>, i: int) -> bool {
    0 <= i < rules.len() && rules[i].0@ == route
}

/// The rules as a map from names to handlers.
pub open spec fn table<H>(rules: Seq<(String, H)>) -> Map<Seq<char>, H> {
    Map::new(
        |route: Seq<char>| exists|i: int| stands_at(rules, route, i),
        |route: Seq<char>| rules[choose|i: int| stands_at(rules, route, i)].1,
    )
}

/// With distinct names, the rule at place `i` is the one that the map holds
/// under its name.
pub proof fn lemma_rule_is_in_table<H>(rules: Seq<(String, H)>, i: int)
    requires
        names_are_distinct(rules),
        0 <= i < rules.len(),
    ensures
        table(rules).dom().contains(rules[i].0@),
        table(rules)[rules[i].0@] == rules[i].1,
{
    let route = rules[i].0@;
    assert(stands_at(rules, route, i));
    let chosen = choose|k: int| stands_at(rules, route, k);
    assert(chosen == i);
}

impl<H: Fn(RouterInput) -> RouterOutput, E: Fn(ErrorModel) -> RouterOutput> Router<H, E> {
    #[verifier::type_invariant]
    spec fn well_formed(self) -> bool {
        &&& names_are_distinct(self.rules@)
        &&& forall|i: int, input: RouterInput|
            0 <= i < self.rules@.len() ==> #[trigger] call_requires(self.rules@[i].1, (input,))
        &&& forall|failure: ErrorModel| call_requires(self.unknown, (failure,))
    }

    /// The handlers of this router by route name.
    pub closed spec fn view(&self) -> Map<Seq<char>, H> {
        table(self.rules@)
    }

    /// The encoder of failures that this router was made with.
    pub closed spec fn encoder(&self) -> E {
        self.unknown
    }

    /// Whether `output` answers the request `router_input` for `route`:
    /// it is what the handler registered under that name gave for the
    /// request, or, where nothing is registered under that name, what the
    /// encoder gave for the failure that says so, the request for an action
    /// which is not known.
    pub open spec fn answers(
        &self,
        route: Seq<char>,
        router_input: RouterInput,
        output: RouterOutput,
    ) -> bool {
        if self@.dom().contains(route) {
            call_ensures(self@[route], (router_input,), output)
        } else {
            exists|failure: ErrorModel|
                failure@ == ServiceErrorKind::ReqestForActionWhichEvelynDoesNotKnowHowToDo.entry()
                    && #[trigger] call_ensures(self.encoder(), (failure,), output)
        }
    }

    /// A router without routes, which answers every request with the
    /// failure that the route is not known, as `unknown` encodes it.
    pub fn new(unknown: E) -> (router: Router<H, E>)
        requires
            forall|failure: ErrorModel| call_requires(unknown, (failure,)),
        ensures
            router@ == Map::<Seq<char>, H>::empty(),
            router.encoder() == unknown,
    {
        let router = Router { rules: Vec::new(), unknown };
        proof {
            assert(table(router.rules@) =~= Map::<Seq<char>, H>::empty());
        }
        router
    }

    /// The place of the rule for `route`, if there is one.
    fn find(&self, route: &str) -> (place: Option<usize>)
        ensures
            match place {
                Some(i) => stands_at(self.rules@, route@, i as int),
                None => forall|j: int| !stands_at(self.rules@, route@, j),
            },
    {
        let wanted: String = route.to_string();
        let mut i: usize = 0;
        while i < self.rules.len()
            invariant
                i <= self.rules@.len(),
                wanted@ == route@,
                forall|j: int| 0 <= j < i ==> !stands_at(self.rules@, route@, j),
            decreases self.rules@.len() - i,
        {
            if self.rules[i].0 == wanted {
                return Some(i);
            }
            i = i + 1;
        }
        None
    }

    /// Registers `processor` under `route`, in place of what was registered
    /// under that name before.
    pub fn add_rule(&mut self, route: &str, processor: H)
        requires
            forall|input: RouterInput| call_requires(processor, (input,)),
        ensures
            final(self)@ == old(self)@.insert(route@, processor),
            final(self).encoder() == old(self).encoder(),
    {
        proof {
            use_type_invariant(&*self);
        }
        let place: Option<usize> = self.find(route);
        let ghost before = self.rules@;
        let mut rules: Vec<(String, H)> = Vec::new();
        core::mem::swap(&mut rules, &mut self.rules);
        match place {
            Some(i) => {
                rules.set(i, (route.to_string(), processor));
            },
            None => {
                rules.push((route.to_string(), processor));
            },
        }
        proof {
            let after = rules@;
            assert forall|i: int, j: int|
                0 <= i < after.len() && 0 <= j < after.len() && i != j implies (#[trigger] after[i]).0@
                != (#[trigger] after[j]).0@ by {
                if i < before.len() {
                    assert(after[i].0@ == before[i].0@);
                    assert(!stands_at(before, route@, i) || place == Some(i as usize));
                }
                if j < before.len() {
                    assert(after[j].0@ == before[j].0@);
                    assert(!stands_at(before, route@, j) || place == Some(j as usize));
                }
            }
            assert forall|name: Seq<char>|
                table(after).dom().contains(name) <==> #[trigger] table(before).insert(
                    route@,
                    processor,
                ).dom().contains(name) by {
                if table(after).dom().contains(name) {
                    let k = choose|k: int| stands_at(after, name, k);
                    if name != route@ {
                        assert(stands_at(before, name, k));
                    }
                }
                if table(before).insert(route@, processor).dom().contains(name) {
                    if name == route@ {
                        match place {
                            Some(i) => assert(stands_at(after, name, i as int)),
                            None => assert(stands_at(after, name, before.len() as int)),
                        }
                    } else {
                        let k = choose|k: int| stands_at(before, name, k);
                        assert(stands_at(after, name, k));
                    }
                }
            }
            assert forall|name: Seq<char>| #[trigger] table(after).dom().contains(name) implies table(
                after,
            )[name] == table(before).insert(route@, processor)[name] by {
                let k = choose|k: int| stands_at(after, name, k);
                lemma_rule_is_in_table(after, k);
                if name != route@ {
                    assert(stands_at(before, name, k));
                    lemma_rule_is_in_table(before, k);
                } else {
                    let at = match place {
                        Some(i) => i as int,
                        None => before.len() as int,
                    };
                    assert(stands_at(after, name, at));
                    lemma_rule_is_in_table(after, at);
                }
            }
            assert(table(after) =~= table(before).insert(route@, processor));
        }
        core::mem::swap(&mut rules, &mut self.rules);
    }

    /// Answers the request: hands it to the handler registered under
    /// `route`, or, where nothing is registered under that name, has the
    /// failure told that this is a request for an action which is not
    /// known. No route is passed over in silence.
    pub fn dispatch(&self, route: &str, router_input: RouterInput) -> (output: RouterOutput)
        ensures
            self.answers(route@, router_input, output),
    {
        proof {
            use_type_invariant(self);
        }
        match self.find(route) {
            Some(i) => {
                proof {
                    lemma_rule_is_in_table(self.rules@, i as int);
                }
                let processor: &H = &self.rules[i].1;
                processor(router_input)
            },
            None => {
                proof {
                    assert(!self@.dom().contains(route@)) by {
                        if self@.dom().contains(route@) {
                            let k = choose|k: int| stands_at(self.rules@, route@, k);
                            assert(stands_at(self.rules@, route@, k));
                        }
                    }
                }
                let failure: ErrorModel = code_and_message(
                    ServiceErrorKind::ReqestForActionWhichEvelynDoesNotKnowHowToDo,
                );
                let ghost told = failure;
                let tell: &E = &self.unknown;
                let output: RouterOutput = tell(failure);
                proof {
                    assert(call_ensures(self.encoder(), (told,), output));
                }
                output
            },
        }
    }

    /// Answers the request as `dispatch` does. The answer is always there:
    /// a route that nothing is registered under gets the failure that says
    /// so, never `None`.
    pub fn route(&self, route: &str, router_input: RouterInput) -> (response: Option<RouterOutput>)
        ensures
            response matches Some(output) && self.answers(route@, router_input, output),
    {
        Some(self.dispatch(route, router_input))
    }
}

} // verus!
