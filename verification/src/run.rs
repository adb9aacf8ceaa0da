//! Whole runs of a request: which native calls it asks for, in which order,
//! and how it ends, whatever the hypervisor holds.

use crate::connection::{listed, LIST_ALL_FLAGS};
use crate::domain::{reported_name, RawDomainInfo};
use crate::error::{Error, QueryError};
use crate::message::{empty_info, Instruction};
use crate::protocol::{
    call_of, initial, inspected_reply, next, performed, plain_reply, serve_call, Call,
    DispatchView, EventView, Goal, Phase, ProgressView, ReplyView, ResponseView,
};
use vstd::prelude::*;

verus! {

/// A run of a request: the calls that it asked for, and where it stands.
pub struct RunView {
    pub calls: Seq<Call>,
    pub end: ProgressView,
}

/// The run of a request over a sequence of events, each taken as what the
/// call that was due returned. A request that has come to its end asks for
/// nothing more and stays there.
pub open spec fn run(session: usize, d: DispatchView, events: Seq<EventView>) -> RunView
    decreases events.len(),
{
    if events.len() == 0 {
        RunView { calls: Seq::empty(), end: ProgressView::Pending(d) }
    } else {
        match next(d, events.first()) {
            ProgressView::Pending(then) => {
                let rest = run(session, then, events.drop_first());
                RunView { calls: seq![call_of(session, d)] + rest.calls, end: rest.end }
            },
            ProgressView::Finished(reply) => RunView {
                calls: seq![call_of(session, d)],
                end: ProgressView::Finished(reply),
            },
        }
    }
}

/// Position of the first of `names`, at or after `from`, that reads as
/// `wanted`; the length of `names` where none does.
pub open spec fn match_from(names: Seq<Option<Seq<u8>>>, wanted: Seq<char>, from: int) -> int
    decreases names.len() - from,
{
    if 0 <= from < names.len() && reported_name(names[from]) != wanted {
        match_from(names, wanted, from + 1)
    } else {
        from
    }
}

/// The events by which the name calls on the listed domains at the
/// positions from `from` up to, not including, `to` are answered, where
/// `names` holds what the name call returns for each listed domain.
pub open spec fn named(names: Seq<Option<Seq<u8>>>, from: int, to: int) -> Seq<EventView> {
    Seq::new((to - from) as nat, |i: int| EventView::Named { name: names[from + i] })
}

/// The name calls on the domains at the positions from `from` up to, not
/// including, `to`.
pub open spec fn name_calls(domains: Seq<usize>, from: int, to: int) -> Seq<Call> {
    Seq::new((to - from) as nat, |i: int| Call::GetName { domain: domains[from + i] })
}

/// `match_from` finds the first match: no name before it reads as `wanted`,
/// and the name at it does, where it lies inside `names`.
pub proof fn lemma_match_from(names: Seq<Option<Seq<u8>>>, wanted: Seq<char>, from: int)
    requires
        0 <= from <= names.len(),
    ensures
        from <= match_from(names, wanted, from) <= names.len(),
        forall|i: int|
            from <= i < match_from(names, wanted, from) ==> reported_name(#[trigger] names[i])
                != wanted,
        match_from(names, wanted, from) < names.len() ==> reported_name(
            names[match_from(names, wanted, from)],
        ) == wanted,
    decreases names.len() - from,
{
    if from < names.len() && reported_name(names[from]) != wanted {
        lemma_match_from(names, wanted, from + 1);
    }
}

/// The scan by name. A request that waits for the name of the domain at
/// `from` asks for the names of the listed domains in their order, up to the
/// first that reads as the wanted name, and for no name behind it. It then
/// goes on to serve that domain; where no name matches, it ends with
/// `NotFound`, having kept every listed domain for release. `rest` is what
/// happens afterwards.
pub proof fn lemma_scan(
    session: usize,
    d: DispatchView,
    names: Seq<Option<Seq<u8>>>,
    from: int,
    rest: Seq<EventView>,
)
    requires
        d.phase == Phase::Naming(from as usize),
        0 <= from < names.len(),
        names.len() == d.domains.len(),
        d.domains.len() <= usize::MAX,
    ensures
        ({
            let hit = match_from(names, d.wanted, from);
            if hit < names.len() {
                let found = DispatchView { phase: Phase::Serving(hit as usize), ..d };
                let after = run(session, found, rest);
                run(session, d, named(names, from, hit + 1) + rest) == (RunView {
                    calls: name_calls(d.domains, from, hit + 1) + after.calls,
                    end: after.end,
                })
            } else {
                run(session, d, named(names, from, hit) + rest) == (RunView {
                    calls: name_calls(d.domains, from, hit),
                    end: ProgressView::Finished(
                        plain_reply(d.goal, Err(Error::NotFound), d.domains),
                    ),
                })
            }
        }),
    decreases names.len() - from,
{
    lemma_match_from(names, d.wanted, from);
    let hit = match_from(names, d.wanted, from);
    if reported_name(names[from]) == d.wanted {
        let events = named(names, from, from + 1) + rest;
        assert(events.drop_first() =~= rest);
        assert(name_calls(d.domains, from, from + 1) =~= seq![call_of(session, d)]);
    } else {
        if from + 1 < names.len() {
            let then = DispatchView { phase: Phase::Naming((from + 1) as usize), ..d };
            lemma_scan(session, then, names, from + 1, rest);
            if hit < names.len() {
                let events = named(names, from, hit + 1) + rest;
                assert(events.drop_first() =~= named(names, from + 1, hit + 1) + rest);
                let found = DispatchView { phase: Phase::Serving(hit as usize), ..d };
                assert(seq![call_of(session, d)] + (name_calls(d.domains, from + 1, hit + 1)
                    + run(session, found, rest).calls) =~= name_calls(d.domains, from, hit + 1)
                    + run(session, found, rest).calls);
            } else {
                let events = named(names, from, hit) + rest;
                assert(events.drop_first() =~= named(names, from + 1, hit) + rest);
                assert(name_calls(d.domains, from, hit) =~= seq![call_of(session, d)]
                    + name_calls(d.domains, from + 1, hit));
            }
        } else {
            assert(name_calls(d.domains, from, hit) =~= seq![call_of(session, d)]);
        }
    }
}

/// A run of one event asks for the call that was due and ends where the
/// step on that event ends.
proof fn lemma_run_one(session: usize, d: DispatchView, event: EventView)
    ensures
        run(session, d, seq![event]) == (RunView {
            calls: seq![call_of(session, d)],
            end: next(d, event),
        }),
{
    let events = seq![event];
    assert(events.first() == event);
    match next(d, event) {
        ProgressView::Pending(then) => {
            assert(run(session, then, events.drop_first()).calls =~= Seq::<Call>::empty());
        },
        ProgressView::Finished(_) => {},
    }
}

/// A request from its begin up to the answer of the call that serves it.
proof fn lemma_request(
    session: usize,
    goal: Goal,
    wanted: Seq<char>,
    count: i32,
    entries: Seq<usize>,
    names: Seq<Option<Seq<u8>>>,
    answer: EventView,
)
    requires
        count >= 0,
        names.len() == listed(count, entries).len(),
        names.len() <= usize::MAX,
    ensures
        ({
            let domains = listed(count, entries);
            let hit = match_from(names, wanted, 0);
            let listing = seq![EventView::Listed { count, entries }];
            let list_call = seq![Call::ListAllDomains { session, flags: LIST_ALL_FLAGS }];
            if hit < names.len() {
                let found = DispatchView {
                    goal,
                    wanted,
                    domains,
                    phase: Phase::Serving(hit as usize),
                };
                run(session, initial(goal, wanted), listing + named(names, 0, hit + 1) + seq![answer])
                    == (RunView {
                    calls: list_call + name_calls(domains, 0, hit + 1) + seq![
                        serve_call(goal, domains[hit]),
                    ],
                    end: next(found, answer),
                })
            } else {
                run(session, initial(goal, wanted), listing + named(names, 0, hit)) == (RunView {
                    calls: list_call + name_calls(domains, 0, hit),
                    end: ProgressView::Finished(plain_reply(goal, Err(Error::NotFound), domains)),
                })
            }
        }),
{
    let domains = listed(count, entries);
    let begin = initial(goal, wanted);
    let hit = match_from(names, wanted, 0);
    let listing = seq![EventView::Listed { count, entries }];
    let list_call = seq![Call::ListAllDomains { session, flags: LIST_ALL_FLAGS }];
    lemma_match_from(names, wanted, 0);
    if names.len() > 0 {
        let first = DispatchView { goal, wanted, domains, phase: Phase::Naming(0) };
        if hit < names.len() {
            let found = DispatchView { phase: Phase::Serving(hit as usize), ..first };
            let rest = seq![answer];
            lemma_scan(session, first, names, 0, rest);
            let events = listing + named(names, 0, hit + 1) + rest;
            assert(events.drop_first() =~= named(names, 0, hit + 1) + rest);
            lemma_run_one(session, found, answer);
            let after = run(session, found, rest);
            assert(seq![call_of(session, begin)] + (name_calls(domains, 0, hit + 1) + after.calls)
                =~= list_call + name_calls(domains, 0, hit + 1) + seq![
                serve_call(goal, domains[hit]),
            ]);
        } else {
            let rest = Seq::<EventView>::empty();
            lemma_scan(session, first, names, 0, rest);
            let events = listing + named(names, 0, hit);
            assert(events.drop_first() =~= named(names, 0, hit) + rest);
        }
    }
}

/// A control request from its begin to its end, against a session whose
/// enumeration returns `count` and `entries` and whose listed domains bear
/// `names`.
///
/// It asks for the enumeration, for the names of the listed domains up to
/// the first that reads as the wanted name, and then for the one lifecycle
/// call of its instruction, on that domain and on no other. The reply is
/// the acknowledgment whatever `status` that call returns; the outcome tells
/// whether it failed. Where no name matches, no lifecycle call is asked for,
/// and the reply is the acknowledgment with the outcome `NotFound`. Either
/// way the reply hands on every listed domain.
pub proof fn lemma_control_run(
    session: usize,
    instruction: Instruction,
    wanted: Seq<char>,
    count: i32,
    entries: Seq<usize>,
    names: Seq<Option<Seq<u8>>>,
    status: i32,
)
    requires
        count >= 0,
        names.len() == listed(count, entries).len(),
        names.len() <= usize::MAX,
    ensures
        ({
            let goal = Goal::Control(instruction);
            let domains = listed(count, entries);
            let hit = match_from(names, wanted, 0);
            let listing = seq![EventView::Listed { count, entries }];
            let list_call = seq![Call::ListAllDomains { session, flags: LIST_ALL_FLAGS }];
            if hit < names.len() {
                run(
                    session,
                    initial(goal, wanted),
                    listing + named(names, 0, hit + 1) + seq![EventView::Performed { status }],
                ) == (RunView {
                    calls: list_call + name_calls(domains, 0, hit + 1) + seq![
                        serve_call(goal, domains[hit]),
                    ],
                    end: ProgressView::Finished(
                        plain_reply(goal, performed(instruction, status), domains),
                    ),
                })
            } else {
                run(session, initial(goal, wanted), listing + named(names, 0, hit)) == (RunView {
                    calls: list_call + name_calls(domains, 0, hit),
                    end: ProgressView::Finished(plain_reply(goal, Err(Error::NotFound), domains)),
                })
            }
        }),
{
    lemma_request(
        session,
        Goal::Control(instruction),
        wanted,
        count,
        entries,
        names,
        EventView::Performed { status },
    );
}

/// An info request from its begin to its end, against a session whose
/// enumeration returns `count` and `entries` and whose listed domains bear
/// `names`.
///
/// It asks for the enumeration, for the names of the listed domains up to
/// the first that reads as the wanted name, and then for the state of that
/// domain. The reply reports the snapshot, or the empty state with the
/// failure as the outcome where the info call fails. Where no name matches,
/// the reply is the empty state with the outcome `NotFound`.
pub proof fn lemma_info_run(
    session: usize,
    wanted: Seq<char>,
    count: i32,
    entries: Seq<usize>,
    names: Seq<Option<Seq<u8>>>,
    status: i32,
    raw: RawDomainInfo,
)
    requires
        count >= 0,
        names.len() == listed(count, entries).len(),
        names.len() <= usize::MAX,
    ensures
        ({
            let domains = listed(count, entries);
            let hit = match_from(names, wanted, 0);
            let listing = seq![EventView::Listed { count, entries }];
            let list_call = seq![Call::ListAllDomains { session, flags: LIST_ALL_FLAGS }];
            if hit < names.len() {
                run(
                    session,
                    initial(Goal::Info, wanted),
                    listing + named(names, 0, hit + 1) + seq![EventView::Inspected { status, raw }],
                ) == (RunView {
                    calls: list_call + name_calls(domains, 0, hit + 1) + seq![
                        Call::GetInfo { domain: domains[hit] },
                    ],
                    end: ProgressView::Finished(inspected_reply(status, raw, domains)),
                })
            } else {
                run(session, initial(Goal::Info, wanted), listing + named(names, 0, hit))
                    == (RunView {
                    calls: list_call + name_calls(domains, 0, hit),
                    end: ProgressView::Finished(
                        ReplyView {
                            response: ResponseView::Info(empty_info()),
                            outcome: Err(Error::NotFound),
                            domains,
                        },
                    ),
                })
            }
        }),
{
    lemma_request(
        session,
        Goal::Info,
        wanted,
        count,
        entries,
        names,
        EventView::Inspected { status, raw },
    );
}

/// A request whose enumeration fails asks for nothing more: it ends with the
/// plain reply, the failure as its outcome, and owns no domain.
pub proof fn lemma_listing_fails(
    session: usize,
    goal: Goal,
    wanted: Seq<char>,
    count: i32,
    entries: Seq<usize>,
)
    requires
        count < 0,
    ensures
        run(session, initial(goal, wanted), seq![EventView::Listed { count, entries }])
            == (RunView {
            calls: seq![Call::ListAllDomains { session, flags: LIST_ALL_FLAGS }],
            end: ProgressView::Finished(
                plain_reply(goal, Err(Error::Query(QueryError::ListDomains)), Seq::empty()),
            ),
        }),
{
    let events = seq![EventView::Listed { count, entries }];
}

/// Where a listed domain bears the wanted name, the scan ends on a domain
/// that bears it, at or before that one. So a domain that was defined under
/// a name and is listed under it is found by that name.
pub proof fn lemma_named_domain_is_found(
    names: Seq<Option<Seq<u8>>>,
    wanted: Seq<char>,
    position: int,
)
    requires
        0 <= position < names.len(),
        reported_name(names[position]) == wanted,
    ensures
        0 <= match_from(names, wanted, 0) <= position,
        reported_name(names[match_from(names, wanted, 0)]) == wanted,
{
    lemma_match_from(names, wanted, 0);
}

} // verus!
