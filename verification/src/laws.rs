use vstd::prelude::*;

use crate::session::Event;
use crate::session::Phase;
use crate::session::Session;
use crate::session::Target;

verus! {

/// The session a sequence of engine call outcomes leads to.
pub open spec fn spec_run(s: Session, es: Seq<Event>) -> Session
    decreases es.len(),
{
    if es.len() == 0 {
        s
    } else {
        spec_run(s.spec_step(es[0]), es.drop_first())
    }
}

/// The sequence of outcomes is one a driver that performs exactly the
/// calls the session asks for can observe: each event is of the kind
/// the session's phase at that point waits for.
pub open spec fn fits(s: Session, es: Seq<Event>) -> bool
    decreases es.len(),
{
    es.len() == 0 || (s.accepts(es[0]) && fits(s.spec_step(es[0]), es.drop_first()))
}

/// How often a run passes through a given phase: the number of engine
/// calls made while the session was in that phase.
pub open spec fn visits(s: Session, es: Seq<Event>, p: Phase) -> nat
    decreases es.len(),
{
    if es.len() == 0 {
        0
    } else {
        (if s.phase == p {
            1nat
        } else {
            0nat
        }) + visits(s.spec_step(es[0]), es.drop_first(), p)
    }
}

/// Well-formedness survives every accepted step, a failure already
/// recorded stays the reported one, and the bound on the calls still
/// to come strictly decreases.
pub proof fn lemma_step(s: Session, e: Event)
    requires
        s.inv(),
        s.accepts(e),
    ensures
        s.spec_step(e).inv(),
        s.failure is Some ==> s.spec_step(e).failure == s.failure,
        s.spec_step(e).steps_left() < s.steps_left(),
{
}

/// Well-formedness survives a whole run.
pub proof fn lemma_run_inv(s: Session, es: Seq<Event>)
    requires
        s.inv(),
        fits(s, es),
    ensures
        spec_run(s, es).inv(),
    decreases es.len(),
{
    if es.len() > 0 {
        lemma_step(s, es[0]);
        lemma_run_inv(s.spec_step(es[0]), es.drop_first());
    }
}

/// A render session makes a bounded number of engine calls: no fitting
/// run is longer than the session's remaining step bound, so a driver
/// that performs the calls the session asks for always terminates.
pub proof fn lemma_run_bounded(s: Session, es: Seq<Event>)
    requires
        s.inv(),
        fits(s, es),
    ensures
        es.len() <= s.steps_left(),
    decreases es.len(),
{
    if es.len() > 0 {
        lemma_step(s, es[0]);
        lemma_run_bounded(s.spec_step(es[0]), es.drop_first());
    }
}

/// A finished session holds no native resource: the rendering context,
/// the layout resources and the engine-owned output buffer have all
/// been released (or were never acquired) by the time the session
/// stops.  Together with the transition table this is the lifecycle
/// discipline: repeated construct/render/destroy cycles leak nothing.
pub proof fn lemma_finished_holds_no_resources(s: Session)
    requires
        s.phase is Finished,
    ensures
        !s.context_live(),
        !s.layout_live(),
        !s.engine_buffer_live(),
{
}

/// The first failure of a run is the one reported: whatever happens in
/// the remaining teardown steps, a failure already recorded when the
/// run continues is still the session's failure at the end.
pub proof fn lemma_first_failure_reported(s: Session, es: Seq<Event>)
    requires
        s.inv(),
        fits(s, es),
        s.failure is Some,
    ensures
        spec_run(s, es).failure == s.failure,
    decreases es.len(),
{
    if es.len() > 0 {
        lemma_step(s, es[0]);
        lemma_first_failure_reported(s.spec_step(es[0]), es.drop_first());
    }
}

/// Once the rendering context is acquired, every fitting run that
/// finishes releases it exactly once — no leak, no double free —
/// whatever mixture of successes and failures the engine reported on
/// the way.
pub proof fn lemma_context_released_exactly_once(s: Session, es: Seq<Event>)
    requires
        s.inv(),
        fits(s, es),
        s.context_live(),
        spec_run(s, es).phase is Finished,
    ensures
        visits(s, es, Phase::NeedContextFree) == 1,
    decreases es.len(),
{
    if es.len() == 0 {
        assert(spec_run(s, es) == s);
        assert(false);
    } else {
        let t = s.spec_step(es[0]);
        let rest = es.drop_first();
        lemma_step(s, es[0]);
        assert(spec_run(s, es) == spec_run(t, rest));
        if s.phase is NeedContextFree {
            assert(t.phase is Finished);
            lemma_run_bounded(t, rest);
            assert(rest.len() == 0);
            assert(visits(t, rest, Phase::NeedContextFree) == 0);
            assert(visits(s, es, Phase::NeedContextFree) == 1);
        } else {
            assert(t.context_live());
            lemma_context_released_exactly_once(t, rest);
            assert(visits(t, rest, Phase::NeedContextFree) == 1);
            assert(s.phase != Phase::NeedContextFree);
            assert(visits(s, es, Phase::NeedContextFree) == 1);
        }
    }
}

/// Once layout resources are attached to the graph, every fitting run
/// that finishes releases them exactly once, whatever the engine
/// reported on the way.
pub proof fn lemma_layout_released_exactly_once(s: Session, es: Seq<Event>)
    requires
        s.inv(),
        fits(s, es),
        s.layout_live(),
        spec_run(s, es).phase is Finished,
    ensures
        visits(s, es, Phase::NeedLayoutFree) == 1,
    decreases es.len(),
{
    if es.len() == 0 {
        assert(spec_run(s, es) == s);
        assert(false);
    } else {
        let t = s.spec_step(es[0]);
        let rest = es.drop_first();
        lemma_step(s, es[0]);
        assert(spec_run(s, es) == spec_run(t, rest));
        if s.phase is NeedLayoutFree {
            assert(!t.layout_live());
            lemma_layout_never_reattached(t, rest);
            assert(visits(s, es, Phase::NeedLayoutFree) == 1);
        } else {
            assert(t.layout_live());
            lemma_layout_released_exactly_once(t, rest);
            assert(s.phase != Phase::NeedLayoutFree);
            assert(visits(s, es, Phase::NeedLayoutFree) == 1);
        }
    }
}

/// Once the layout of a session is released it is never attached
/// again: no later step of the run passes through the release phase a
/// second time.
pub proof fn lemma_layout_never_reattached(s: Session, es: Seq<Event>)
    requires
        s.inv(),
        fits(s, es),
        !s.layout_live(),
        !(s.phase is NeedLayout),
        !(s.phase is NeedAttributes),
        !(s.phase is NeedContext),
    ensures
        visits(s, es, Phase::NeedLayoutFree) == 0,
    decreases es.len(),
{
    if es.len() > 0 {
        let t = s.spec_step(es[0]);
        lemma_step(s, es[0]);
        lemma_layout_never_reattached(t, es.drop_first());
    }
}

/// While the engine still owns an output buffer, every fitting run
/// that finishes releases it exactly once: the bytes are copied out,
/// the buffer is freed, and it is never freed again.
pub proof fn lemma_engine_buffer_freed_exactly_once(s: Session, es: Seq<Event>)
    requires
        s.inv(),
        fits(s, es),
        s.engine_buffer_live(),
        spec_run(s, es).phase is Finished,
    ensures
        visits(s, es, Phase::NeedDataFree) == 1,
    decreases es.len(),
{
    if es.len() == 0 {
        assert(spec_run(s, es) == s);
        assert(false);
    } else {
        let t = s.spec_step(es[0]);
        let rest = es.drop_first();
        lemma_step(s, es[0]);
        assert(spec_run(s, es) == spec_run(t, rest));
        assert(t.phase is NeedLayoutFree);
        lemma_no_more_data_frees(t, rest);
        assert(visits(s, es, Phase::NeedDataFree) == 1);
    }
}

/// After the engine-owned buffer has been released the run never asks
/// for that release again.
pub proof fn lemma_no_more_data_frees(s: Session, es: Seq<Event>)
    requires
        s.inv(),
        fits(s, es),
        !(s.phase is NeedDataFree),
        !(s.phase is NeedOutput),
        !(s.phase is NeedLayout),
        !(s.phase is NeedContext),
        !(s.phase is NeedAttributes),
    ensures
        visits(s, es, Phase::NeedDataFree) == 0,
    decreases es.len(),
{
    if es.len() > 0 {
        let t = s.spec_step(es[0]);
        lemma_step(s, es[0]);
        lemma_no_more_data_frees(t, es.drop_first());
    }
}

/// The engine call outcomes of an in-memory render in which every step
/// succeeds and the output step hands over `bytes`.
pub open spec fn memory_success_events(bytes: Vec<u8>) -> Seq<Event> {
    seq![
        Event::Pointer { null: false },
        Event::Status { code: 0 },
        Event::Output { status: 0, bytes },
        Event::Released,
        Event::Status { code: 0 },
        Event::Status { code: 0 },
    ]
}

/// The engine call outcomes of a render to a file in which every step
/// succeeds.
pub open spec fn file_success_events() -> Seq<Event> {
    seq![
        Event::Pointer { null: false },
        Event::Status { code: 0 },
        Event::Status { code: 0 },
        Event::Status { code: 0 },
        Event::Status { code: 0 },
    ]
}

/// A well-formed graph description renders: when the engine accepts
/// every step of an in-memory session, the session finishes with no
/// failure and returns exactly the bytes the engine produced.
pub proof fn lemma_memory_render_success(bytes: Vec<u8>)
    ensures
        fits(Session::spec_start(Target::Memory, false), memory_success_events(bytes)),
        spec_run(
            Session::spec_start(Target::Memory, false),
            memory_success_events(bytes),
        ).phase is Finished,
        spec_run(
            Session::spec_start(Target::Memory, false),
            memory_success_events(bytes),
        ).failure is None,
        spec_run(Session::spec_start(Target::Memory, false), memory_success_events(bytes)).output
            == Some(bytes),
{
    reveal_with_fuel(spec_run, 8);
    reveal_with_fuel(fits, 8);
    let s0 = Session::spec_start(Target::Memory, false);
    let e0 = memory_success_events(bytes);
    let e1 = e0.drop_first();
    let e2 = e1.drop_first();
    let e3 = e2.drop_first();
    let e4 = e3.drop_first();
    let e5 = e4.drop_first();
    let e6 = e5.drop_first();
    let s1 = s0.spec_step(e0[0]);
    let s2 = s1.spec_step(e1[0]);
    let s3 = s2.spec_step(e2[0]);
    let s4 = s3.spec_step(e3[0]);
    let s5 = s4.spec_step(e4[0]);
    let s6 = s5.spec_step(e5[0]);
    assert(s1.phase is NeedLayout);
    assert(s2.phase is NeedOutput);
    assert(s3.phase is NeedDataFree && s3.output == Some(bytes));
    assert(s4.phase is NeedLayoutFree);
    assert(s5.phase is NeedContextFree);
    assert(s6.phase is Finished && s6.failure is None && s6.output == Some(bytes));
    assert(e6.len() == 0);
    assert(fits(s6, e6));
    assert(fits(s0, e0));
    assert(spec_run(s0, e0) == s6);
}

/// A well-formed graph description renders to a file: when the engine
/// accepts every step of a file session, the session finishes with no
/// failure.
pub proof fn lemma_file_render_success()
    ensures
        fits(Session::spec_start(Target::File, false), file_success_events()),
        spec_run(Session::spec_start(Target::File, false), file_success_events()).phase
            is Finished,
        spec_run(Session::spec_start(Target::File, false), file_success_events()).failure is None,
{
    reveal_with_fuel(spec_run, 7);
    reveal_with_fuel(fits, 7);
    let s0 = Session::spec_start(Target::File, false);
    let e0 = file_success_events();
    let e1 = e0.drop_first();
    let e2 = e1.drop_first();
    let e3 = e2.drop_first();
    let e4 = e3.drop_first();
    let e5 = e4.drop_first();
    let s1 = s0.spec_step(e0[0]);
    let s2 = s1.spec_step(e1[0]);
    let s3 = s2.spec_step(e2[0]);
    let s4 = s3.spec_step(e3[0]);
    let s5 = s4.spec_step(e4[0]);
    assert(s1.phase is NeedLayout);
    assert(s2.phase is NeedOutput);
    assert(s3.phase is NeedLayoutFree);
    assert(s4.phase is NeedContextFree);
    assert(s5.phase is Finished && s5.failure is None);
    assert(e5.len() == 0);
    assert(fits(s5, e5));
    assert(fits(s0, e0));
    assert(spec_run(s0, e0) == s5);
}

/// Rendering the same graph twice gives structurally equal output: the
/// session's result is a function of the engine's responses alone, so
/// two independent sessions whose engines hand over equal bytes finish
/// with equal output.
pub proof fn lemma_repeated_render_equal(first: Vec<u8>, second: Vec<u8>)
    requires
        first == second,
    ensures
        spec_run(Session::spec_start(Target::Memory, false), memory_success_events(first)).output
            == spec_run(
            Session::spec_start(Target::Memory, false),
            memory_success_events(second),
        ).output,
{
    lemma_memory_render_success(first);
    lemma_memory_render_success(second);
}

} // verus!
