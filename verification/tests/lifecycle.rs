use cgraph::Action;
use cgraph::Event;
use cgraph::RenderError;
use cgraph::Session;
use cgraph::Target;
use cgraph::validate_graph_text;

/// Feeds the events to the session in order, recording the action the
/// session asked for before each one, and checks that the session asks
/// for nothing more afterwards.
fn drive(mut session: Session, events: Vec<Event>) -> (Session, Vec<Action>) {
    let mut actions: Vec<Action> = Vec::new();
    for event in events {
        actions.push(session.next_action());
        session = session.step(event);
    }
    assert_eq!(session.next_action(), Action::Stop);
    (session, actions)
}

fn all_success_memory(bytes: Vec<u8>) -> Vec<Event> {
    vec![
        Event::Pointer { null: false },
        Event::Status { code: 0 },
        Event::Output { status: 0, bytes },
        Event::Released,
        Event::Status { code: 0 },
        Event::Status { code: 0 },
    ]
}

#[test]
fn memory_render_success_returns_engine_bytes() {
    let svg: Vec<u8> = b"<?xml version=\"1.0\"?><svg>A B</svg>".to_vec();
    let session = Session::start(Target::Memory, false);
    let (session, actions) = drive(session, all_success_memory(svg.clone()));
    assert_eq!(
        actions,
        vec![
            Action::AcquireContext,
            Action::ComputeLayout,
            Action::ProduceOutput,
            Action::FreeEngineData,
            Action::FreeLayout,
            Action::FreeContext,
        ]
    );
    assert_eq!(session.finish_memory(), Ok(svg));
}

#[test]
fn file_render_success_confirms_write() {
    let session = Session::start(Target::File, false);
    let events = vec![
        Event::Pointer { null: false },
        Event::Status { code: 0 },
        Event::Status { code: 0 },
        Event::Status { code: 0 },
        Event::Status { code: 0 },
    ];
    let (session, actions) = drive(session, events);
    assert_eq!(
        actions,
        vec![
            Action::AcquireContext,
            Action::ComputeLayout,
            Action::ProduceOutput,
            Action::FreeLayout,
            Action::FreeContext,
        ]
    );
    assert_eq!(session.finish_file(), Ok(()));
}

#[test]
fn attribute_seeding_registers_three_namespaces() {
    let svg: Vec<u8> = b"<svg/>".to_vec();
    let session = Session::start(Target::Memory, true);
    let mut events = vec![
        Event::Pointer { null: false },
        Event::Pointer { null: false },
        Event::Pointer { null: false },
    ];
    events.extend(all_success_memory(svg.clone()));
    let (session, actions) = drive(session, events);
    assert_eq!(
        &actions[..4],
        &[
            Action::SeedAttribute,
            Action::SeedAttribute,
            Action::SeedAttribute,
            Action::AcquireContext,
        ]
    );
    assert_eq!(session.finish_memory(), Ok(svg));
}

#[test]
fn attribute_seeding_failure_attempts_no_layout() {
    let session = Session::start(Target::Memory, true);
    let events = vec![Event::Pointer { null: false }, Event::Pointer { null: true }];
    let (session, actions) = drive(session, events);
    assert_eq!(actions, vec![Action::SeedAttribute, Action::SeedAttribute]);
    assert_eq!(session.finish_memory(), Err(RenderError::AgAttr));
}

#[test]
fn null_context_stops_everything() {
    let session = Session::start(Target::Memory, false);
    let (session, actions) = drive(session, vec![Event::Pointer { null: true }]);
    assert_eq!(actions, vec![Action::AcquireContext]);
    assert_eq!(session.finish_memory(), Err(RenderError::ContextNull));
}

#[test]
fn layout_failure_still_releases_context() {
    let session = Session::start(Target::File, false);
    let events = vec![
        Event::Pointer { null: false },
        Event::Status { code: 5 },
        Event::Status { code: 0 },
    ];
    let (session, actions) = drive(session, events);
    assert_eq!(
        actions,
        vec![Action::AcquireContext, Action::ComputeLayout, Action::FreeContext]
    );
    assert_eq!(session.finish_file(), Err(RenderError::GvLayout(5)));
}

#[test]
fn memory_render_failure_releases_layout_and_context() {
    let session = Session::start(Target::Memory, false);
    let events = vec![
        Event::Pointer { null: false },
        Event::Status { code: 0 },
        Event::Output { status: 3, bytes: Vec::new() },
        Event::Status { code: 0 },
        Event::Status { code: 0 },
    ];
    let (session, actions) = drive(session, events);
    assert_eq!(
        actions,
        vec![
            Action::AcquireContext,
            Action::ComputeLayout,
            Action::ProduceOutput,
            Action::FreeLayout,
            Action::FreeContext,
        ]
    );
    assert_eq!(session.finish_memory(), Err(RenderError::GvRenderFilename(3)));
}

#[test]
fn file_render_failure_reports_native_code() {
    let session = Session::start(Target::File, false);
    let events = vec![
        Event::Pointer { null: false },
        Event::Status { code: 0 },
        Event::Status { code: 11 },
        Event::Status { code: 0 },
        Event::Status { code: 0 },
    ];
    let (session, _) = drive(session, events);
    assert_eq!(session.finish_file(), Err(RenderError::GvRenderFilename(11)));
}

#[test]
fn layout_release_failure_reports_native_code() {
    let session = Session::start(Target::File, false);
    let events = vec![
        Event::Pointer { null: false },
        Event::Status { code: 0 },
        Event::Status { code: 0 },
        Event::Status { code: 4 },
        Event::Status { code: 0 },
    ];
    let (session, actions) = drive(session, events);
    assert_eq!(*actions.last().unwrap(), Action::FreeContext);
    assert_eq!(session.finish_file(), Err(RenderError::GvFreeLayout(4)));
}

#[test]
fn context_release_failure_reports_native_code() {
    let svg: Vec<u8> = b"<svg/>".to_vec();
    let session = Session::start(Target::Memory, false);
    let events = vec![
        Event::Pointer { null: false },
        Event::Status { code: 0 },
        Event::Output { status: 0, bytes: svg },
        Event::Released,
        Event::Status { code: 0 },
        Event::Status { code: 6 },
    ];
    let (session, _) = drive(session, events);
    assert_eq!(session.finish_memory(), Err(RenderError::GvFreeContext(6)));
}

#[test]
fn first_failure_is_the_one_reported() {
    let session = Session::start(Target::File, false);
    let events = vec![
        Event::Pointer { null: false },
        Event::Status { code: 2 },
        Event::Status { code: 9 },
    ];
    let (session, _) = drive(session, events);
    assert_eq!(session.finish_file(), Err(RenderError::GvLayout(2)));
}

#[test]
fn digraph_scenario_renders_nonempty_svg() {
    let text: Vec<u8> = b"digraph testgraph { A -> B }".to_vec();
    assert_eq!(validate_graph_text(&text), Ok(()));
    let svg: Vec<u8> = b"<?xml version=\"1.0\"?><svg><title>A</title><title>B</title></svg>".to_vec();
    let session = Session::start(Target::Memory, false);
    let (session, _) = drive(session, all_success_memory(svg.clone()));
    let rendered = session.finish_memory().unwrap();
    assert!(!rendered.is_empty());
    assert_eq!(rendered, svg);
}

#[test]
fn repeated_render_cycles_reach_stop_every_time() {
    for _ in 0..10 {
        let text: Vec<u8> = b"graph testgraph {\n\n}".to_vec();
        assert_eq!(validate_graph_text(&text), Ok(()));
        let svg: Vec<u8> = b"<?xml version=\"1.0\"?><svg/>".to_vec();
        let session = Session::start(Target::Memory, false);
        let (session, actions) = drive(session, all_success_memory(svg.clone()));
        assert_eq!(actions.len(), 6);
        let rendered = session.finish_memory().unwrap();
        let s = String::from_utf8(rendered).unwrap();
        drop(s);
    }
}

#[test]
fn two_renders_of_equal_responses_are_equal() {
    let svg: Vec<u8> = b"<?xml version=\"1.0\"?><svg/>".to_vec();
    let first = Session::start(Target::Memory, false);
    let (first, _) = drive(first, all_success_memory(svg.clone()));
    let second = Session::start(Target::Memory, false);
    let (second, _) = drive(second, all_success_memory(svg.clone()));
    assert_eq!(first.finish_memory(), second.finish_memory());
}
