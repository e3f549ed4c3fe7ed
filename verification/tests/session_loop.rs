use window_session::input::{Event, Key, KeyAction, Modifiers};
use window_session::policy::Action;
use window_session::resource::{Release, Resource, ResourceKind};
use window_session::session::{Phase, Session};
use window_session::window::{SessionError, Window};

/// What a driver did while it ran a session to its end.
struct Tally {
    polls: usize,
    renders: usize,
    shutdowns: usize,
    released: Vec<Release>,
}

/// Runs `session` as a driver would: one batch per poll (an empty one when
/// the batches have run out), one frame per iteration, which fails in the
/// iteration `fail_at` if there is one, and the shutdown at the end.
fn drive(session: &mut Session, batches: &[Vec<Event>], fail_at: Option<usize>, limit: usize) -> Tally {
    let mut tally = Tally { polls: 0, renders: 0, shutdowns: 0, released: Vec::new() };
    let mut steps = 0;
    while steps < limit {
        steps += 1;
        match session.phase() {
            Phase::Polling => {
                let empty: Vec<Event> = Vec::new();
                let batch = batches.get(tally.polls).unwrap_or(&empty);
                tally.polls += 1;
                session.process_events(batch);
            }
            Phase::Rendering => {
                let rendered = fail_at != Some(tally.renders);
                tally.renders += 1;
                session.render_frame(rendered);
            }
            Phase::Closing => {
                tally.shutdowns += 1;
                tally.released = session.shutdown();
            }
            Phase::Finished => break,
        }
    }
    tally
}

fn open_session() -> Session {
    let window = Window::initialize(800, 600, "T", true).unwrap();
    Session::new(window)
}

fn press(key: Key) -> Event {
    Event::key(key, KeyAction::Press)
}

#[test]
fn escape_press_closes_after_one_more_render() {
    let mut session = open_session();
    assert_eq!(session.phase(), Phase::Polling);
    assert!(session.should_continue());

    let actions = session.process_events(&[press(Key::Escape)]);
    assert_eq!(actions, vec![Action::RequestClose]);
    assert!(session.window().should_close());
    assert!(!session.should_continue());
    assert_eq!(session.phase(), Phase::Rendering);

    let tally = drive(&mut session, &[], None, 100);
    assert_eq!(tally.polls, 0);
    assert_eq!(tally.renders, 1);
    assert_eq!(tally.shutdowns, 1);
    assert_eq!(session.phase(), Phase::Finished);
    assert_eq!(session.failure(), None);
}

#[test]
fn other_key_press_keeps_the_loop_going() {
    let mut session = open_session();
    let actions = session.process_events(&[press(Key::A)]);
    assert_eq!(actions, vec![Action::Ignore]);
    assert!(!session.window().should_close());
    assert!(session.should_continue());
    assert_eq!(session.render_frame(true), Phase::Polling);
    assert_eq!(session.phase(), Phase::Polling);
}

#[test]
fn should_continue_is_false_right_after_the_events() {
    let mut session = open_session();
    session.process_events(&[press(Key::Escape)]);
    // before the frame and before any further poll
    assert!(!session.should_continue());
}

#[test]
fn escape_release_leaves_the_flag_alone() {
    let mut session = open_session();
    let actions = session.process_events(&[Event::key(Key::Escape, KeyAction::Release)]);
    assert_eq!(actions, vec![Action::Ignore]);
    assert!(!session.window().should_close());
    assert!(session.should_continue());
}

#[test]
fn empty_batch_still_renders_once() {
    let mut session = open_session();
    let actions = session.process_events(&[]);
    assert!(actions.is_empty());
    assert_eq!(session.phase(), Phase::Rendering);
    assert_eq!(session.render_frame(true), Phase::Polling);

    let mut session = open_session();
    let batches = vec![Vec::new(), Vec::new(), vec![press(Key::Escape)]];
    let tally = drive(&mut session, &batches, None, 100);
    assert_eq!(tally.polls, 3);
    assert_eq!(tally.renders, 3);
    assert_eq!(tally.shutdowns, 1);
}

#[test]
fn every_event_gets_one_action_in_arrival_order() {
    let mut session = open_session();
    let batch = vec![
        press(Key::A),
        press(Key::Escape),
        Event::Resized { width: 640, height: 480 },
        Event::key(Key::Escape, KeyAction::Repeat),
        press(Key::Escape),
        Event::CloseRequested,
    ];
    let actions = session.process_events(&batch);
    assert_eq!(
        actions,
        vec![
            Action::Ignore,
            Action::RequestClose,
            Action::Ignore,
            Action::Ignore,
            Action::RequestClose,
            Action::Ignore,
        ]
    );
    assert!(session.window().should_close());
}

#[test]
fn close_flag_is_never_reset() {
    let mut session = open_session();
    session.process_events(&[press(Key::Escape)]);
    assert!(session.window().should_close());
    session.request_close();
    assert!(session.window().should_close());
    session.acquire(Resource { kind: ResourceKind::Buffer, name: 9 });
    assert!(session.window().should_close());
    assert_eq!(session.render_frame(true), Phase::Closing);
    assert!(session.window().should_close());
    session.shutdown();
    assert!(session.window().should_close());
    session.request_close();
    assert!(session.window().should_close());
    assert_eq!(session.phase(), Phase::Finished);
}

#[test]
fn close_request_is_noticed_after_the_frame() {
    let mut session = open_session();
    session.request_close();
    assert_eq!(session.phase(), Phase::Polling);
    assert!(!session.should_continue());
    let tally = drive(&mut session, &[vec![press(Key::A)]], None, 100);
    assert_eq!(tally.polls, 1);
    assert_eq!(tally.renders, 1);
    assert_eq!(tally.shutdowns, 1);
}

#[test]
fn window_closed_before_the_loop_skips_it() {
    let mut window = Window::initialize(800, 600, "T", true).unwrap();
    window.request_close();
    let mut session = Session::new(window);
    assert_eq!(session.phase(), Phase::Closing);
    let tally = drive(&mut session, &[], None, 100);
    assert_eq!(tally.polls, 0);
    assert_eq!(tally.renders, 0);
    assert_eq!(tally.shutdowns, 1);
}

#[test]
fn failed_frame_ends_the_loop_and_still_shuts_down() {
    let mut session = open_session();
    let batches = vec![vec![press(Key::A)], vec![press(Key::B)], vec![press(Key::C)]];
    let tally = drive(&mut session, &batches, Some(1), 100);
    assert_eq!(tally.polls, 2);
    assert_eq!(tally.renders, 2);
    assert_eq!(tally.shutdowns, 1);
    assert_eq!(session.phase(), Phase::Finished);
    assert_eq!(session.failure(), Some(SessionError::Render));
    assert!(!session.window().should_close());
}

#[test]
fn frame_outcome_decides_the_next_phase() {
    let mut session = open_session();
    session.process_events(&[]);
    assert_eq!(session.render_frame(false), Phase::Closing);
    assert_eq!(session.failure(), Some(SessionError::Render));

    let mut session = open_session();
    session.process_events(&[press(Key::Escape)]);
    assert_eq!(session.render_frame(false), Phase::Closing);
    assert_eq!(session.failure(), Some(SessionError::Render));

    let mut session = open_session();
    session.process_events(&[]);
    assert_eq!(session.render_frame(true), Phase::Polling);
    assert_eq!(session.failure(), None);
}

#[test]
fn shutdown_releases_in_reverse_order_of_acquisition() {
    let vs = Resource { kind: ResourceKind::Shader, name: 1 };
    let fs = Resource { kind: ResourceKind::Shader, name: 2 };
    let program = Resource { kind: ResourceKind::Program, name: 3 };
    let vao = Resource { kind: ResourceKind::VertexArray, name: 1 };
    let vbo = Resource { kind: ResourceKind::Buffer, name: 1 };
    let mut session = open_session();
    for resource in [vs, fs, program, vao, vbo] {
        session.acquire(resource);
    }
    let tally = drive(&mut session, &[vec![press(Key::Escape)]], None, 100);
    assert_eq!(tally.shutdowns, 1);
    assert_eq!(
        tally.released,
        vec![
            Release::Graphics(vbo),
            Release::Graphics(vao),
            Release::Graphics(program),
            Release::Graphics(fs),
            Release::Graphics(vs),
            Release::Context,
            Release::Window,
        ]
    );
}

#[test]
fn shutdown_with_nothing_acquired_releases_context_then_window() {
    let mut session = open_session();
    session.process_events(&[press(Key::Escape)]);
    session.render_frame(true);
    assert_eq!(session.shutdown(), vec![Release::Context, Release::Window]);
    assert_eq!(session.phase(), Phase::Finished);
}

#[test]
fn modifiers_and_scancode_do_not_matter() {
    let held = Modifiers {
        shift: true,
        control: true,
        alt: false,
        super_key: true,
        caps_lock: false,
        num_lock: true,
    };
    let mut session = open_session();
    let actions = session.process_events(&[Event::Key {
        key: Key::Escape,
        scancode: 9,
        action: KeyAction::Press,
        modifiers: held,
    }]);
    assert_eq!(actions, vec![Action::RequestClose]);
    assert!(!session.should_continue());
}

#[test]
fn long_session_renders_once_per_batch() {
    let mut session = open_session();
    let mut batches: Vec<Vec<Event>> = Vec::new();
    for i in 0..50 {
        if i % 3 == 0 {
            batches.push(Vec::new());
        } else {
            batches.push(vec![press(Key::W), Event::key(Key::W, KeyAction::Release)]);
        }
    }
    batches.push(vec![press(Key::Escape), press(Key::Escape)]);
    batches.push(vec![press(Key::A)]);
    let tally = drive(&mut session, &batches, None, 1000);
    assert_eq!(tally.polls, 51);
    assert_eq!(tally.renders, 51);
    assert_eq!(tally.shutdowns, 1);
    assert_eq!(session.phase(), Phase::Finished);
}
