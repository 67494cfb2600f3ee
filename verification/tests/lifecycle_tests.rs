use frame_runner::constants::ConfigError;
use frame_runner::input::InputState;
use frame_runner::lifecycle::{Action, Event, FatalError, Phase, Runner};
use frame_runner::pipeline::{
    chain, device_request, draw, ChainConfig, ColorFormat, DeviceFeatures, PipelineConfig,
    PresentMode,
};
use frame_runner::scalar::Scalar;

fn s(v: f32) -> Scalar {
    Scalar::from_bits(v.to_bits())
}

fn granted() -> Event {
    Event::DeviceAcquired {
        granted: DeviceFeatures { push_constants: true, max_push_constant_size: 256 },
    }
}

fn bound(width: u32, height: u32) -> Runner {
    let mut r = Runner::new(ColorFormat::Bgra8UnormSrgb, width, height);
    assert_eq!(r.step(granted()), Action::LoadProgram);
    assert!(matches!(r.step(Event::ProgramLoaded), Action::BuildPipeline(_)));
    assert!(matches!(r.step(Event::PipelineBuilt), Action::BindSurface(_)));
    assert_eq!(r.phase, Phase::SurfaceBound);
    r
}

fn redraw(width: u32, height: u32, time: f32) -> Event {
    Event::RedrawRequested { width, height, time: s(time) }
}

#[test]
fn new_runner_has_nothing() {
    let r = Runner::new(ColorFormat::Bgra8UnormSrgb, 1280, 720);
    assert_eq!(r.phase, Phase::Uninitialized);
    assert_eq!(r.format, ColorFormat::Bgra8UnormSrgb);
    assert_eq!(r.chain_width, 1280);
    assert_eq!(r.chain_height, 720);
    assert_eq!(r.max_push_constant_size, 0);
    assert_eq!(r.input, InputState::new());
    assert!(!r.can_draw());
    assert!(!r.is_terminated());
}

#[test]
fn startup_walks_through_the_phases() {
    let mut r = Runner::new(ColorFormat::Bgra8UnormSrgb, 1280, 720);
    assert_eq!(r.step(granted()), Action::LoadProgram);
    assert_eq!(r.phase, Phase::DeviceReady);
    assert_eq!(r.max_push_constant_size, 256);
    assert_eq!(
        r.step(Event::ProgramLoaded),
        Action::BuildPipeline(PipelineConfig::new(ColorFormat::Bgra8UnormSrgb, 256).unwrap())
    );
    assert_eq!(r.phase, Phase::PipelineReady);
    assert!(!r.can_draw());
    assert_eq!(
        r.step(Event::PipelineBuilt),
        Action::BindSurface(ChainConfig {
            format: ColorFormat::Bgra8UnormSrgb,
            width: 1280,
            height: 720,
            present_mode: PresentMode::Mailbox,
        })
    );
    assert_eq!(r.phase, Phase::SurfaceBound);
    assert!(r.can_draw());
}

#[test]
fn adapter_is_asked_for_a_device_when_it_offers_enough() {
    let mut r = Runner::new(ColorFormat::Bgra8UnormSrgb, 1, 1);
    let before = r;
    let e = Event::AdapterFound {
        offered: DeviceFeatures { push_constants: true, max_push_constant_size: 4096 },
    };
    assert_eq!(r.step(e), Action::RequestDevice(device_request()));
    assert_eq!(r, before);
    assert_eq!(r.step(granted()), Action::LoadProgram);
}

#[test]
fn adapter_that_offers_too_little_is_fatal() {
    let mut r = Runner::new(ColorFormat::Bgra8UnormSrgb, 1, 1);
    let e = Event::AdapterFound {
        offered: DeviceFeatures { push_constants: true, max_push_constant_size: 128 },
    };
    assert_eq!(r.step(e), Action::Fail(FatalError::UnsupportedDevice));
    assert!(r.is_terminated());
    let mut r = Runner::new(ColorFormat::Bgra8UnormSrgb, 1, 1);
    let e = Event::AdapterFound {
        offered: DeviceFeatures { push_constants: false, max_push_constant_size: 256 },
    };
    assert_eq!(r.step(e), Action::Fail(FatalError::UnsupportedDevice));
    assert!(r.is_terminated());
}

#[test]
fn run_answers_every_event_in_order() {
    let mut r = Runner::new(ColorFormat::Bgra8UnormSrgb, 1280, 720);
    let events = [
        granted(),
        Event::ProgramLoaded,
        Event::PipelineBuilt,
        Event::MainEventsCleared,
        Event::Resized { width: 800, height: 600 },
        Event::MouseLeft { pressed: true },
        redraw(800, 600, 0.5),
        Event::Suspended,
        redraw(800, 600, 0.6),
        Event::CloseRequested,
        Event::Resumed,
    ];
    let mut single = r;
    let mut expected: Vec<Action> = Vec::new();
    for e in events {
        expected.push(single.step(e));
    }
    let actions = r.run(&events);
    assert_eq!(actions, expected);
    assert_eq!(r, single);
    assert_eq!(actions.len(), 11);
    assert_eq!(actions[0], Action::LoadProgram);
    assert_eq!(actions[3], Action::RequestRedraw);
    assert_eq!(
        actions[4],
        Action::RebuildChain(chain(ColorFormat::Bgra8UnormSrgb, 800, 600))
    );
    assert_eq!(actions[5], Action::Idle);
    assert!(matches!(actions[6], Action::Draw(cmd) if cmd.constants.mouse_left_clicked));
    assert_eq!(actions[7], Action::ReleaseSurface);
    assert_eq!(actions[8], Action::Idle);
    assert_eq!(actions[9], Action::Exit);
    assert_eq!(actions[10], Action::Idle);
    assert!(r.is_terminated());
}

#[test]
fn run_of_nothing_changes_nothing() {
    let mut r = bound(3, 4);
    let before = r;
    assert_eq!(r.run(&[]), Vec::<Action>::new());
    assert_eq!(r, before);
}

#[test]
fn missing_adapter_is_fatal() {
    let mut r = Runner::new(ColorFormat::Bgra8UnormSrgb, 1, 1);
    assert_eq!(r.step(Event::AdapterMissing), Action::Fail(FatalError::NoAdapter));
    assert!(r.is_terminated());
}

#[test]
fn refused_device_is_fatal() {
    let mut r = Runner::new(ColorFormat::Bgra8UnormSrgb, 1, 1);
    assert_eq!(r.step(Event::DeviceRefused), Action::Fail(FatalError::DeviceRefused));
    assert!(r.is_terminated());
}

#[test]
fn device_without_push_constants_is_fatal() {
    let mut r = Runner::new(ColorFormat::Bgra8UnormSrgb, 1, 1);
    let e = Event::DeviceAcquired {
        granted: DeviceFeatures { push_constants: false, max_push_constant_size: 256 },
    };
    assert_eq!(r.step(e), Action::Fail(FatalError::UnsupportedDevice));
    assert!(r.is_terminated());
    assert_eq!(r.max_push_constant_size, 0);
}

#[test]
fn device_with_small_capacity_is_fatal() {
    let mut r = Runner::new(ColorFormat::Bgra8UnormSrgb, 1, 1);
    let e = Event::DeviceAcquired {
        granted: DeviceFeatures { push_constants: true, max_push_constant_size: 255 },
    };
    assert_eq!(r.step(e), Action::Fail(FatalError::UnsupportedDevice));
    assert!(r.is_terminated());
}

#[test]
fn rejected_program_is_fatal() {
    let mut r = Runner::new(ColorFormat::Bgra8UnormSrgb, 1, 1);
    r.step(granted());
    assert_eq!(r.step(Event::ProgramRejected), Action::Fail(FatalError::ProgramRejected));
    assert!(r.is_terminated());
}

#[test]
fn pipeline_fails_fast_on_a_device_that_cannot_take_the_block() {
    let mut r = Runner::new(ColorFormat::Bgra8UnormSrgb, 1, 1);
    r.phase = Phase::DeviceReady;
    r.max_push_constant_size = 40;
    assert_eq!(
        r.step(Event::ProgramLoaded),
        Action::Fail(FatalError::Config(ConfigError::PushConstantsExceedLimit {
            required: 44,
            limit: 40,
        }))
    );
    assert!(r.is_terminated());
}

#[test]
fn startup_events_out_of_turn_change_nothing() {
    let mut r = Runner::new(ColorFormat::Bgra8UnormSrgb, 1, 1);
    let before = r;
    assert_eq!(r.step(Event::ProgramLoaded), Action::Idle);
    assert_eq!(r.step(Event::ProgramRejected), Action::Idle);
    assert_eq!(r.step(Event::PipelineBuilt), Action::Idle);
    assert_eq!(r.step(Event::Resumed), Action::Idle);
    assert_eq!(r.step(Event::Suspended), Action::Idle);
    assert_eq!(r.step(Event::FrameUnavailable), Action::Idle);
    assert_eq!(r.step(redraw(1, 1, 0.0)), Action::Idle);
    assert_eq!(r, before);

    let mut r = bound(10, 10);
    let before = r;
    assert_eq!(r.step(granted()), Action::Idle);
    assert_eq!(r.step(Event::AdapterMissing), Action::Idle);
    assert_eq!(r.step(Event::DeviceRefused), Action::Idle);
    assert_eq!(r.step(Event::ProgramLoaded), Action::Idle);
    assert_eq!(r.step(Event::ProgramRejected), Action::Idle);
    assert_eq!(r.step(Event::PipelineBuilt), Action::Idle);
    assert_eq!(r.step(Event::Other), Action::Idle);
    assert_eq!(r, before);
}

#[test]
fn surface_is_bound_only_once_the_pipeline_is_built() {
    let mut r = Runner::new(ColorFormat::Bgra8UnormSrgb, 1280, 720);
    r.step(granted());
    assert_eq!(r.step(Event::PipelineBuilt), Action::Idle);
    assert_eq!(r.phase, Phase::DeviceReady);
    r.step(Event::ProgramLoaded);
    let before = r;
    assert_eq!(r.step(Event::Resumed), Action::Idle);
    assert_eq!(r.step(Event::Suspended), Action::Idle);
    assert_eq!(r.step(redraw(1280, 720, 0.0)), Action::Idle);
    assert_eq!(r, before);
    assert_eq!(r.step(Event::Resized { width: 800, height: 600 }), Action::Idle);
    assert_eq!(
        r.step(Event::PipelineBuilt),
        Action::BindSurface(chain(ColorFormat::Bgra8UnormSrgb, 800, 600))
    );
    assert_eq!(r.phase, Phase::SurfaceBound);
    let mut detached = r;
    detached.step(Event::Suspended);
    assert_eq!(detached.step(Event::PipelineBuilt), Action::Idle);
    assert_eq!(detached.phase, Phase::SurfaceDetached);
}

#[test]
fn resize_rebuilds_the_chain_at_the_new_size() {
    let mut r = bound(1280, 720);
    let before = r;
    assert_eq!(
        r.step(Event::Resized { width: 800, height: 600 }),
        Action::RebuildChain(ChainConfig {
            format: ColorFormat::Bgra8UnormSrgb,
            width: 800,
            height: 600,
            present_mode: PresentMode::Mailbox,
        })
    );
    assert_eq!(r.chain_width, 800);
    assert_eq!(r.chain_height, 600);
    assert_eq!(r.phase, Phase::SurfaceBound);
    assert_eq!(r.format, before.format);
    assert_eq!(r.max_push_constant_size, before.max_push_constant_size);
    assert_eq!(r.input, before.input);
    assert!(matches!(r.step(redraw(800, 600, 1.0)), Action::Draw(_)));
}

#[test]
fn resize_while_detached_is_kept_for_the_resume() {
    let mut r = bound(1280, 720);
    assert_eq!(r.step(Event::Suspended), Action::ReleaseSurface);
    assert_eq!(r.step(Event::Resized { width: 640, height: 480 }), Action::Idle);
    assert_eq!(r.phase, Phase::SurfaceDetached);
    assert_eq!(
        r.step(Event::Resumed),
        Action::BindSurface(chain(ColorFormat::Bgra8UnormSrgb, 640, 480))
    );
}

#[test]
fn suspend_releases_and_resume_binds_again() {
    let mut r = bound(1280, 720);
    let before = r;
    assert_eq!(r.step(Event::Suspended), Action::ReleaseSurface);
    assert_eq!(r.phase, Phase::SurfaceDetached);
    assert!(!r.can_draw());
    assert_eq!(r.step(redraw(1280, 720, 1.0)), Action::Idle);
    assert_eq!(r.step(Event::Suspended), Action::Idle);
    assert_eq!(r.step(Event::FrameUnavailable), Action::Idle);
    assert_eq!(r.phase, Phase::SurfaceDetached);
    assert_eq!(
        r.step(Event::Resumed),
        Action::BindSurface(chain(ColorFormat::Bgra8UnormSrgb, 1280, 720))
    );
    assert_eq!(r, before);
    assert!(matches!(r.step(redraw(1280, 720, 2.0)), Action::Draw(_)));
}

#[test]
fn resume_while_bound_binds_a_fresh_surface() {
    let mut r = bound(1280, 720);
    assert_eq!(
        r.step(Event::Resumed),
        Action::BindSurface(chain(ColorFormat::Bgra8UnormSrgb, 1280, 720))
    );
    assert_eq!(r.phase, Phase::SurfaceBound);
}

#[test]
fn redraw_draws_the_trackers_block() {
    let mut r = bound(1280, 720);
    r.step(Event::CursorMoved { x: s(3.0), y: s(4.0) });
    r.step(Event::MouseLeft { pressed: true });
    r.step(Event::CursorMoved { x: s(30.0), y: s(40.0) });
    let mut tracker = InputState::new();
    tracker.cursor_moved(s(3.0), s(4.0));
    tracker.button(true);
    tracker.cursor_moved(s(30.0), s(40.0));
    assert_eq!(r.input, tracker);
    let expected = draw(tracker.constants(1000, 500, s(1.5)));
    assert_eq!(r.step(redraw(1000, 500, 1.5)), Action::Draw(expected));
    assert_eq!(expected.constants.width, 1000);
    assert_eq!(expected.constants.height, 500);
    assert_eq!(expected.constants.time, s(1.5));
    assert_eq!(expected.constants.drag_start_x, s(3.0));
    assert_eq!(expected.constants.drag_end_y, s(40.0));
    assert!(expected.constants.mouse_left_clicked);
    assert!(!r.input.mouse_left_clicked);
}

#[test]
fn click_is_drawn_once_per_press() {
    let mut r = bound(100, 100);
    let mut clicks: u32 = 0;
    let mut frames: u32 = 0;
    let events = [
        redraw(100, 100, 0.0),
        Event::MouseLeft { pressed: true },
        Event::MainEventsCleared,
        redraw(100, 100, 0.1),
        redraw(100, 100, 0.2),
        Event::MouseLeft { pressed: false },
        redraw(100, 100, 0.3),
        Event::MouseLeft { pressed: true },
        Event::MouseLeft { pressed: false },
        Event::MouseLeft { pressed: true },
        redraw(100, 100, 0.4),
        redraw(100, 100, 0.5),
    ];
    for e in events {
        if let Action::Draw(cmd) = r.step(e) {
            frames += 1;
            if cmd.constants.mouse_left_clicked {
                clicks += 1;
            }
        }
    }
    assert_eq!(frames, 6);
    assert_eq!(clicks, 2);
}

#[test]
fn click_waits_while_detached() {
    let mut r = bound(100, 100);
    r.step(Event::Suspended);
    r.step(Event::MouseLeft { pressed: true });
    assert_eq!(r.step(redraw(100, 100, 0.0)), Action::Idle);
    assert!(r.input.mouse_left_clicked);
    r.step(Event::Resumed);
    match r.step(redraw(100, 100, 0.1)) {
        Action::Draw(cmd) => assert!(cmd.constants.mouse_left_clicked),
        other => panic!("expected a draw, got {:?}", other),
    }
    match r.step(redraw(100, 100, 0.2)) {
        Action::Draw(cmd) => assert!(!cmd.constants.mouse_left_clicked),
        other => panic!("expected a draw, got {:?}", other),
    }
}

#[test]
fn main_events_cleared_requests_a_redraw() {
    let mut r = bound(100, 100);
    let before = r;
    assert_eq!(r.step(Event::MainEventsCleared), Action::RequestRedraw);
    assert_eq!(r, before);
    r.step(Event::Suspended);
    assert_eq!(r.step(Event::MainEventsCleared), Action::RequestRedraw);
}

#[test]
fn close_and_escape_terminate_from_every_phase() {
    let quits = [Event::CloseRequested, Event::EscapePressed];
    for q in quits {
        let mut r = Runner::new(ColorFormat::Bgra8UnormSrgb, 1, 1);
        assert_eq!(r.step(q), Action::Exit);
        assert!(r.is_terminated());

        let mut r = Runner::new(ColorFormat::Bgra8UnormSrgb, 1, 1);
        r.step(granted());
        assert_eq!(r.step(q), Action::Exit);
        assert!(r.is_terminated());

        let mut r = Runner::new(ColorFormat::Bgra8UnormSrgb, 1, 1);
        r.step(granted());
        r.step(Event::ProgramLoaded);
        assert_eq!(r.step(q), Action::Exit);
        assert!(r.is_terminated());

        let mut r = bound(1, 1);
        assert_eq!(r.step(q), Action::Exit);
        assert!(r.is_terminated());

        let mut r = bound(1, 1);
        r.step(Event::Suspended);
        assert_eq!(r.step(q), Action::Exit);
        assert!(r.is_terminated());
    }
}

#[test]
fn terminated_runner_ignores_everything() {
    let mut r = bound(100, 100);
    r.step(Event::CloseRequested);
    let before = r;
    let events = [
        granted(),
        Event::AdapterMissing,
        Event::AdapterFound {
            offered: DeviceFeatures { push_constants: true, max_push_constant_size: 256 },
        },
        Event::DeviceRefused,
        Event::ProgramLoaded,
        Event::ProgramRejected,
        Event::PipelineBuilt,
        Event::MainEventsCleared,
        Event::Resumed,
        Event::Suspended,
        Event::Resized { width: 5, height: 6 },
        redraw(5, 6, 1.0),
        Event::FrameUnavailable,
        Event::CloseRequested,
        Event::EscapePressed,
        Event::MouseLeft { pressed: true },
        Event::CursorMoved { x: s(1.0), y: s(2.0) },
        Event::Other,
    ];
    for e in events {
        assert_eq!(r.step(e), Action::Idle);
        assert_eq!(r, before);
    }
}

#[test]
fn failed_acquire_is_fatal_while_bound() {
    let mut r = bound(100, 100);
    assert!(matches!(r.step(redraw(100, 100, 0.0)), Action::Draw(_)));
    assert_eq!(r.step(Event::FrameUnavailable), Action::Fail(FatalError::FrameUnavailable));
    assert!(r.is_terminated());
}

#[test]
fn every_error_has_its_message() {
    assert_eq!(FatalError::NoAdapter.message(), "Failed to find an appropriate adapter");
    assert_eq!(FatalError::DeviceRefused.message(), "Failed to create device");
    assert_eq!(
        FatalError::UnsupportedDevice.message(),
        "Device lacks push constants of the required size"
    );
    assert_eq!(FatalError::ProgramRejected.message(), "Failed to load the shader program");
    assert_eq!(
        FatalError::Config(ConfigError::PushConstantsExceedLimit { required: 44, limit: 1 })
            .message(),
        "Shader constants exceed the push constant limit"
    );
    assert_eq!(
        FatalError::FrameUnavailable.message(),
        "Failed to acquire next swap chain texture"
    );
}
