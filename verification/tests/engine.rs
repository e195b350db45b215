use litterbox::grid::GridDimensions;
use litterbox::input::{update_input_state, AutomataParams};
use litterbox::pipeline::automata::{
    prepare_automata_bind_group, GameOfLifeImageBindGroup, GameOfLifeNode, GameOfLifeState,
};
use litterbox::pipeline::color::{
    prepare_color_bind_group, AutomataColorBindGroups, AutomataColorNode, AutomataColorState,
};
use litterbox::pipeline::{
    CompilationError, CompileStatus, Dispatch, EntryPoint, Resource, ShaderProgram,
};
use litterbox::{BindGroups, GameOfLifeComputePlugin, Polls, Stage};

fn ready() -> Polls {
    Polls { init: CompileStatus::Ready, update: CompileStatus::Ready, color: CompileStatus::Ready }
}

fn pending() -> Polls {
    Polls {
        init: CompileStatus::Pending,
        update: CompileStatus::Pending,
        color: CompileStatus::Pending,
    }
}

fn steady(width: u32, height: u32) -> GameOfLifeComputePlugin {
    GameOfLifeComputePlugin {
        dims: GridDimensions { width, height },
        automata: GameOfLifeNode { state: GameOfLifeState::Update, seeded: true },
        color: AutomataColorNode { state: AutomataColorState::Update },
        bind_groups: None,
    }
}

fn update_over(width: u32, height: u32) -> Option<Dispatch> {
    Some(Dispatch { entry_point: EntryPoint::Update, workgroups: (width / 8, height / 8, 1) })
}

#[test]
fn three_single_steps_while_paused() {
    let mut engine = steady(8, 8);
    let mut params = AutomataParams { is_paused: true, frame: 0, frame_queue_count: 3 };
    for done in 1..=3usize {
        let commands = engine.frame(pending(), &mut params);
        assert_eq!(params.frame, done);
        assert_eq!(params.frame_queue_count, 3 - done);
        assert_eq!(commands.automata, update_over(8, 8));
    }
    assert_eq!(params.frame_queue_count, 0);
    let commands = engine.frame(pending(), &mut params);
    assert_eq!(params.frame, 3);
    assert_eq!(params.frame_queue_count, 0);
    assert_eq!(commands.automata, None);
    assert!(params.is_paused);
}

#[test]
fn budget_of_n_gives_n_advances() {
    for n in 0..6usize {
        let mut engine = steady(16, 8);
        let mut params = AutomataParams { is_paused: true, frame: 10, frame_queue_count: n };
        let mut advances = 0;
        for _ in 0..(n + 4) {
            let before = params.frame;
            let commands = engine.frame(ready(), &mut params);
            if params.frame != before {
                advances += 1;
                assert_eq!(commands.automata, update_over(16, 8));
            } else {
                assert_eq!(commands.automata, None);
            }
        }
        assert_eq!(advances, n);
        assert_eq!(params.frame, 10 + n);
        assert_eq!(params.frame_queue_count, 0);
    }
}

#[test]
fn replenished_budget_advances_again() {
    let mut engine = steady(8, 8);
    let mut params = AutomataParams { is_paused: true, frame: 0, frame_queue_count: 1 };
    engine.frame(ready(), &mut params);
    engine.frame(ready(), &mut params);
    assert_eq!(params.frame, 1);
    params.frame_queue_count = 2;
    engine.frame(ready(), &mut params);
    engine.frame(ready(), &mut params);
    engine.frame(ready(), &mut params);
    assert_eq!(params.frame, 3);
    assert_eq!(params.frame_queue_count, 0);
}

#[test]
fn unpaused_with_empty_budget_dispatches_without_advancing() {
    let mut engine = steady(8, 8);
    let mut params = AutomataParams { is_paused: false, frame: 4, frame_queue_count: 0 };
    let commands = engine.frame(ready(), &mut params);
    assert_eq!(commands.automata, update_over(8, 8));
    assert_eq!(params, AutomataParams { is_paused: false, frame: 4, frame_queue_count: 0 });
}

#[test]
fn colouring_runs_while_paused() {
    let mut engine = steady(24, 16);
    let mut params = AutomataParams { is_paused: true, frame: 7, frame_queue_count: 0 };
    for _ in 0..5 {
        let commands = engine.frame(ready(), &mut params);
        assert_eq!(commands.automata, None);
        assert_eq!(
            commands.color,
            Some(Dispatch { entry_point: EntryPoint::ColorCells, workgroups: (3, 2, 1) })
        );
        assert_eq!(params, AutomataParams { is_paused: true, frame: 7, frame_queue_count: 0 });
    }
}

#[test]
fn colouring_waits_for_its_pipeline() {
    let mut node = AutomataColorNode::default();
    let dims = GridDimensions { width: 8, height: 8 };
    assert_eq!(node.state, AutomataColorState::Loading);
    assert_eq!(node.run(&dims), None);
    assert_eq!(node.failure(CompileStatus::Pending), None);
    node.update(CompileStatus::Pending);
    assert_eq!(node.state, AutomataColorState::Loading);
    assert_eq!(node.failure(CompileStatus::Ready), None);
    node.update(CompileStatus::Ready);
    assert_eq!(node.state, AutomataColorState::Update);
    node.update(CompileStatus::Pending);
    assert_eq!(node.state, AutomataColorState::Update);
    assert_eq!(node.failure(CompileStatus::Failed), None);
    node.update(CompileStatus::Failed);
    assert_eq!(node.state, AutomataColorState::Update);
    assert_eq!(
        node.run(&dims),
        Some(Dispatch { entry_point: EntryPoint::ColorCells, workgroups: (1, 1, 1) })
    );
}

#[test]
fn failed_colour_pipeline_is_fatal_while_loading() {
    let node = AutomataColorNode::default();
    assert_eq!(
        node.failure(CompileStatus::Failed),
        Some(CompilationError {
            program: ShaderProgram::Colorization,
            entry_point: EntryPoint::ColorCells,
        })
    );
    let engine = GameOfLifeComputePlugin::build(GridDimensions { width: 8, height: 8 });
    let polls = Polls {
        init: CompileStatus::Pending,
        update: CompileStatus::Pending,
        color: CompileStatus::Failed,
    };
    assert_eq!(
        engine.failure(polls),
        Some(CompilationError {
            program: ShaderProgram::Colorization,
            entry_point: EntryPoint::ColorCells,
        })
    );
    assert_eq!(engine.failure(pending()), None);
    assert_eq!(engine.failure(ready()), None);
}

#[test]
fn states_are_visited_once_and_in_order() {
    let mut node = GameOfLifeNode::default();
    let mut params = AutomataParams::default();
    let polls = [
        (CompileStatus::Pending, CompileStatus::Ready),
        (CompileStatus::Pending, CompileStatus::Failed),
        (CompileStatus::Pending, CompileStatus::Pending),
        (CompileStatus::Ready, CompileStatus::Pending),
        (CompileStatus::Failed, CompileStatus::Pending),
        (CompileStatus::Pending, CompileStatus::Pending),
        (CompileStatus::Ready, CompileStatus::Ready),
        (CompileStatus::Failed, CompileStatus::Failed),
        (CompileStatus::Pending, CompileStatus::Pending),
    ];
    let expected = [
        GameOfLifeState::Loading,
        GameOfLifeState::Loading,
        GameOfLifeState::Loading,
        GameOfLifeState::Init,
        GameOfLifeState::Init,
        GameOfLifeState::Init,
        GameOfLifeState::Update,
        GameOfLifeState::Update,
        GameOfLifeState::Update,
    ];
    for (poll, state) in polls.iter().zip(expected.iter()) {
        assert_eq!(node.failure(poll.0, poll.1), None);
        node.update(poll.0, poll.1, &mut params);
        assert_eq!(node.state, *state);
        assert!(!node.seeded);
    }
    assert_eq!(params, AutomataParams::default());
}

#[test]
fn failed_init_pipeline_is_fatal_while_loading() {
    let node = GameOfLifeNode::default();
    let failed_init =
        CompilationError { program: ShaderProgram::Automaton, entry_point: EntryPoint::Init };
    assert_eq!(node.failure(CompileStatus::Failed, CompileStatus::Ready), Some(failed_init));
    assert_eq!(node.failure(CompileStatus::Failed, CompileStatus::Failed), Some(failed_init));
    assert_eq!(failed_init.program.asset_path(), "shaders/litterbox.wgsl");

    let engine = GameOfLifeComputePlugin::build(GridDimensions { width: 8, height: 8 });
    let polls = Polls {
        init: CompileStatus::Failed,
        update: CompileStatus::Ready,
        color: CompileStatus::Failed,
    };
    assert_eq!(engine.failure(polls), Some(failed_init));
}

#[test]
fn failed_update_pipeline_is_fatal_while_initialising() {
    let node = GameOfLifeNode { state: GameOfLifeState::Init, seeded: false };
    let failed_update =
        CompilationError { program: ShaderProgram::Automaton, entry_point: EntryPoint::Update };
    assert_eq!(node.failure(CompileStatus::Ready, CompileStatus::Failed), Some(failed_update));
    assert_eq!(node.failure(CompileStatus::Failed, CompileStatus::Failed), Some(failed_update));
    assert_eq!(node.failure(CompileStatus::Failed, CompileStatus::Pending), None);
    let steady = GameOfLifeNode { state: GameOfLifeState::Update, seeded: true };
    assert_eq!(steady.failure(CompileStatus::Failed, CompileStatus::Failed), None);
}

#[test]
fn init_is_dispatched_once() {
    let dims = GridDimensions { width: 128, height: 128 };
    let mut node = GameOfLifeNode { state: GameOfLifeState::Init, seeded: false };
    let mut paused = AutomataParams { is_paused: true, frame: 0, frame_queue_count: 0 };
    assert_eq!(node.run(&mut paused, &dims), None);
    assert!(!node.seeded);
    let mut params = AutomataParams::default();
    assert_eq!(
        node.run(&mut params, &dims),
        Some(Dispatch { entry_point: EntryPoint::Init, workgroups: (16, 16, 1) })
    );
    assert!(node.seeded);
    node.update(CompileStatus::Ready, CompileStatus::Pending, &mut params);
    assert_eq!(node.state, GameOfLifeState::Init);
    assert_eq!(node.run(&mut params, &dims), None);
    assert_eq!(node.run(&mut params, &dims), None);
    node.update(CompileStatus::Ready, CompileStatus::Ready, &mut params);
    assert_eq!(node, GameOfLifeNode { state: GameOfLifeState::Update, seeded: true });
    assert_eq!(
        node.run(&mut params, &dims),
        Some(Dispatch { entry_point: EntryPoint::Update, workgroups: (16, 16, 1) })
    );
    assert_eq!(params, AutomataParams::default());
}

#[test]
fn seeding_takes_one_step_off_the_budget() {
    let dims = GridDimensions { width: 8, height: 8 };
    let mut node = GameOfLifeNode { state: GameOfLifeState::Init, seeded: false };
    let mut params = AutomataParams { is_paused: true, frame: 0, frame_queue_count: 2 };
    assert!(node.run(&mut params, &dims).is_some());
    assert_eq!(params, AutomataParams { is_paused: true, frame: 0, frame_queue_count: 1 });
    assert_eq!(node.run(&mut params, &dims), None);
    assert_eq!(params, AutomataParams { is_paused: true, frame: 0, frame_queue_count: 1 });
}

#[test]
fn loading_stage_keeps_the_budget() {
    let dims = GridDimensions { width: 8, height: 8 };
    let mut engine = GameOfLifeComputePlugin::build(dims);
    for is_paused in [true, false] {
        let mut params = AutomataParams { is_paused, frame: 0, frame_queue_count: 3 };
        let commands = engine.frame(pending(), &mut params);
        assert_eq!(commands.automata, None);
        assert_eq!(commands.color, None);
        assert_eq!(params, AutomataParams { is_paused, frame: 0, frame_queue_count: 3 });
        assert_eq!(engine.automata, GameOfLifeNode::default());
    }
}

#[test]
fn stages_run_in_a_fixed_order() {
    assert_eq!(
        GameOfLifeComputePlugin::stage_order(),
        vec![Stage::Automata, Stage::Colorization]
    );
}

#[test]
fn engine_reaches_the_steady_state() {
    let mut engine = GameOfLifeComputePlugin::build(GridDimensions { width: 8, height: 8 });
    let mut params = AutomataParams::default();
    assert_eq!(engine.bind_groups, None);
    let first = engine.frame(ready(), &mut params);
    assert_eq!(engine.automata.state, GameOfLifeState::Init);
    assert_eq!(engine.color.state, AutomataColorState::Update);
    assert_eq!(
        first.automata,
        Some(Dispatch { entry_point: EntryPoint::Init, workgroups: (1, 1, 1) })
    );
    let second = engine.frame(ready(), &mut params);
    assert_eq!(engine.automata.state, GameOfLifeState::Update);
    assert_eq!(second.automata, update_over(8, 8));
    assert_eq!(params.frame, 0);
}

#[test]
fn frame_counter_wraps() {
    let mut node = GameOfLifeNode { state: GameOfLifeState::Update, seeded: true };
    let mut params = AutomataParams { is_paused: false, frame: usize::MAX, frame_queue_count: 1 };
    node.update(CompileStatus::Ready, CompileStatus::Ready, &mut params);
    assert_eq!(params.frame, 0);
    assert_eq!(prepare_automata_bind_group(&params).input, Resource::CellBuffer(0));
}

#[test]
fn bind_groups_follow_the_parity_of_the_frame() {
    let even = AutomataParams { is_paused: false, frame: 6, frame_queue_count: 0 };
    let odd = AutomataParams { is_paused: false, frame: 7, frame_queue_count: 0 };
    assert_eq!(
        prepare_automata_bind_group(&even),
        GameOfLifeImageBindGroup {
            size: Resource::GridSize,
            input: Resource::CellBuffer(0),
            output: Resource::CellBuffer(1),
        }
    );
    assert_eq!(
        prepare_automata_bind_group(&odd),
        GameOfLifeImageBindGroup {
            size: Resource::GridSize,
            input: Resource::CellBuffer(1),
            output: Resource::CellBuffer(0),
        }
    );
    assert_eq!(
        prepare_color_bind_group(&odd),
        AutomataColorBindGroups {
            size: Resource::GridSize,
            input: Resource::CellBuffer(1),
            output: Resource::CellBuffer(0),
            texture: Resource::DisplayTexture,
        }
    );
}

#[test]
fn preparing_twice_changes_nothing_more() {
    let mut engine = steady(8, 8);
    let params = AutomataParams { is_paused: true, frame: 5, frame_queue_count: 2 };
    engine.prepare_bind_groups(&params);
    let once = engine;
    engine.prepare_bind_groups(&params);
    engine.prepare_bind_groups(&params);
    assert_eq!(engine, once);
    assert_eq!(engine.automata.state, GameOfLifeState::Update);
    assert_eq!(
        engine.bind_groups,
        Some(BindGroups {
            automata: prepare_automata_bind_group(&params),
            color: prepare_color_bind_group(&params),
        })
    );
    assert_eq!(params, AutomataParams { is_paused: true, frame: 5, frame_queue_count: 2 });
}

#[test]
fn run_uses_the_prepared_bind_groups() {
    let mut engine = steady(8, 8);
    let mut params = AutomataParams { is_paused: false, frame: 1, frame_queue_count: 1 };
    engine.prepare_bind_groups(&params);
    let commands = engine.run(&mut params);
    assert_eq!(commands.bind_groups.automata.input, Resource::CellBuffer(1));
    assert_eq!(commands.bind_groups.color.output, Resource::CellBuffer(0));
    assert_eq!(params.frame_queue_count, 0);
    assert_eq!(params.frame, 1);
}

#[test]
fn entry_points_and_programs_are_named() {
    assert_eq!(EntryPoint::Init.name(), "init");
    assert_eq!(EntryPoint::Update.name(), "update");
    assert_eq!(EntryPoint::ColorCells.name(), "color_cells");
    assert_eq!(EntryPoint::Init.program(), ShaderProgram::Automaton);
    assert_eq!(EntryPoint::Update.program(), ShaderProgram::Automaton);
    assert_eq!(EntryPoint::ColorCells.program(), ShaderProgram::Colorization);
    assert_eq!(ShaderProgram::Automaton.asset_path(), "shaders/litterbox.wgsl");
    assert_eq!(ShaderProgram::Colorization.asset_path(), "shaders/color.wgsl");
}

#[test]
fn simulation_is_recorded_before_colouring() {
    let mut engine = steady(8, 8);
    let mut params = AutomataParams { is_paused: false, frame: 0, frame_queue_count: 1 };
    let commands = engine.frame(ready(), &mut params);
    assert_eq!(
        commands.dispatches(),
        vec![
            Dispatch { entry_point: EntryPoint::Update, workgroups: (1, 1, 1) },
            Dispatch { entry_point: EntryPoint::ColorCells, workgroups: (1, 1, 1) },
        ]
    );
    let mut paused = AutomataParams { is_paused: true, frame: 1, frame_queue_count: 0 };
    let commands = engine.frame(ready(), &mut paused);
    assert_eq!(
        commands.dispatches(),
        vec![Dispatch { entry_point: EntryPoint::ColorCells, workgroups: (1, 1, 1) }]
    );
    let mut idle = GameOfLifeComputePlugin::build(GridDimensions { width: 8, height: 8 });
    let commands = idle.frame(pending(), &mut paused);
    assert_eq!(commands.dispatches(), Vec::<Dispatch>::new());
}

#[test]
fn sitting_out_needs_pause_and_an_empty_budget() {
    let p = |is_paused, frame_queue_count| AutomataParams { is_paused, frame: 0, frame_queue_count };
    assert!(GameOfLifeNode::sits_out(&p(true, 0)));
    assert!(!GameOfLifeNode::sits_out(&p(true, 1)));
    assert!(!GameOfLifeNode::sits_out(&p(false, 0)));
    assert!(!GameOfLifeNode::sits_out(&p(false, 2)));
}

#[test]
fn n_step_requests_give_n_dispatch_cycles() {
    let mut engine = steady(8, 8);
    let mut params = AutomataParams { is_paused: true, frame: 0, frame_queue_count: 0 };
    for _ in 0..4 {
        update_input_state(&mut params, false, true);
    }
    assert_eq!(params.frame_queue_count, 4);
    let mut cycles = 0;
    for _ in 0..10 {
        if engine.frame(ready(), &mut params).automata.is_some() {
            cycles += 1;
        }
    }
    assert_eq!(cycles, 4);
    assert_eq!(params, AutomataParams { is_paused: true, frame: 4, frame_queue_count: 0 });
}

#[test]
fn toggling_pause_keeps_the_frame_and_the_roles() {
    let mut params = AutomataParams { is_paused: false, frame: 5, frame_queue_count: 0 };
    let before = prepare_automata_bind_group(&params);
    update_input_state(&mut params, true, false);
    assert_eq!(params.frame, 5);
    assert_eq!(prepare_automata_bind_group(&params), before);
}
