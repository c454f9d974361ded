use project_diff::project_diff::ProjectDiff;
use project_diff::worker::{WorkerAction, WorkerEvent, WorkerExit, WorkerPhase};

#[test]
fn a_new_panel_waits_for_an_update() {
    let panel = ProjectDiff::new();
    assert_eq!(panel.phase(), WorkerPhase::AwaitingUpdate);
    assert_eq!(panel.phase().action(), WorkerAction::AwaitUpdate);
}

#[test]
fn a_round_awaits_every_load_in_order() {
    let mut panel = ProjectDiff::new();
    assert_eq!(panel.worker(WorkerEvent::UpdateNeeded), WorkerAction::Plan);
    assert_eq!(panel.worker(WorkerEvent::Planned { loads: 3 }), WorkerAction::AwaitLoad { index: 0 });
    assert_eq!(
        panel.worker(WorkerEvent::LoadFinished { loaded: true }),
        WorkerAction::Register { index: 0 }
    );
    assert_eq!(panel.worker(WorkerEvent::Registered), WorkerAction::AwaitLoad { index: 1 });
    assert_eq!(
        panel.worker(WorkerEvent::LoadFinished { loaded: false }),
        WorkerAction::AwaitLoad { index: 2 }
    );
    assert_eq!(
        panel.worker(WorkerEvent::LoadFinished { loaded: true }),
        WorkerAction::Register { index: 2 }
    );
    assert_eq!(panel.phase(), WorkerPhase::Registering { next: 2, total: 3 });
    assert_eq!(panel.worker(WorkerEvent::Registered), WorkerAction::AwaitUpdate);
    assert_eq!(panel.phase(), WorkerPhase::AwaitingUpdate);
}

#[test]
fn a_round_without_loads_returns_to_waiting() {
    let mut panel = ProjectDiff::new();
    panel.worker(WorkerEvent::UpdateNeeded);
    assert_eq!(panel.worker(WorkerEvent::Planned { loads: 0 }), WorkerAction::AwaitUpdate);
}

#[test]
fn a_failed_last_load_ends_the_round() {
    let mut panel = ProjectDiff::new();
    panel.worker(WorkerEvent::UpdateNeeded);
    panel.worker(WorkerEvent::Planned { loads: 1 });
    assert_eq!(panel.worker(WorkerEvent::LoadFinished { loaded: false }), WorkerAction::AwaitUpdate);
}

#[test]
fn a_closed_channel_ends_the_worker_regularly() {
    let mut panel = ProjectDiff::new();
    assert_eq!(
        panel.worker(WorkerEvent::ChannelClosed),
        WorkerAction::Stop { exit: WorkerExit::ChannelClosed }
    );
    assert_eq!(panel.phase(), WorkerPhase::Finished { exit: WorkerExit::ChannelClosed });
}

#[test]
fn a_dropped_panel_ends_the_worker_while_planning() {
    let mut panel = ProjectDiff::new();
    panel.worker(WorkerEvent::UpdateNeeded);
    assert_eq!(
        panel.worker(WorkerEvent::PanelDropped),
        WorkerAction::Stop { exit: WorkerExit::PanelDropped }
    );
}

#[test]
fn a_dropped_panel_ends_the_worker_while_registering() {
    let mut panel = ProjectDiff::new();
    panel.worker(WorkerEvent::UpdateNeeded);
    panel.worker(WorkerEvent::Planned { loads: 2 });
    panel.worker(WorkerEvent::LoadFinished { loaded: true });
    assert_eq!(
        panel.worker(WorkerEvent::PanelDropped),
        WorkerAction::Stop { exit: WorkerExit::PanelDropped }
    );
}

#[test]
fn a_finished_worker_stays_finished() {
    let mut panel = ProjectDiff::new();
    panel.worker(WorkerEvent::ChannelClosed);
    let events = [
        WorkerEvent::UpdateNeeded,
        WorkerEvent::Planned { loads: 4 },
        WorkerEvent::LoadFinished { loaded: true },
        WorkerEvent::Registered,
        WorkerEvent::PanelDropped,
        WorkerEvent::ChannelClosed,
    ];
    for event in events {
        assert_eq!(panel.worker(event), WorkerAction::Stop { exit: WorkerExit::ChannelClosed });
    }
}

#[test]
fn events_that_are_not_awaited_change_nothing() {
    let mut panel = ProjectDiff::new();
    assert_eq!(panel.worker(WorkerEvent::Registered), WorkerAction::AwaitUpdate);
    assert_eq!(panel.worker(WorkerEvent::PanelDropped), WorkerAction::AwaitUpdate);
    assert_eq!(panel.worker(WorkerEvent::Planned { loads: 2 }), WorkerAction::AwaitUpdate);
    panel.worker(WorkerEvent::UpdateNeeded);
    assert_eq!(panel.worker(WorkerEvent::ChannelClosed), WorkerAction::Plan);
    assert_eq!(panel.worker(WorkerEvent::UpdateNeeded), WorkerAction::Plan);
    panel.worker(WorkerEvent::Planned { loads: 2 });
    assert_eq!(panel.worker(WorkerEvent::PanelDropped), WorkerAction::AwaitLoad { index: 0 });
    assert_eq!(panel.worker(WorkerEvent::Registered), WorkerAction::AwaitLoad { index: 0 });
    assert_eq!(panel.phase(), WorkerPhase::Loading { next: 0, total: 2 });
}

#[test]
fn the_phase_steps_without_a_panel() {
    let phase = WorkerPhase::Loading { next: 4, total: 5 };
    assert_eq!(phase.step(WorkerEvent::LoadFinished { loaded: false }), WorkerPhase::AwaitingUpdate);
    assert_eq!(
        phase.step(WorkerEvent::LoadFinished { loaded: true }),
        WorkerPhase::Registering { next: 4, total: 5 }
    );
    let phase = WorkerPhase::Registering { next: 0, total: 5 };
    assert_eq!(phase.step(WorkerEvent::Registered), WorkerPhase::Loading { next: 1, total: 5 });
}
