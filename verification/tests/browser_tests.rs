use inspector::BodyHandle;
use inspector::BodySnapshot;
use inspector::ColliderHandle;
use inspector::ColliderSnapshot;
use inspector::EngineCommand;
use inspector::Inspector;
use inspector::PropertyEdit;
use inspector::SelectionState;
use inspector::Vec3Milli;
use inspector::WorldSnapshot;

fn v3(x: i64, y: i64, z: i64) -> Vec3Milli {
    Vec3Milli { x, y, z }
}

fn body(handle: BodyHandle, translation: Vec3Milli, colliders: Vec<ColliderHandle>) -> BodySnapshot {
    BodySnapshot {
        handle,
        translation,
        linear_velocity: v3(0, 0, 0),
        linear_damping: 0,
        angular_velocity: v3(0, 0, 0),
        angular_damping: 0,
        kinetic_energy: 0,
        colliders,
    }
}

fn one_body_world() -> (WorldSnapshot, BodyHandle, ColliderHandle) {
    let bh = BodyHandle { index: 0, generation: 0 };
    let ch = ColliderHandle { index: 0, generation: 0 };
    let world = WorldSnapshot {
        bodies: vec![body(bh, v3(1000, 2000, 3000), vec![ch])],
        colliders: vec![ColliderSnapshot { handle: ch, mass: 5000, friction: 500, restitution: 100 }],
    };
    (world, bh, ch)
}

#[test]
fn new_inspector_has_nothing_selected() {
    let insp = Inspector::new();
    assert_eq!(insp.selection_state(), SelectionState::NoneSelected);
    assert!(insp.selected_body_handle().is_none());
    assert!(insp.selected_collider_handle().is_none());
}

#[test]
fn reset_always_yields_none_selected() {
    let (world, bh, ch) = one_body_world();
    let mut insp = Inspector::new();
    insp.reset_selection();
    assert_eq!(insp.selection_state(), SelectionState::NoneSelected);

    insp.select_body(bh);
    insp.reset_selection();
    assert_eq!(insp.selection_state(), SelectionState::NoneSelected);

    insp.select_body(bh);
    insp.select_collider(ch);
    insp.reset_selection();
    assert_eq!(insp.selection_state(), SelectionState::NoneSelected);

    let view = insp.populate_objects(&world);
    assert!(view.body_panel.is_none());
    assert!(view.properties.is_none());
}

#[test]
fn selecting_a_body_shows_its_stats() {
    let (world, bh, _ch) = one_body_world();
    let mut insp = Inspector::new();
    assert_eq!(insp.selection_state(), SelectionState::NoneSelected);
    insp.select_body(bh);
    assert_eq!(insp.selection_state(), SelectionState::BodySelected);

    let view = insp.populate_objects(&world);
    assert_eq!(view.bodies.len(), 1);
    assert_eq!(view.bodies[0].handle, bh);
    assert!(view.bodies[0].selected);
    let panel = view.body_panel.expect("a selected body has a detail panel");
    assert_eq!(panel.stats.position.x, "1.0");
    assert_eq!(panel.stats.position.y, "2.0");
    assert_eq!(panel.stats.position.z, "3.0");
    assert_eq!(panel.stats.linear_damping, "0.0");
    assert_eq!(panel.stats.angular_damping, "0.0");
    assert_eq!(panel.stats.kinetic_energy, "0.0");
    assert_eq!(panel.colliders.len(), 1);
    assert!(!panel.colliders[0].selected);
    assert!(view.properties.is_none());
}

#[test]
fn selecting_a_collider_shows_its_properties() {
    let (world, bh, ch) = one_body_world();
    let mut insp = Inspector::new();
    insp.select_body(bh);
    insp.select_collider(ch);
    assert_eq!(insp.selection_state(), SelectionState::BodyAndColliderSelected);

    let view = insp.populate_objects(&world);
    let panel = view.body_panel.expect("body panel");
    assert!(panel.colliders[0].selected);
    let props = view.properties.expect("collider panel");
    assert_eq!(props.collider, ch);
    assert_eq!(props.mass_milli, 5000);
    assert_eq!(props.friction_milli, 500);
    assert_eq!(props.restitution_milli, 100);
}

#[test]
fn edits_clamp_to_the_field_ranges() {
    let (_world, bh, ch) = one_body_world();
    let mut insp = Inspector::new();
    insp.select_body(bh);
    insp.select_collider(ch);

    // Mass 2,000,000 units clamps to 1,000,000 units.
    let cmd = insp.apply_edit(PropertyEdit::Mass(2_000_000_000));
    assert_eq!(cmd, Some(EngineCommand::SetMass(ch, 1_000_000_000)));
    // Friction -1 clamps to 0.
    let cmd = insp.apply_edit(PropertyEdit::Friction(-1000));
    assert_eq!(cmd, Some(EngineCommand::SetFriction(ch, 0)));
    // Restitution 1.5 clamps to 1.0.
    let cmd = insp.apply_edit(PropertyEdit::Restitution(1500));
    assert_eq!(cmd, Some(EngineCommand::SetRestitution(ch, 1000)));
    // A value inside the range passes through.
    let cmd = insp.apply_edit(PropertyEdit::Mass(5000));
    assert_eq!(cmd, Some(EngineCommand::SetMass(ch, 5000)));
}

#[test]
fn edits_without_a_selected_collider_do_nothing() {
    let (_world, bh, _ch) = one_body_world();
    let mut insp = Inspector::new();
    assert_eq!(insp.apply_edit(PropertyEdit::Mass(1)), None);
    insp.select_body(bh);
    assert_eq!(insp.apply_edit(PropertyEdit::Friction(1)), None);
}

#[test]
fn unselect_returns_to_none_from_either_state() {
    let (_world, bh, ch) = one_body_world();
    let mut insp = Inspector::new();
    insp.select_body(bh);
    assert_eq!(insp.selection_state(), SelectionState::BodySelected);
    insp.reset_selection();
    assert_eq!(insp.selection_state(), SelectionState::NoneSelected);

    insp.select_body(bh);
    insp.select_collider(ch);
    assert_eq!(insp.selection_state(), SelectionState::BodyAndColliderSelected);
    insp.reset_selection();
    assert_eq!(insp.selection_state(), SelectionState::NoneSelected);
}

#[test]
fn stale_body_selection_is_cleared_not_dereferenced() {
    let (world, _bh, ch) = one_body_world();
    let gone = BodyHandle { index: 9, generation: 4 };
    let mut insp = Inspector::new();
    insp.select_body(gone);
    insp.select_collider(ch);

    let view = insp.populate_objects(&world);
    assert_eq!(insp.selection_state(), SelectionState::NoneSelected);
    assert!(view.body_panel.is_none());
    assert!(view.properties.is_none());
}

#[test]
fn stale_collider_selection_is_cleared_alone() {
    let (world, bh, _ch) = one_body_world();
    let gone = ColliderHandle { index: 9, generation: 4 };
    let mut insp = Inspector::new();
    insp.select_body(bh);
    insp.select_collider(gone);

    let view = insp.populate_objects(&world);
    assert_eq!(insp.selection_state(), SelectionState::BodySelected);
    assert!(view.body_panel.is_some());
    assert!(view.properties.is_none());
}

#[test]
fn browser_lists_every_body_unlabeled_entries_in_order() {
    let b1 = BodyHandle { index: 0, generation: 0 };
    let b2 = BodyHandle { index: 1, generation: 0 };
    let b3 = BodyHandle { index: 2, generation: 7 };
    let world = WorldSnapshot {
        bodies: vec![
            body(b1, v3(0, 0, 0), vec![]),
            body(b2, v3(0, 0, 0), vec![]),
            body(b3, v3(0, 0, 0), vec![]),
        ],
        colliders: vec![],
    };
    let mut insp = Inspector::new();
    insp.select_body(b2);
    let view = insp.populate_objects(&world);
    assert_eq!(view.bodies.len(), 3);
    assert_eq!(view.bodies[0].handle, b1);
    assert_eq!(view.bodies[1].handle, b2);
    assert_eq!(view.bodies[2].handle, b3);
    assert!(!view.bodies[0].selected);
    assert!(view.bodies[1].selected);
    assert!(!view.bodies[2].selected);
    let panel = view.body_panel.expect("body panel");
    assert!(panel.colliders.is_empty());
}

#[test]
fn mass_edit_scenario_reads_back_next_frame() {
    // One body at (1.0, 2.0, 3.0) with one collider of mass 5.0: select the
    // body, then the collider, drag the mass to 10.0, and read it back.
    let (mut world, bh, ch) = one_body_world();
    let mut insp = Inspector::new();
    insp.select_body(bh);
    insp.select_collider(ch);

    let cmd = insp.apply_edit(PropertyEdit::Mass(10_000));
    assert_eq!(cmd, Some(EngineCommand::SetMass(ch, 10_000)));
    // The host applies the command to the engine; the next frame's snapshot
    // carries the new mass.
    match cmd {
        Some(EngineCommand::SetMass(handle, milli)) => {
            assert_eq!(handle, world.colliders[0].handle);
            world.colliders[0].mass = milli;
        }
        _ => unreachable!(),
    }

    let view = insp.populate_objects(&world);
    let props = view.properties.expect("collider panel");
    assert_eq!(props.mass_milli, 10_000);
    let panel = view.body_panel.expect("body panel");
    assert_eq!(
        format!(
            "Position: {} {} {}",
            panel.stats.position.x, panel.stats.position.y, panel.stats.position.z
        ),
        "Position: 1.0 2.0 3.0"
    );
}
