use framecore::component::ComponentLib;
use framecore::component::misumi_4040_extrude;
use framecore::component::Vender;
use framecore::design::DesignSpace;
use framecore::instance::ExtrudeConfig;
use framecore::instance::Instance;
use framecore::instance::InstanceConfig;
use framecore::operation::add_extrude_instance;
use framecore::operation::add_normal_instance;
use framecore::operation::add_panel_instance;
use framecore::operation::extrude_add_length;
use framecore::operation::extrude_post_process;
use framecore::operation::move_instance;
use framecore::operation::panel_add_size;
use framecore::operation::remove_instance;
use framecore::operation::DesignOperation;
use framecore::operation::MoveInstance;
use framecore::operation::OpError;
use framecore::operation::Operation;
use framecore::operation::ValidationError;
use framecore::pose::Pose;

fn extrude_length(design: &DesignSpace) -> u32 {
    let instances = design.get_instances();
    assert_eq!(instances.len(), 1);
    match instances[0].instance_config() {
        InstanceConfig::Extrude(e) => e.length,
        other => panic!("expected an extrusion configuration, got {:?}", other),
    }
}

fn only_instance(design: &DesignSpace) -> Instance {
    let instances = design.get_instances();
    assert_eq!(instances.len(), 1);
    instances[0].clone()
}

fn default_lib() -> ComponentLib {
    ComponentLib::default()
}

#[test]
fn add_then_pop_restores_empty_design() {
    let lib = default_lib();
    let component = lib.get_component(&"LCF8-4040".to_string()).unwrap();
    let op = add_extrude_instance(component, 100000).unwrap();

    let mut design = DesignSpace::new();
    design.push(op).unwrap();
    assert_eq!(design.get_instances().len(), 1);
    assert_eq!(design.records.len(), 1);

    assert_eq!(design.pop(), Ok(true));
    assert_eq!(design.get_instances().len(), 0);
    assert_eq!(design.records.len(), 0);
    assert_eq!(design.poped.len(), 1);
}

#[test]
fn move_then_pop_restores_pose() {
    let lib = default_lib();
    let component = lib.get_component(&"LCF8-4040".to_string()).unwrap();
    let mut design = DesignSpace::new();
    design
        .push(add_extrude_instance(component, 100000).unwrap())
        .unwrap();

    let inst = only_instance(&design);
    let target = Pose {
        tx: 10000,
        ty: -2500,
        tz: 42,
        ..Pose::identity()
    };
    design.push(move_instance(&inst, target)).unwrap();
    assert_eq!(only_instance(&design).pose(), target);

    assert_eq!(design.pop(), Ok(true));
    assert_eq!(only_instance(&design).pose(), Pose::identity());
    assert_eq!(only_instance(&design).instance_config(), inst.instance_config());
}

#[test]
fn pop_then_repush_reproduces_push() {
    let lib = default_lib();
    let component = lib.get_component(&"LCF8-4040".to_string()).unwrap();
    let mut design = DesignSpace::new();
    design
        .push(add_extrude_instance(component, 100000).unwrap())
        .unwrap();
    let before = only_instance(&design);

    assert_eq!(design.pop(), Ok(true));
    assert_eq!(design.get_instances().len(), 0);
    assert_eq!(design.repush(), Ok(true));

    let after = only_instance(&design);
    assert_eq!(after.instance_id(), before.instance_id());
    assert_eq!(after.label(), before.label());
    assert_eq!(after.pose(), before.pose());
    assert_eq!(after.instance_config(), before.instance_config());
    assert_eq!(design.records.len(), 1);
    assert_eq!(design.poped.len(), 0);
}

#[test]
fn equal_length_deltas_merge_into_one_entry() {
    let lib = default_lib();
    let component = lib.get_component(&"LCF8-4040".to_string()).unwrap();
    let mut design = DesignSpace::new();
    design
        .push(add_extrude_instance(component, 100000).unwrap())
        .unwrap();

    let inst = only_instance(&design);
    let op = extrude_add_length(&inst, component, 5000, Pose::identity()).unwrap();
    design.push(op).unwrap();
    assert_eq!(design.records.len(), 2);
    assert_eq!(extrude_length(&design), 105000);

    let inst = only_instance(&design);
    let op = extrude_add_length(&inst, component, 5000, Pose::identity()).unwrap();
    design.push(op).unwrap();
    assert_eq!(design.records.len(), 2, "the second delta must merge");
    assert_eq!(extrude_length(&design), 110000);

    assert_eq!(design.pop(), Ok(true));
    assert_eq!(extrude_length(&design), 100000, "one pop reverts both deltas");
    assert_eq!(design.records.len(), 1);
}

#[test]
fn envelope_rejects_short_length_and_accepts_valid_one() {
    let lib = default_lib();
    let component = lib.get_component(&"LCF8-4040".to_string()).unwrap();

    assert_eq!(
        add_extrude_instance(component, 100).unwrap_err(),
        ValidationError::InvalidLength
    );
    assert!(add_extrude_instance(component, 100000).is_ok());
    // Not a multiple of the 50-unit step.
    assert_eq!(
        add_extrude_instance(component, 100001).unwrap_err(),
        ValidationError::InvalidLength
    );
}

#[test]
fn reconfigure_keeps_current_length() {
    let lib = default_lib();
    let component = lib.get_component(&"LCF8-4040".to_string()).unwrap();
    let mut design = DesignSpace::new();
    design
        .push(add_extrude_instance(component, 100000).unwrap())
        .unwrap();

    let inst = only_instance(&design);
    let config = ExtrudeConfig {
        drill_left: true,
        drill_right: false,
        bevel_cut: None,
        wrench_hole_left: None,
        wrench_hole_right: None,
        counterbore_left: 0,
        counterbore_right: 0,
        length: 10000, // differs from the instance's current length
    };
    design
        .push(extrude_post_process(&inst, component, config).unwrap())
        .unwrap();

    assert_eq!(extrude_length(&design), 100000, "length is owned by ExtrudeAddLength");
    match only_instance(&design).instance_config() {
        InstanceConfig::Extrude(e) => assert!(e.drill_left),
        other => panic!("expected an extrusion configuration, got {:?}", other),
    }
}

#[test]
fn snapshot_kinds_never_merge() {
    let lib = default_lib();
    let extrude = lib.get_component(&"LCF8-4040".to_string()).unwrap();
    let accessory = lib.get_component(&"Accessory-test".to_string()).unwrap();
    let mut design = DesignSpace::new();

    // Two consecutive additions: two entries.
    design.push(add_normal_instance(accessory).unwrap()).unwrap();
    design.push(add_extrude_instance(extrude, 100000).unwrap()).unwrap();
    assert_eq!(design.records.len(), 2);

    // Two consecutive reconfigurations of the extrusion: two more entries.
    let extrude_instance = design
        .get_instances()
        .into_iter()
        .find(|i| matches!(i.instance_config(), InstanceConfig::Extrude(_)))
        .unwrap();
    let config = ExtrudeConfig {
        drill_left: true,
        drill_right: false,
        bevel_cut: None,
        wrench_hole_left: None,
        wrench_hole_right: None,
        counterbore_left: 0,
        counterbore_right: 0,
        length: 100000,
    };
    design
        .push(extrude_post_process(&extrude_instance, extrude, config).unwrap())
        .unwrap();
    let config2 = ExtrudeConfig {
        drill_right: true,
        ..config
    };
    design
        .push(extrude_post_process(&extrude_instance, extrude, config2).unwrap())
        .unwrap();
    assert_eq!(design.records.len(), 4);

    // Two consecutive removals: two more entries.
    let instances = design.get_instances();
    design.push(remove_instance(&instances[0])).unwrap();
    design.push(remove_instance(&instances[1])).unwrap();
    assert_eq!(design.records.len(), 6);
    assert_eq!(design.get_instances().len(), 0);
}

#[test]
fn scenario_rail_4040() {
    let mut lib = ComponentLib::new();
    lib.add_component(misumi_4040_extrude(
        "RAIL-4040".to_string(),
        "4040 rail".to_string(),
        Vender::new("Misumi".to_string()),
    ));
    let component = lib.get_component(&"RAIL-4040".to_string()).unwrap();

    let mut design = DesignSpace::new();
    design
        .push(add_extrude_instance(component, 100000).unwrap())
        .unwrap();
    assert_eq!(design.get_instances().len(), 1);
    assert_eq!(design.records.len(), 1);

    let inst = only_instance(&design);
    design
        .push(extrude_add_length(&inst, component, 5000, Pose::identity()).unwrap())
        .unwrap();
    assert_eq!(extrude_length(&design), 105000);
    assert_eq!(design.records.len(), 2);

    let inst = only_instance(&design);
    design
        .push(extrude_add_length(&inst, component, 5000, Pose::identity()).unwrap())
        .unwrap();
    assert_eq!(design.records.len(), 2, "merged into the previous entry");
    assert_eq!(extrude_length(&design), 110000);

    assert_eq!(design.pop(), Ok(true));
    assert_eq!(extrude_length(&design), 100000);
    assert_eq!(design.records.len(), 1);
    assert_eq!(design.poped.len(), 1);

    assert_eq!(design.repush(), Ok(true));
    assert_eq!(extrude_length(&design), 110000);
    assert_eq!(design.records.len(), 2);
    assert_eq!(design.poped.len(), 0);
}

#[test]
fn push_clears_redo_but_merge_does_not_resurrect_it() {
    let lib = default_lib();
    let component = lib.get_component(&"LCF8-4040".to_string()).unwrap();
    let mut design = DesignSpace::new();
    design
        .push(add_extrude_instance(component, 100000).unwrap())
        .unwrap();
    design.pop().unwrap();
    assert_eq!(design.poped.len(), 1);

    // A genuinely new push clears the redo buffer.
    design
        .push(add_extrude_instance(component, 200000).unwrap())
        .unwrap();
    assert_eq!(design.poped.len(), 0);
}

#[test]
fn push_on_missing_instance_reports_not_found() {
    let mut design = DesignSpace::new();
    let phantom = Instance {
        id: 42,
        component_label: "ghost".to_string(),
        component_type: framecore::component::ComponentType::Accessory,
        pose: Pose::identity(),
        config: InstanceConfig::Normal,
    };
    let r = design.push(move_instance(&phantom, Pose::identity()));
    assert_eq!(r, Err(OpError::NotFound));
    assert_eq!(design.records.len(), 0);
}

#[test]
fn pop_and_repush_on_empty_design_do_nothing() {
    let mut design = DesignSpace::new();
    assert_eq!(design.pop(), Ok(false));
    assert_eq!(design.repush(), Ok(false));
    assert_eq!(design.records.len(), 0);
    assert_eq!(design.poped.len(), 0);
}

#[test]
fn inverting_without_cache_reports_double_invert() {
    let mut instances = std::collections::HashMap::new();
    instances.insert(
        7,
        Instance {
            id: 7,
            component_label: "part".to_string(),
            component_type: framecore::component::ComponentType::Accessory,
            pose: Pose::identity(),
            config: InstanceConfig::Normal,
        },
    );
    let mut op = MoveInstance {
        id: 7,
        new_pose: Pose::identity(),
        old_pose: None,
    };
    assert_eq!(op.inverse(&mut instances), Err(OpError::DoubleInvert));
}

#[test]
fn length_change_on_wrong_kind_reports_kind_mismatch() {
    let lib = default_lib();
    let panel_component = lib.get_component(&"WoodenPanel-test".to_string()).unwrap();
    let mut design = DesignSpace::new();
    design
        .push(add_panel_instance(panel_component, 200000, 100000, 2000).unwrap())
        .unwrap();

    let inst = only_instance(&design);
    let op = DesignOperation::ExtrudeAddLength(framecore::operation::ExtrudeAddLength {
        id: inst.instance_id(),
        dlength: 100,
        new_pose: Pose::identity(),
        old_pose: None,
    });
    assert_eq!(design.push(op), Err(OpError::KindMismatch));
}

#[test]
fn adding_the_same_id_twice_reports_duplicate_id() {
    let lib = default_lib();
    let component = lib.get_component(&"LCF8-4040".to_string()).unwrap();
    let mut design = DesignSpace::new();
    design
        .push(add_extrude_instance(component, 100000).unwrap())
        .unwrap();

    let copy = only_instance(&design);
    let r = design.push(DesignOperation::AddInstance(
        framecore::operation::AddInstance { instance: copy },
    ));
    assert_eq!(r, Err(OpError::DuplicateId));
    assert_eq!(design.records.len(), 1);
}

#[test]
fn unrepresentable_length_reports_size_out_of_range() {
    let lib = default_lib();
    let component = lib.get_component(&"LCF8-4040".to_string()).unwrap();
    let mut design = DesignSpace::new();
    design
        .push(add_extrude_instance(component, 100000).unwrap())
        .unwrap();

    // A delta that would drive the length below zero. The validating
    // factory refuses to build such an operation, so it is written out
    // by hand here.
    let inst = only_instance(&design);
    let op = DesignOperation::ExtrudeAddLength(framecore::operation::ExtrudeAddLength {
        id: inst.instance_id(),
        dlength: -200000,
        new_pose: Pose::identity(),
        old_pose: None,
    });
    assert_eq!(design.push(op), Err(OpError::SizeOutOfRange));
    assert_eq!(extrude_length(&design), 100000);
}

#[test]
fn panel_size_deltas_merge_and_revert() {
    let lib = default_lib();
    let component = lib.get_component(&"WoodenPanel-test".to_string()).unwrap();
    let mut design = DesignSpace::new();
    design
        .push(add_panel_instance(component, 200000, 100000, 2000).unwrap())
        .unwrap();

    let inst = only_instance(&design);
    design
        .push(panel_add_size(&inst, 100, 100, 10, Pose::identity()))
        .unwrap();
    design
        .push(panel_add_size(&inst, 100, 100, 10, Pose::identity()))
        .unwrap();
    assert_eq!(design.records.len(), 2, "the second size change must merge");

    match only_instance(&design).instance_config() {
        InstanceConfig::Panel(p) => {
            assert_eq!((p.width, p.height, p.thickness), (200200, 100200, 2020));
        }
        other => panic!("expected a panel configuration, got {:?}", other),
    }

    assert_eq!(design.pop(), Ok(true));
    match only_instance(&design).instance_config() {
        InstanceConfig::Panel(p) => {
            assert_eq!((p.width, p.height, p.thickness), (200000, 100000, 2000));
        }
        other => panic!("expected a panel configuration, got {:?}", other),
    }
}

#[test]
fn operation_trait_applies_to_a_design() {
    let lib = default_lib();
    let component = lib.get_component(&"LCF8-4040".to_string()).unwrap();
    let mut design = DesignSpace::new();
    let mut op = add_extrude_instance(component, 100000).unwrap();
    Operation::operate(&mut op, &mut design).unwrap();
    assert_eq!(design.get_instances().len(), 1);
    Operation::inverse(&mut op, &mut design).unwrap();
    assert_eq!(design.get_instances().len(), 0);
}

#[test]
fn get_instances_reflects_the_design() {
    let lib = default_lib();
    let accessory = lib.get_component(&"Accessory-test".to_string()).unwrap();
    let extrude = lib.get_component(&"LCF8-4040".to_string()).unwrap();
    let mut design = DesignSpace::new();
    assert_eq!(design.get_instances().len(), 0);

    design.push(add_normal_instance(accessory).unwrap()).unwrap();
    design.push(add_extrude_instance(extrude, 100000).unwrap()).unwrap();

    let mut labels: Vec<String> = design.get_instances().iter().map(|i| i.label()).collect();
    labels.sort();
    assert_eq!(labels, vec!["Accessory-test".to_string(), "LCF8-4040".to_string()]);
}
