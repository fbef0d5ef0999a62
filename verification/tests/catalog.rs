use framecore::component::Component;
use framecore::component::ComponentData;
use framecore::component::ComponentLib;
use framecore::component::ComponentType;
use framecore::component::Vender;
use framecore::extrude::CounterboreSize;
use framecore::extrude::Drill;
use framecore::extrude::ExtrudeData;
use framecore::extrude::ExtrudeLength;
use framecore::extrude::ExtrudePostProcess;
use framecore::extrude::ExtrudeSeries;
use framecore::extrude::ExtrudeShape;
use framecore::extrude::ExtrudeShapeEnum;
use framecore::extrude::ExtrudeSquareShape;
use framecore::extrude::ExtrudeStandard;
use framecore::extrude::ExtrudeSurface;
use framecore::extrude::Metarial;
use framecore::extrude::S40ExtrudeSlotDepth;
use framecore::instance::BevelCutConfig;
use framecore::instance::ExtrudeConfig;
use framecore::instance::Instance;
use framecore::instance::InstanceConfig;
use framecore::operation::add_normal_instance;
use framecore::operation::extrude_post_process;
use framecore::operation::ValidationError;
use framecore::panel::PanelData;

fn plain_extrude_config(length: u32) -> ExtrudeConfig {
    ExtrudeConfig {
        drill_left: false,
        drill_right: false,
        bevel_cut: None,
        wrench_hole_left: None,
        wrench_hole_right: None,
        counterbore_left: 0,
        counterbore_right: 0,
        length,
    }
}

/// An extrusion part that offers no optional post-processing at all.
fn bare_extrude_component() -> Component {
    Component::new(
        "BARE-4040".to_string(),
        "bare profile".to_string(),
        ComponentData::Extrude(ExtrudeData {
            standard: ExtrudeStandard {
                series: ExtrudeSeries::S40(S40ExtrudeSlotDepth::SlotDepth12_3mm),
                metarial: Metarial::_6063T5,
                surface: ExtrudeSurface::AA10,
            },
            shape: ExtrudeShape {
                name: "BARE-4040".to_string(),
                shape: ExtrudeShapeEnum::Square(ExtrudeSquareShape::FourSlot),
                holes_count: 1,
            },
            post_process: ExtrudePostProcess {
                drill: Drill::M8_25mm,
                bevel_cut: false,
                wrench_hole: false,
                wrench_hole_size: 0,
                counterbore: false,
                counterbore_size: CounterboreSize::Z8,
                length: ExtrudeLength { min: 5000, max: 400000, step: 50 },
            },
        }),
        Vender::new("Misumi".to_string()),
    )
}

#[test]
fn default_catalog_holds_the_five_parts() {
    let lib = ComponentLib::default();
    assert_eq!(lib.components.len(), 5);
    for label in [
        "LCF8-4040",
        "LCF8-4080",
        "LCF8-40160",
        "WoodenPanel-test",
        "Accessory-test",
    ] {
        assert!(lib.get_component(&label.to_string()).is_some(), "missing {label}");
    }
    assert!(lib.get_component(&"no-such-part".to_string()).is_none());
}

#[test]
fn add_component_replaces_an_entry_with_the_same_label() {
    let mut lib = ComponentLib::new();
    lib.add_component(Component::new(
        "X".to_string(),
        "first".to_string(),
        ComponentData::Accessory,
        Vender::new("A".to_string()),
    ));
    lib.add_component(Component::new(
        "X".to_string(),
        "second".to_string(),
        ComponentData::Panel(PanelData::Wood),
        Vender::new("B".to_string()),
    ));
    assert_eq!(lib.components.len(), 1);
    let got = lib.get_component(&"X".to_string()).unwrap();
    assert!(matches!(got.data, ComponentData::Panel(_)));
    assert_eq!(got.name, "second");
}

#[test]
fn component_type_follows_the_data() {
    let lib = ComponentLib::default();
    let extrude = lib.get_component(&"LCF8-4040".to_string()).unwrap();
    assert_eq!(ComponentType::from_data(&extrude.data), ComponentType::Extrude);
    let panel = lib.get_component(&"WoodenPanel-test".to_string()).unwrap();
    assert_eq!(ComponentType::from_data(&panel.data), ComponentType::Panel);
    let accessory = lib.get_component(&"Accessory-test".to_string()).unwrap();
    assert_eq!(ComponentType::from_data(&accessory.data), ComponentType::Accessory);
}

#[test]
fn validity_rejects_post_processing_the_part_does_not_offer() {
    let bare = bare_extrude_component();

    let ok = InstanceConfig::Extrude(plain_extrude_config(100000));
    assert!(ok.is_extrude_config_valid(&bare));

    let beveled = InstanceConfig::Extrude(ExtrudeConfig {
        bevel_cut: Some(BevelCutConfig::TopToBottom),
        ..plain_extrude_config(100000)
    });
    assert!(!beveled.is_extrude_config_valid(&bare));

    let counterbored = InstanceConfig::Extrude(ExtrudeConfig {
        counterbore_left: 1,
        ..plain_extrude_config(100000)
    });
    assert!(!counterbored.is_extrude_config_valid(&bare));
}

#[test]
fn validity_checks_the_length_envelope() {
    let lib = ComponentLib::default();
    let component = lib.get_component(&"LCF8-4040".to_string()).unwrap();

    assert!(InstanceConfig::Extrude(plain_extrude_config(5000)).is_extrude_config_valid(component));
    assert!(
        InstanceConfig::Extrude(plain_extrude_config(400000)).is_extrude_config_valid(component)
    );
    assert!(!InstanceConfig::Extrude(plain_extrude_config(4950)).is_extrude_config_valid(component));
    assert!(
        !InstanceConfig::Extrude(plain_extrude_config(400050)).is_extrude_config_valid(component)
    );
    assert!(
        !InstanceConfig::Extrude(plain_extrude_config(100025)).is_extrude_config_valid(component)
    );
    // Wrong part family never validates.
    let panel = lib.get_component(&"WoodenPanel-test".to_string()).unwrap();
    assert!(!InstanceConfig::Extrude(plain_extrude_config(100000)).is_extrude_config_valid(panel));
}

#[test]
fn default_extrude_and_panel_configs() {
    match InstanceConfig::default_extrude(123450) {
        InstanceConfig::Extrude(e) => {
            assert_eq!(e.length, 123450);
            assert!(!e.drill_left && !e.drill_right);
            assert!(e.bevel_cut.is_none());
            assert!(e.wrench_hole_left.is_none() && e.wrench_hole_right.is_none());
            assert_eq!((e.counterbore_left, e.counterbore_right), (0, 0));
        }
        other => panic!("expected an extrusion configuration, got {:?}", other),
    }
    match InstanceConfig::panel(10, 20, 30) {
        InstanceConfig::Panel(p) => {
            assert_eq!((p.width, p.height, p.thickness), (10, 20, 30));
        }
        other => panic!("expected a panel configuration, got {:?}", other),
    }
}

#[test]
fn instance_factories_validate_their_part() {
    let lib = ComponentLib::default();
    let extrude = lib.get_component(&"LCF8-4040".to_string()).unwrap();
    let panel = lib.get_component(&"WoodenPanel-test".to_string()).unwrap();
    let accessory = lib.get_component(&"Accessory-test".to_string()).unwrap();

    assert!(Instance::default_extrude(extrude, 100000).is_some());
    assert!(Instance::default_extrude(panel, 100000).is_none());
    assert!(Instance::default_extrude(extrude, 100).is_none());
    assert!(Instance::default_panel(panel, 1000, 1000, 100).is_some());
    assert!(Instance::default_panel(extrude, 1000, 1000, 100).is_none());

    let placed = Instance::default_extrude(extrude, 100000).unwrap();
    assert_eq!(placed.label(), "LCF8-4040");
    assert_eq!(placed.component_type(), ComponentType::Extrude);
    assert_eq!(placed.instance_config(), InstanceConfig::default_extrude(100000));

    assert_eq!(
        add_normal_instance(extrude).unwrap_err(),
        ValidationError::WrongComponentType
    );
    assert!(add_normal_instance(accessory).is_ok());

    // Distinct placements draw distinct ids.
    let a = Instance::default_extrude(extrude, 100000).unwrap();
    let b = Instance::default_extrude(extrude, 100000).unwrap();
    assert_ne!(a.instance_id(), b.instance_id());
}

#[test]
fn post_process_factory_validates_the_config() {
    let lib = ComponentLib::default();
    let component = lib.get_component(&"LCF8-4040".to_string()).unwrap();
    let instance = Instance::default_extrude(component, 100000).unwrap();

    let good = ExtrudeConfig {
        drill_left: true,
        drill_right: true,
        counterbore_left: 5,
        counterbore_right: 5,
        ..plain_extrude_config(100000)
    };
    assert!(extrude_post_process(&instance, component, good).is_ok());

    let bad_length = plain_extrude_config(100);
    assert_eq!(
        extrude_post_process(&instance, component, bad_length).unwrap_err(),
        ValidationError::InvalidConfig
    );

    let bare = bare_extrude_component();
    let beveled = ExtrudeConfig {
        bevel_cut: Some(BevelCutConfig::BottomToTop),
        ..plain_extrude_config(100000)
    };
    assert_eq!(
        extrude_post_process(&instance, &bare, beveled).unwrap_err(),
        ValidationError::InvalidConfig
    );
}
