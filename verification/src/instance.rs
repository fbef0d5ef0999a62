//! A placed occurrence of a catalog part: its identity, its pose, and its
//! per-type manufacturing configuration, together with the validity rules
//! a configuration must satisfy against its part's constraints.

use vstd::prelude::*;

use crate::component::Component;
use crate::component::ComponentData;
use crate::component::ComponentType;
use crate::component::type_of_data;
use crate::pose::Pose;

verus! {

/// A placed, configured occurrence of one catalog part.
///
/// The id is assigned once at creation and never reassigned. The
/// configuration's variant is expected to match `component_type`; see
/// [`config_matches_type`].
#[derive(Debug)]
pub struct Instance {
    pub id: u128,
    pub component_label: String,
    pub component_type: ComponentType,
    pub pose: Pose,
    pub config: InstanceConfig,
}

impl Clone for Instance {
    /// Clones the instance; the copy is equal to the original.
    fn clone(&self) -> (r: Self)
        ensures
            r == *self,
    {
        Instance {
            id: self.id,
            component_label: self.component_label.clone(),
            component_type: self.component_type,
            pose: self.pose,
            config: self.config,
        }
    }
}

impl Instance {
    /// Returns the label of the catalog part this instance was placed from.
    pub fn label(&self) -> (r: String)
        ensures
            r == self.component_label,
    {
        self.component_label.clone()
    }

    /// Returns the family tag of the instance's part.
    pub fn component_type(&self) -> (r: ComponentType)
        ensures
            r == self.component_type,
    {
        self.component_type
    }

    /// Returns the instance's pose.
    pub fn pose(&self) -> (r: Pose)
        ensures
            r == self.pose,
    {
        self.pose
    }

    /// Returns the instance's id.
    pub fn instance_id(&self) -> (r: u128)
        ensures
            r == self.id,
    {
        self.id
    }

    /// Returns the instance's configuration.
    pub fn instance_config(&self) -> (r: InstanceConfig)
        ensures
            r == self.config,
    {
        self.config
    }
}

/// Per-type parametric state of an instance.
#[derive(Clone, Copy, Debug, PartialEq, Eq)]
pub enum InstanceConfig {
    /// Parts without parameters.
    Normal,
    /// An extrusion profile cut and post-processed to order.
    Extrude(ExtrudeConfig),
    /// A panel cut to a width, height, and thickness.
    Panel(PanelConfig),
}

/// Ordered manufacturing state of an extrusion profile. All lengths are in
/// hundredths of a millimetre.
#[derive(Clone, Copy, Debug, PartialEq, Eq)]
pub struct ExtrudeConfig {
    pub drill_left: bool,
    pub drill_right: bool,
    pub bevel_cut: Option<BevelCutConfig>,
    pub wrench_hole_left: Option<WrenchHole>,
    pub wrench_hole_right: Option<WrenchHole>,
    pub counterbore_left: u8,
    pub counterbore_right: u8,
    pub length: u32,
}

/// A wrench-hole selection on one end of a profile.
#[derive(Clone, Copy, Debug, PartialEq, Eq)]
pub struct WrenchHole {
    pub number: WrenchHoleNumber,
    pub direction: WrenchHoleDirection,
}

/// How many wrench holes are drilled.
#[derive(Clone, Copy, Debug, PartialEq, Eq)]
pub enum WrenchHoleNumber {
    One,
    Two,
    Three,
}

/// Direction of a wrench hole.
#[derive(Clone, Copy, Debug, PartialEq, Eq)]
pub enum WrenchHoleDirection {
    Horizontal,
    Vertical,
    Both,
}

/// Direction of a bevel cut across a profile's section.
#[derive(Clone, Copy, Debug, PartialEq, Eq)]
pub enum BevelCutConfig {
    TopToBottom,
    BottomToTop,
    OutsideToInside,
    InsideToOutside,
}

/// Ordered dimensions of a panel, in hundredths of a millimetre.
#[derive(Clone, Copy, Debug, PartialEq, Eq)]
pub struct PanelConfig {
    pub width: u32,
    pub height: u32,
    pub thickness: u32,
}

/// Whether a configuration's variant agrees with a part family: extrusion
/// profiles carry `Extrude` configurations, panels carry `Panel` ones, and
/// every other family carries `Normal`.
pub open spec fn config_matches_type(c: InstanceConfig, t: ComponentType) -> bool {
    match c {
        InstanceConfig::Normal => t != ComponentType::Extrude && t != ComponentType::Panel,
        InstanceConfig::Extrude(_) => t == ComponentType::Extrude,
        InstanceConfig::Panel(_) => t == ComponentType::Panel,
    }
}

/// Returns whether `c`'s variant agrees with the family `t`.
pub fn config_matches_type_exec(c: &InstanceConfig, t: ComponentType) -> (r: bool)
    ensures
        r == config_matches_type(*c, t),
{
    match c {
        InstanceConfig::Normal => t != ComponentType::Extrude && t != ComponentType::Panel,
        InstanceConfig::Extrude(_) => t == ComponentType::Extrude,
        InstanceConfig::Panel(_) => t == ComponentType::Panel,
    }
}

/// The extrusion configuration a fresh instance of length `length` gets:
/// no post-processing ordered yet.
pub open spec fn default_extrude_config_spec(length: u32) -> InstanceConfig {
    InstanceConfig::Extrude(
        ExtrudeConfig {
            drill_left: false,
            drill_right: false,
            bevel_cut: None,
            wrench_hole_left: None,
            wrench_hole_right: None,
            counterbore_left: 0,
            counterbore_right: 0,
            length,
        },
    )
}

/// Whether `len` lies in the envelope: between `min` and `max`, and a
/// multiple of a positive `step`.
pub open spec fn envelope_ok(env: crate::extrude::ExtrudeLength, len: u32) -> bool {
    &&& env.min <= len <= env.max
    &&& env.step > 0
    &&& len % env.step == 0
}

/// Whether `c` is an extrusion configuration that the part `comp` can be
/// manufactured to: every ordered post-processing must be offered, and the
/// length must satisfy the part's envelope. Holds only for an `Extrude`
/// configuration checked against an extrusion part.
pub open spec fn extrude_config_valid_spec(c: InstanceConfig, comp: Component) -> bool {
    match (c, comp.data) {
        (InstanceConfig::Extrude(e), ComponentData::Extrude(d)) => {
            let pp = d.post_process;
            &&& (pp.bevel_cut || e.bevel_cut is None)
            &&& (pp.wrench_hole || (e.wrench_hole_left is None && e.wrench_hole_right is None))
            &&& (pp.counterbore || (e.counterbore_left == 0 && e.counterbore_right == 0))
            &&& envelope_ok(pp.length, e.length)
        },
        _ => false,
    }
}

impl InstanceConfig {
    /// Returns the default extrusion configuration of length `length`.
    pub fn default_extrude(length: u32) -> (r: Self)
        ensures
            r == default_extrude_config_spec(length),
    {
        InstanceConfig::Extrude(
            ExtrudeConfig {
                drill_left: false,
                drill_right: false,
                bevel_cut: None,
                wrench_hole_left: None,
                wrench_hole_right: None,
                counterbore_left: 0,
                counterbore_right: 0,
                length,
            },
        )
    }

    /// Returns a panel configuration with the given dimensions.
    pub fn panel(width: u32, height: u32, thickness: u32) -> (r: Self)
        ensures
            r == InstanceConfig::Panel(PanelConfig { width, height, thickness }),
    {
        InstanceConfig::Panel(PanelConfig { width, height, thickness })
    }

    /// Returns whether this configuration is an extrusion configuration
    /// the part `component` can be manufactured to.
    pub fn is_extrude_config_valid(&self, component: &Component) -> (r: bool)
        ensures
            r == extrude_config_valid_spec(*self, *component),
    {
        match (self, &component.data) {
            (InstanceConfig::Extrude(e), ComponentData::Extrude(d)) => {
                let pp = &d.post_process;
                if !pp.bevel_cut && e.bevel_cut.is_some() {
                    return false;
                }
                if !pp.wrench_hole && (e.wrench_hole_left.is_some()
                    || e.wrench_hole_right.is_some()) {
                    return false;
                }
                if !pp.counterbore && (e.counterbore_left > 0 || e.counterbore_right > 0) {
                    return false;
                }
                if e.length < pp.length.min || e.length > pp.length.max {
                    return false;
                }
                if pp.length.step == 0 || e.length % pp.length.step != 0 {
                    return false;
                }
                true
            },
            _ => false,
        }
    }
}

/// Relies on `uuid::Uuid::new_v4` for a freshly drawn random version-4
/// UUID, taken as its 128-bit value. The result is random: nothing is
/// promised of it.
#[verifier::external_body]
fn new_instance_id() -> u128 {
    uuid::Uuid::new_v4().as_u128()
}

/// The configuration a fresh instance of `component` gets before any
/// explicit parameters are chosen.
pub open spec fn default_config_for(component: Component) -> InstanceConfig {
    match component.data {
        ComponentData::Extrude(_) => default_extrude_config_spec(100000),
        ComponentData::Panel(_) => InstanceConfig::Panel(
            PanelConfig { width: 100000, height: 100000, thickness: 2000 },
        ),
        _ => InstanceConfig::Normal,
    }
}

impl Instance {
    /// Places `component` under the given id, at the identity pose, with
    /// the family's default configuration.
    pub fn default_component_with_id(id: u128, component: &Component) -> (r: Instance)
        ensures
            r.id == id,
            r.component_label == component.label,
            r.component_type == type_of_data(component.data),
            r.pose == Pose::identity_spec(),
            r.config == default_config_for(*component),
    {
        let config = match &component.data {
            ComponentData::Extrude(_) => InstanceConfig::default_extrude(100000),
            ComponentData::Panel(_) => InstanceConfig::panel(100000, 100000, 2000),
            _ => InstanceConfig::Normal,
        };
        Instance {
            id,
            component_label: component.label.clone(),
            component_type: ComponentType::from_data(&component.data),
            pose: Pose::identity(),
            config,
        }
    }

    /// Places `component` under a freshly drawn id; otherwise as
    /// [`Instance::default_component_with_id`].
    pub fn default_component(component: &Component) -> (r: Instance)
        ensures
            r.component_label == component.label,
            r.component_type == type_of_data(component.data),
            r.pose == Pose::identity_spec(),
            r.config == default_config_for(*component),
    {
        let id = new_instance_id();
        Instance::default_component_with_id(id, component)
    }

    /// Places an extrusion profile cut to `length` under the given id.
    /// Fails unless `component` is an extrusion part and `length`
    /// satisfies its envelope.
    pub fn default_extrude_with_id(id: u128, component: &Component, length: u32) -> (r: Option<
        Instance,
    >)
        ensures
            r is Some <==> component.data is Extrude && extrude_config_valid_spec(
                default_extrude_config_spec(length),
                *component,
            ),
            r matches Some(i) ==> {
                &&& i.id == id
                &&& i.component_label == component.label
                &&& i.component_type == ComponentType::Extrude
                &&& i.pose == Pose::identity_spec()
                &&& i.config == default_extrude_config_spec(length)
            },
    {
        match &component.data {
            ComponentData::Extrude(_) => {
                let config = InstanceConfig::default_extrude(length);
                if config.is_extrude_config_valid(component) {
                    Some(
                        Instance {
                            id,
                            component_label: component.label.clone(),
                            component_type: ComponentType::from_data(&component.data),
                            pose: Pose::identity(),
                            config,
                        },
                    )
                } else {
                    None
                }
            },
            _ => None,
        }
    }

    /// Places an extrusion profile under a freshly drawn id; otherwise as
    /// [`Instance::default_extrude_with_id`].
    pub fn default_extrude(component: &Component, length: u32) -> (r: Option<Instance>)
        ensures
            r is Some <==> component.data is Extrude && extrude_config_valid_spec(
                default_extrude_config_spec(length),
                *component,
            ),
            r matches Some(i) ==> {
                &&& i.component_label == component.label
                &&& i.component_type == ComponentType::Extrude
                &&& i.pose == Pose::identity_spec()
                &&& i.config == default_extrude_config_spec(length)
            },
    {
        let id = new_instance_id();
        Instance::default_extrude_with_id(id, component, length)
    }

    /// Places a panel cut to the given dimensions under the given id.
    /// Fails unless `component` is a panel part.
    pub fn default_panel_with_id(
        id: u128,
        component: &Component,
        width: u32,
        height: u32,
        thickness: u32,
    ) -> (r: Option<Instance>)
        ensures
            r is Some <==> component.data is Panel,
            r matches Some(i) ==> {
                &&& i.id == id
                &&& i.component_label == component.label
                &&& i.component_type == ComponentType::Panel
                &&& i.pose == Pose::identity_spec()
                &&& i.config == InstanceConfig::Panel(
                    PanelConfig { width, height, thickness },
                )
            },
    {
        match &component.data {
            ComponentData::Panel(_) => Some(
                Instance {
                    id,
                    component_label: component.label.clone(),
                    component_type: ComponentType::from_data(&component.data),
                    pose: Pose::identity(),
                    config: InstanceConfig::panel(width, height, thickness),
                },
            ),
            _ => None,
        }
    }

    /// Places a panel under a freshly drawn id; otherwise as
    /// [`Instance::default_panel_with_id`].
    pub fn default_panel(component: &Component, width: u32, height: u32, thickness: u32) -> (r:
        Option<Instance>)
        ensures
            r is Some <==> component.data is Panel,
            r matches Some(i) ==> {
                &&& i.component_label == component.label
                &&& i.component_type == ComponentType::Panel
                &&& i.pose == Pose::identity_spec()
                &&& i.config == InstanceConfig::Panel(
                    PanelConfig { width, height, thickness },
                )
            },
    {
        let id = new_instance_id();
        Instance::default_panel_with_id(id, component, width, height, thickness)
    }
}

} // verus!
