//! Catalog of purchasable parts. A [`Component`] is a catalog entry keyed
//! by its label; a [`ComponentLib`] is a set of entries queried by label.
//! The design core never mutates a component: it only reads its type and
//! its manufacturing constraints.

use vstd::prelude::*;

use crate::end_cap::EndCapData;
use crate::extrude::CounterboreSize;
use crate::extrude::Drill;
use crate::extrude::ExtrudeData;
use crate::extrude::ExtrudeLength;
use crate::extrude::ExtrudePostProcess;
use crate::extrude::ExtrudeSeries;
use crate::extrude::ExtrudeShape;
use crate::extrude::ExtrudeShapeEnum;
use crate::extrude::ExtrudeSquareShape;
use crate::extrude::ExtrudeRectShape;
use crate::extrude::ExtrudeStandard;
use crate::extrude::ExtrudeSurface;
use crate::extrude::Metarial;
use crate::extrude::S40ExtrudeSlotDepth;
use crate::extrude_connector::ExtrudeConnectorData;
use crate::floor::FloorData;
use crate::panel::PanelData;

verus! {

/// Everything a catalog entry knows about its part, by part family.
#[derive(Clone, Debug)]
pub enum ComponentData {
    Extrude(ExtrudeData),
    ExtrudeConnector(ExtrudeConnectorData),
    Floor(FloorData),
    Door,
    Panel(PanelData),
    EndCap(EndCapData),
    SlotCover,
    Accessory,
}

/// Tag naming a part family, without its data.
#[derive(Clone, Copy, Debug, PartialEq, Eq, Structural)]
pub enum ComponentType {
    Extrude,
    ExtrudeConnector,
    Floor,
    Door,
    Panel,
    EndCap,
    SlotCover,
    Accessory,
}

/// The family tag of a catalog entry's data.
pub open spec fn type_of_data(data: ComponentData) -> ComponentType {
    match data {
        ComponentData::Extrude(_) => ComponentType::Extrude,
        ComponentData::ExtrudeConnector(_) => ComponentType::ExtrudeConnector,
        ComponentData::Floor(_) => ComponentType::Floor,
        ComponentData::Door => ComponentType::Door,
        ComponentData::Panel(_) => ComponentType::Panel,
        ComponentData::EndCap(_) => ComponentType::EndCap,
        ComponentData::SlotCover => ComponentType::SlotCover,
        ComponentData::Accessory => ComponentType::Accessory,
    }
}

impl ComponentType {
    /// Returns the family tag of `data`.
    pub fn from_data(data: &ComponentData) -> (r: ComponentType)
        ensures
            r == type_of_data(*data),
    {
        match data {
            ComponentData::Extrude(_) => ComponentType::Extrude,
            ComponentData::ExtrudeConnector(_) => ComponentType::ExtrudeConnector,
            ComponentData::Floor(_) => ComponentType::Floor,
            ComponentData::Door => ComponentType::Door,
            ComponentData::Panel(_) => ComponentType::Panel,
            ComponentData::EndCap(_) => ComponentType::EndCap,
            ComponentData::SlotCover => ComponentType::SlotCover,
            ComponentData::Accessory => ComponentType::Accessory,
        }
    }
}

/// A part's maker.
#[derive(Clone, Debug)]
pub struct Vender {
    pub name: String,
}

impl Vender {
    /// Makes a vendor with the given display name.
    pub fn new(name: String) -> (r: Self)
        ensures
            r.name == name,
    {
        Vender { name }
    }

    /// Returns the vendor's display name.
    pub fn name(&self) -> (r: String)
        ensures
            r == self.name,
    {
        self.name.clone()
    }
}

/// One catalog entry: a purchasable part with its constraints.
#[derive(Clone, Debug)]
pub struct Component {
    pub label: String,
    pub name: String,
    pub data: ComponentData,
    pub vendor: Vender,
}

impl Component {
    /// Makes a catalog entry from its parts.
    pub fn new(label: String, name: String, data: ComponentData, vendor: Vender) -> (r: Self)
        ensures
            r.label == label,
            r.name == name,
            r.data == data,
            r.vendor == vendor,
    {
        Component { label, name, data, vendor }
    }
}

/// Post-processing offered for the 40-series Misumi profiles: every
/// operation available, lengths from 5 cm to 4 m in 0.5 mm steps.
pub open spec fn s40_post_process_spec() -> ExtrudePostProcess {
    ExtrudePostProcess {
        drill: Drill::M8_25mm,
        bevel_cut: true,
        wrench_hole: true,
        wrench_hole_size: 7,
        counterbore: true,
        counterbore_size: CounterboreSize::Z8,
        length: ExtrudeLength { min: 5000, max: 400000, step: 50 },
    }
}

/// Standard of the 40-series Misumi profiles.
pub open spec fn s40_standard_spec() -> ExtrudeStandard {
    ExtrudeStandard {
        series: ExtrudeSeries::S40(S40ExtrudeSlotDepth::SlotDepth12_3mm),
        metarial: Metarial::_6063T5,
        surface: ExtrudeSurface::AA10,
    }
}

/// Builds the 40x40 Misumi profile entry.
pub fn misumi_4040_extrude(label: String, name: String, vendor: Vender) -> (r: Component)
    ensures
        r.label == label,
        r.name == name,
        r.vendor == vendor,
        r.data matches ComponentData::Extrude(e)
            && e.standard == s40_standard_spec()
            && e.post_process == s40_post_process_spec()
            && e.shape.shape == ExtrudeShapeEnum::Square(ExtrudeSquareShape::FourSlot)
            && e.shape.holes_count == 1,
{
    let data = ComponentData::Extrude(ExtrudeData {
        standard: ExtrudeStandard {
            series: ExtrudeSeries::S40(S40ExtrudeSlotDepth::SlotDepth12_3mm),
            metarial: Metarial::_6063T5,
            surface: ExtrudeSurface::AA10,
        },
        shape: ExtrudeShape {
            name: "LCF8-4040".to_owned(),
            shape: ExtrudeShapeEnum::Square(ExtrudeSquareShape::FourSlot),
            holes_count: 1,
        },
        post_process: ExtrudePostProcess {
            drill: Drill::M8_25mm,
            bevel_cut: true,
            wrench_hole: true,
            wrench_hole_size: 7,
            counterbore: true,
            counterbore_size: CounterboreSize::Z8,
            length: ExtrudeLength { min: 5000, max: 400000, step: 50 },
        },
    });
    Component { label, name, data, vendor }
}

/// Builds the 40x80 Misumi profile entry.
pub fn misumi_4080_extrude(label: String, name: String, vendor: Vender) -> (r: Component)
    ensures
        r.label == label,
        r.name == name,
        r.vendor == vendor,
        r.data matches ComponentData::Extrude(e)
            && e.standard == s40_standard_spec()
            && e.post_process == s40_post_process_spec()
            && e.shape.shape == ExtrudeShapeEnum::Rect(2, ExtrudeRectShape::FourSlot)
            && e.shape.holes_count == 1,
{
    let data = ComponentData::Extrude(ExtrudeData {
        standard: ExtrudeStandard {
            series: ExtrudeSeries::S40(S40ExtrudeSlotDepth::SlotDepth12_3mm),
            metarial: Metarial::_6063T5,
            surface: ExtrudeSurface::AA10,
        },
        shape: ExtrudeShape {
            name: "LCF8-4040".to_owned(),
            shape: ExtrudeShapeEnum::Rect(2, ExtrudeRectShape::FourSlot),
            holes_count: 1,
        },
        post_process: ExtrudePostProcess {
            drill: Drill::M8_25mm,
            bevel_cut: true,
            wrench_hole: true,
            wrench_hole_size: 7,
            counterbore: true,
            counterbore_size: CounterboreSize::Z8,
            length: ExtrudeLength { min: 5000, max: 400000, step: 50 },
        },
    });
    Component { label, name, data, vendor }
}

/// Builds the 40x120 Misumi profile entry.
pub fn misumi_40120_extrude(label: String, name: String, vendor: Vender) -> (r: Component)
    ensures
        r.label == label,
        r.name == name,
        r.vendor == vendor,
        r.data matches ComponentData::Extrude(e)
            && e.standard == s40_standard_spec()
            && e.post_process == s40_post_process_spec()
            && e.shape.shape == ExtrudeShapeEnum::Rect(3, ExtrudeRectShape::FourSlot)
            && e.shape.holes_count == 1,
{
    let data = ComponentData::Extrude(ExtrudeData {
        standard: ExtrudeStandard {
            series: ExtrudeSeries::S40(S40ExtrudeSlotDepth::SlotDepth12_3mm),
            metarial: Metarial::_6063T5,
            surface: ExtrudeSurface::AA10,
        },
        shape: ExtrudeShape {
            name: "LCF8-4040".to_owned(),
            shape: ExtrudeShapeEnum::Rect(3, ExtrudeRectShape::FourSlot),
            holes_count: 1,
        },
        post_process: ExtrudePostProcess {
            drill: Drill::M8_25mm,
            bevel_cut: true,
            wrench_hole: true,
            wrench_hole_size: 7,
            counterbore: true,
            counterbore_size: CounterboreSize::Z8,
            length: ExtrudeLength { min: 5000, max: 400000, step: 50 },
        },
    });
    Component { label, name, data, vendor }
}

/// Builds the 40x160 Misumi profile entry.
pub fn misumi_40160_extrude(label: String, name: String, vendor: Vender) -> (r: Component)
    ensures
        r.label == label,
        r.name == name,
        r.vendor == vendor,
        r.data matches ComponentData::Extrude(e)
            && e.standard == s40_standard_spec()
            && e.post_process == s40_post_process_spec()
            && e.shape.shape == ExtrudeShapeEnum::Rect(4, ExtrudeRectShape::FourSlot)
            && e.shape.holes_count == 1,
{
    let data = ComponentData::Extrude(ExtrudeData {
        standard: ExtrudeStandard {
            series: ExtrudeSeries::S40(S40ExtrudeSlotDepth::SlotDepth12_3mm),
            metarial: Metarial::_6063T5,
            surface: ExtrudeSurface::AA10,
        },
        shape: ExtrudeShape {
            name: "LCF8-4040".to_owned(),
            shape: ExtrudeShapeEnum::Rect(4, ExtrudeRectShape::FourSlot),
            holes_count: 1,
        },
        post_process: ExtrudePostProcess {
            drill: Drill::M8_25mm,
            bevel_cut: true,
            wrench_hole: true,
            wrench_hole_size: 7,
            counterbore: true,
            counterbore_size: CounterboreSize::Z8,
            length: ExtrudeLength { min: 5000, max: 400000, step: 50 },
        },
    });
    Component { label, name, data, vendor }
}

/// The catalog: entries queried by label. Labels are expected to be
/// unique; adding an entry under an existing label replaces that entry.
#[derive(Debug)]
pub struct ComponentLib {
    pub components: Vec<Component>,
}

impl ComponentLib {
    /// Makes an empty catalog.
    pub fn new() -> (r: Self)
        ensures
            r.components@.len() == 0,
    {
        ComponentLib { components: Vec::new() }
    }

    /// Adds `component` to the catalog, replacing any entry that already
    /// carries the same label.
    pub fn add_component(&mut self, component: Component)
        ensures
            (exists|i: int|
                0 <= i < old(self).components@.len()
                    && old(self).components@[i].label@ == component.label@) ==> (exists|i: int|
                0 <= i < old(self).components@.len()
                    && old(self).components@[i].label@ == component.label@
                    && final(self).components@ == old(self).components@.update(i, component)),
            (forall|i: int|
                0 <= i < old(self).components@.len()
                    ==> old(self).components@[i].label@ != component.label@)
                ==> final(self).components@ == old(self).components@.push(component),
    {
        let n = self.components.len();
        let mut i: usize = 0;
        while i < n
            invariant
                n == self.components@.len(),
                0 <= i <= n,
                self.components@ == old(self).components@,
                forall|j: int| 0 <= j < i ==> self.components@[j].label@ != component.label@,
            decreases n - i,
        {
            if string_eq(&self.components[i].label, &component.label) {
                self.components.remove(i);
                self.components.insert(i, component);
                proof {
                    assert(self.components@ =~= old(self).components@.update(i as int, component));
                }
                return ;
            }
            i += 1;
        }
        self.components.push(component);
    }

    /// Looks up the catalog entry carrying `label`, if any.
    pub fn get_component(&self, label: &String) -> (r: Option<&Component>)
        ensures
            match r {
                Some(c) => exists|i: int|
                    0 <= i < self.components@.len() && self.components@[i] == *c && c.label@
                        == label@,
                None => forall|i: int|
                    0 <= i < self.components@.len() ==> self.components@[i].label@ != label@,
            },
    {
        let n = self.components.len();
        let mut i: usize = 0;
        while i < n
            invariant
                n == self.components@.len(),
                0 <= i <= n,
                forall|j: int| 0 <= j < i ==> self.components@[j].label@ != label@,
            decreases n - i,
        {
            if string_eq(&self.components[i].label, label) {
                return Some(&self.components[i]);
            }
            i += 1;
        }
        None
    }
}

/// Whether the two strings hold the same characters.
fn string_eq(a: &String, b: &String) -> (r: bool)
    ensures
        r == (a@ == b@),
{
    *a == *b
}

impl Default for ComponentLib {
    /// Builds the built-in catalog: three 40-series Misumi profiles, a
    /// test panel, and a test accessory.
    fn default() -> (r: Self)
        ensures
            r.components@.len() == 5,
            r.components@[0].label@ == "LCF8-4040"@,
            r.components@[0].data matches ComponentData::Extrude(e)
                && e.standard == s40_standard_spec()
                && e.post_process == s40_post_process_spec(),
            r.components@[1].label@ == "LCF8-4080"@,
            r.components@[1].data matches ComponentData::Extrude(e)
                && e.standard == s40_standard_spec()
                && e.post_process == s40_post_process_spec(),
            r.components@[2].label@ == "LCF8-40160"@,
            r.components@[2].data matches ComponentData::Extrude(e)
                && e.standard == s40_standard_spec()
                && e.post_process == s40_post_process_spec(),
            r.components@[3].label@ == "WoodenPanel-test"@,
            r.components@[3].data matches ComponentData::Panel(PanelData::Wood),
            r.components@[4].label@ == "Accessory-test"@,
            r.components@[4].data matches ComponentData::Accessory,
    {
        proof {
            reveal_strlit("LCF8-4040");
            reveal_strlit("LCF8-4080");
            reveal_strlit("LCF8-40160");
            reveal_strlit("WoodenPanel-test");
            reveal_strlit("Accessory-test");
            assert("LCF8-4040"@.len() == 9);
            assert("LCF8-4080"@.len() == 9);
            assert("LCF8-40160"@.len() == 10);
            assert("WoodenPanel-test"@.len() == 16);
            assert("Accessory-test"@.len() == 14);
            assert("LCF8-4040"@[7] == '4');
            assert("LCF8-4080"@[7] == '8');
        }
        let misumi = Vender { name: "Misumi".to_owned() };
        let mut lib = ComponentLib::new();
        lib.add_component(
            misumi_4040_extrude(
                "LCF8-4040".to_owned(),
                "4040 profile".to_owned(),
                misumi.clone(),
            ),
        );
        lib.add_component(
            misumi_4080_extrude(
                "LCF8-4080".to_owned(),
                "4080 profile".to_owned(),
                misumi.clone(),
            ),
        );
        lib.add_component(
            misumi_40160_extrude(
                "LCF8-40160".to_owned(),
                "40160 profile".to_owned(),
                misumi,
            ),
        );
        lib.add_component(
            Component::new(
                "WoodenPanel-test".to_owned(),
                "WoodenPanel-test".to_owned(),
                ComponentData::Panel(PanelData::Wood),
                Vender { name: "Fake Panel Maker".to_owned() },
            ),
        );
        lib.add_component(
            Component::new(
                "Accessory-test".to_owned(),
                "Accessory-test".to_owned(),
                ComponentData::Accessory,
                Vender { name: "Fake Accessory Maker".to_owned() },
            ),
        );
        lib
    }
}

} // verus!
