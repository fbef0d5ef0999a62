//! The closed set of reversible edit operations on a design's instance
//! set. Each operation can be applied, inverted, and possibly merged with
//! a following operation of the same kind on the same instance.
//!
//! Applying an operation caches whatever prior state is needed to invert
//! it exactly; inverting consumes that cache. Both directions are checked:
//! an operation that targets a missing instance, mismatches the instance's
//! part family, would leave a dimension unrepresentable, or is inverted
//! without a cache reports an error and leaves everything unchanged. The
//! spec functions [`op_applicable`], [`op_apply_map`], [`op_apply_op`],
//! [`op_invertible`], [`op_invert_map`], [`op_invert_op`], [`can_merge`]
//! and [`merged_op`] pin every outcome down exactly.

use vstd::prelude::*;
use std::collections::HashMap;

use crate::component::Component;
use crate::component::ComponentData;
use crate::component::ComponentType;
use crate::instance::config_matches_type;
use crate::instance::config_matches_type_exec;
use crate::instance::default_config_for;
use crate::instance::default_extrude_config_spec;
use crate::instance::extrude_config_valid_spec;
use crate::instance::ExtrudeConfig;
use crate::instance::Instance;
use crate::instance::InstanceConfig;
use crate::instance::PanelConfig;
use crate::pose::Pose;

verus! {

broadcast use vstd::std_specs::hash::group_hash_axioms;

/// Why an apply or an invert was refused. The state is never changed when
/// one of these is reported.
#[derive(Clone, Copy, Debug, PartialEq, Eq, Structural)]
pub enum OpError {
    /// The targeted instance is not in the design.
    NotFound,
    /// A configuration's variant does not fit the instance's part family.
    KindMismatch,
    /// An instance with this id is already in the design.
    DuplicateId,
    /// Invert was asked for without a cached prior state.
    DoubleInvert,
    /// A dimension would leave the representable range.
    SizeOutOfRange,
}

/// Why a factory refused to build an operation. A refused operation never
/// reaches the history.
#[derive(Clone, Copy, Debug, PartialEq, Eq, Structural)]
pub enum ValidationError {
    /// The part's family does not fit this operation.
    WrongComponentType,
    /// A length violates the part's envelope.
    InvalidLength,
    /// A configuration orders post-processing the part does not offer.
    InvalidConfig,
}

/// An edit operation over a target: it can be applied, undone, and
/// possibly absorbed into a preceding operation. The contracts of the
/// concrete methods on [`DesignOperation`] state exactly what each kind
/// does; this trait only names the protocol.
pub trait Operation {
    /// What the operation edits.
    type Target;

    /// Applies the operation to the target.
    fn operate(&mut self, target: &mut Self::Target) -> Result<(), OpError>;

    /// Undoes the operation against the target.
    fn inverse(&mut self, target: &mut Self::Target) -> Result<(), OpError>;

    /// Tries to absorb the following operation `other` into this one.
    fn compress(&mut self, other: &Self) -> bool;
}

/// Adds a freshly built instance to the design.
#[derive(Debug)]
pub struct AddInstance {
    pub instance: Instance,
}

/// Removes an instance by id, caching the removed instance so the removal
/// can be inverted.
#[derive(Debug)]
pub struct RemoveInstance {
    pub id: u128,
    pub removed_instance: Option<Instance>,
}

/// Installs a new configuration on an instance, caching the old one. When
/// both the old and the new configuration are extrusion configurations the
/// instance's length is kept: length is owned by [`ExtrudeAddLength`].
#[derive(Clone, Copy, Debug)]
pub struct PostProcessInstance {
    pub id: u128,
    pub config: InstanceConfig,
    pub config_cache: Option<InstanceConfig>,
}

/// Adds to the length of an extrusion instance and moves it to a new
/// pose, caching the old pose.
#[derive(Clone, Copy, Debug)]
pub struct ExtrudeAddLength {
    pub id: u128,
    pub dlength: i32,
    pub new_pose: Pose,
    pub old_pose: Option<Pose>,
}

/// Adds to the dimensions of a panel instance and moves it to a new pose,
/// caching the old pose.
#[derive(Clone, Copy, Debug)]
pub struct PanelAddSize {
    pub id: u128,
    pub dwidth: i32,
    pub dheight: i32,
    pub dthickness: i32,
    pub new_pose: Pose,
    pub old_pose: Option<Pose>,
}

/// Moves an instance to a new pose, caching the old pose.
#[derive(Clone, Copy, Debug)]
pub struct MoveInstance {
    pub id: u128,
    pub new_pose: Pose,
    pub old_pose: Option<Pose>,
}

/// One edit of the design: the closed union of the edit kinds.
#[derive(Debug)]
pub enum DesignOperation {
    AddInstance(AddInstance),
    RemoveInstance(RemoveInstance),
    PostProcessInstance(PostProcessInstance),
    ExtrudeAddLength(ExtrudeAddLength),
    PanelAddSize(PanelAddSize),
    MoveInstance(MoveInstance),
}

/// `c` with its length replaced, when `c` is an extrusion configuration.
pub open spec fn with_length(c: InstanceConfig, len: u32) -> InstanceConfig {
    match c {
        InstanceConfig::Extrude(e) => InstanceConfig::Extrude(ExtrudeConfig { length: len, ..e }),
        _ => c,
    }
}

/// The configuration an instance ends up with when `new_c` is installed
/// over `old_c`: `new_c`, except that between two extrusion configurations
/// the old length is kept.
pub open spec fn reconfigured(old_c: InstanceConfig, new_c: InstanceConfig) -> InstanceConfig {
    match (old_c, new_c) {
        (InstanceConfig::Extrude(oe), InstanceConfig::Extrude(ne)) => InstanceConfig::Extrude(
            ExtrudeConfig { length: oe.length, ..ne },
        ),
        _ => new_c,
    }
}

/// The length carried by an extrusion configuration.
pub open spec fn config_length(c: InstanceConfig) -> int {
    match c {
        InstanceConfig::Extrude(e) => e.length as int,
        _ => 0,
    }
}

/// Whether applying `op` to the instance set `m` succeeds.
pub open spec fn op_applicable(op: DesignOperation, m: Map<u128, Instance>) -> bool {
    match op {
        DesignOperation::AddInstance(a) => !m.contains_key(a.instance.id) && config_matches_type(
            a.instance.config,
            a.instance.component_type,
        ),
        DesignOperation::RemoveInstance(r) => m.contains_key(r.id),
        DesignOperation::PostProcessInstance(p) => m.contains_key(p.id) && config_matches_type(
            p.config,
            m[p.id].component_type,
        ),
        DesignOperation::ExtrudeAddLength(e) => m.contains_key(e.id) && m[e.id].config is Extrude
            && 0 <= config_length(m[e.id].config) + e.dlength <= u32::MAX,
        DesignOperation::PanelAddSize(p) => m.contains_key(p.id) && (m[p.id].config matches
            InstanceConfig::Panel(pc)
            && 0 <= pc.width + p.dwidth <= u32::MAX
            && 0 <= pc.height + p.dheight <= u32::MAX
            && 0 <= pc.thickness + p.dthickness <= u32::MAX),
        DesignOperation::MoveInstance(v) => m.contains_key(v.id),
    }
}

/// The error reported when applying `op` to `m` fails.
pub open spec fn op_apply_err(op: DesignOperation, m: Map<u128, Instance>) -> OpError {
    match op {
        DesignOperation::AddInstance(a) => if m.contains_key(a.instance.id) {
            OpError::DuplicateId
        } else {
            OpError::KindMismatch
        },
        DesignOperation::RemoveInstance(_) => OpError::NotFound,
        DesignOperation::PostProcessInstance(p) => if !m.contains_key(p.id) {
            OpError::NotFound
        } else {
            OpError::KindMismatch
        },
        DesignOperation::ExtrudeAddLength(e) => if !m.contains_key(e.id) {
            OpError::NotFound
        } else if !(m[e.id].config is Extrude) {
            OpError::KindMismatch
        } else {
            OpError::SizeOutOfRange
        },
        DesignOperation::PanelAddSize(p) => if !m.contains_key(p.id) {
            OpError::NotFound
        } else if !(m[p.id].config is Panel) {
            OpError::KindMismatch
        } else {
            OpError::SizeOutOfRange
        },
        DesignOperation::MoveInstance(_) => OpError::NotFound,
    }
}

/// The instance set after `op` is applied to `m`. Meaningful when
/// [`op_applicable`] holds.
pub open spec fn op_apply_map(op: DesignOperation, m: Map<u128, Instance>) -> Map<u128, Instance> {
    match op {
        DesignOperation::AddInstance(a) => m.insert(a.instance.id, a.instance),
        DesignOperation::RemoveInstance(r) => m.remove(r.id),
        DesignOperation::PostProcessInstance(p) => m.insert(
            p.id,
            Instance { config: reconfigured(m[p.id].config, p.config), ..m[p.id] },
        ),
        DesignOperation::ExtrudeAddLength(e) => m.insert(
            e.id,
            Instance {
                config: with_length(
                    m[e.id].config,
                    (config_length(m[e.id].config) + e.dlength) as u32,
                ),
                pose: e.new_pose,
                ..m[e.id]
            },
        ),
        DesignOperation::PanelAddSize(p) => m.insert(
            p.id,
            Instance { config: panel_grown(m[p.id].config, p), pose: p.new_pose, ..m[p.id] },
        ),
        DesignOperation::MoveInstance(v) => m.insert(
            v.id,
            Instance { pose: v.new_pose, ..m[v.id] },
        ),
    }
}

/// A panel configuration with `p`'s deltas added to each dimension.
pub open spec fn panel_grown(c: InstanceConfig, p: PanelAddSize) -> InstanceConfig {
    match c {
        InstanceConfig::Panel(pc) => InstanceConfig::Panel(
            PanelConfig {
                width: (pc.width + p.dwidth) as u32,
                height: (pc.height + p.dheight) as u32,
                thickness: (pc.thickness + p.dthickness) as u32,
            },
        ),
        _ => c,
    }
}

/// `op` after a successful apply on `m`: the same operation with its
/// cache of prior state filled.
pub open spec fn op_apply_op(op: DesignOperation, m: Map<u128, Instance>) -> DesignOperation {
    match op {
        DesignOperation::AddInstance(a) => DesignOperation::AddInstance(a),
        DesignOperation::RemoveInstance(r) => DesignOperation::RemoveInstance(
            RemoveInstance { id: r.id, removed_instance: Some(m[r.id]) },
        ),
        DesignOperation::PostProcessInstance(p) => DesignOperation::PostProcessInstance(
            PostProcessInstance { config_cache: Some(m[p.id].config), ..p },
        ),
        DesignOperation::ExtrudeAddLength(e) => DesignOperation::ExtrudeAddLength(
            ExtrudeAddLength { old_pose: Some(m[e.id].pose), ..e },
        ),
        DesignOperation::PanelAddSize(p) => DesignOperation::PanelAddSize(
            PanelAddSize { old_pose: Some(m[p.id].pose), ..p },
        ),
        DesignOperation::MoveInstance(v) => DesignOperation::MoveInstance(
            MoveInstance { old_pose: Some(m[v.id].pose), ..v },
        ),
    }
}

/// Whether inverting `op` against the instance set `m` succeeds.
pub open spec fn op_invertible(op: DesignOperation, m: Map<u128, Instance>) -> bool {
    match op {
        DesignOperation::AddInstance(a) => m.contains_key(a.instance.id),
        DesignOperation::RemoveInstance(r) => r.removed_instance matches Some(c)
            && !m.contains_key(c.id) && config_matches_type(c.config, c.component_type),
        DesignOperation::PostProcessInstance(p) => m.contains_key(p.id) && (p.config_cache matches
            Some(c)
            && config_matches_type(c, m[p.id].component_type)),
        DesignOperation::ExtrudeAddLength(e) => m.contains_key(e.id) && m[e.id].config is Extrude
            && e.old_pose is Some && 0 <= config_length(m[e.id].config) - e.dlength <= u32::MAX,
        DesignOperation::PanelAddSize(p) => m.contains_key(p.id) && p.old_pose is Some && (m[p.id].config
            matches InstanceConfig::Panel(pc)
            && 0 <= pc.width - p.dwidth <= u32::MAX
            && 0 <= pc.height - p.dheight <= u32::MAX
            && 0 <= pc.thickness - p.dthickness <= u32::MAX),
        DesignOperation::MoveInstance(v) => m.contains_key(v.id) && v.old_pose is Some,
    }
}

/// The error reported when inverting `op` against `m` fails.
pub open spec fn op_invert_err(op: DesignOperation, m: Map<u128, Instance>) -> OpError {
    match op {
        DesignOperation::AddInstance(_) => OpError::NotFound,
        DesignOperation::RemoveInstance(r) => if r.removed_instance is None {
            OpError::DoubleInvert
        } else if m.contains_key(r.removed_instance->Some_0.id) {
            OpError::DuplicateId
        } else {
            OpError::KindMismatch
        },
        DesignOperation::PostProcessInstance(p) => if !m.contains_key(p.id) {
            OpError::NotFound
        } else if p.config_cache is None {
            OpError::DoubleInvert
        } else {
            OpError::KindMismatch
        },
        DesignOperation::ExtrudeAddLength(e) => if !m.contains_key(e.id) {
            OpError::NotFound
        } else if !(m[e.id].config is Extrude) {
            OpError::KindMismatch
        } else if e.old_pose is None {
            OpError::DoubleInvert
        } else {
            OpError::SizeOutOfRange
        },
        DesignOperation::PanelAddSize(p) => if !m.contains_key(p.id) {
            OpError::NotFound
        } else if !(m[p.id].config is Panel) {
            OpError::KindMismatch
        } else if p.old_pose is None {
            OpError::DoubleInvert
        } else {
            OpError::SizeOutOfRange
        },
        DesignOperation::MoveInstance(v) => if !m.contains_key(v.id) {
            OpError::NotFound
        } else {
            OpError::DoubleInvert
        },
    }
}

/// The instance set after `op` is inverted against `m`. Meaningful when
/// [`op_invertible`] holds.
pub open spec fn op_invert_map(op: DesignOperation, m: Map<u128, Instance>) -> Map<u128, Instance> {
    match op {
        DesignOperation::AddInstance(a) => m.remove(a.instance.id),
        DesignOperation::RemoveInstance(r) => {
            let c = r.removed_instance->Some_0;
            m.insert(c.id, c)
        },
        DesignOperation::PostProcessInstance(p) => m.insert(
            p.id,
            Instance { config: p.config_cache->Some_0, ..m[p.id] },
        ),
        DesignOperation::ExtrudeAddLength(e) => m.insert(
            e.id,
            Instance {
                config: with_length(
                    m[e.id].config,
                    (config_length(m[e.id].config) - e.dlength) as u32,
                ),
                pose: e.old_pose->Some_0,
                ..m[e.id]
            },
        ),
        DesignOperation::PanelAddSize(p) => m.insert(
            p.id,
            Instance {
                config: panel_shrunk(m[p.id].config, p),
                pose: p.old_pose->Some_0,
                ..m[p.id]
            },
        ),
        DesignOperation::MoveInstance(v) => m.insert(
            v.id,
            Instance { pose: v.old_pose->Some_0, ..m[v.id] },
        ),
    }
}

/// A panel configuration with `p`'s deltas taken back off each dimension.
pub open spec fn panel_shrunk(c: InstanceConfig, p: PanelAddSize) -> InstanceConfig {
    match c {
        InstanceConfig::Panel(pc) => InstanceConfig::Panel(
            PanelConfig {
                width: (pc.width - p.dwidth) as u32,
                height: (pc.height - p.dheight) as u32,
                thickness: (pc.thickness - p.dthickness) as u32,
            },
        ),
        _ => c,
    }
}

/// `op` after a successful invert: the same operation with its cache of
/// prior state consumed.
pub open spec fn op_invert_op(op: DesignOperation) -> DesignOperation {
    match op {
        DesignOperation::AddInstance(a) => DesignOperation::AddInstance(a),
        DesignOperation::RemoveInstance(r) => DesignOperation::RemoveInstance(
            RemoveInstance { id: r.id, removed_instance: None },
        ),
        DesignOperation::PostProcessInstance(p) => DesignOperation::PostProcessInstance(
            PostProcessInstance { config_cache: None, ..p },
        ),
        DesignOperation::ExtrudeAddLength(e) => DesignOperation::ExtrudeAddLength(
            ExtrudeAddLength { old_pose: None, ..e },
        ),
        DesignOperation::PanelAddSize(p) => DesignOperation::PanelAddSize(
            PanelAddSize { old_pose: None, ..p },
        ),
        DesignOperation::MoveInstance(v) => DesignOperation::MoveInstance(
            MoveInstance { old_pose: None, ..v },
        ),
    }
}

/// Whether the history entry `top` can absorb the following operation
/// `next`: same kind, same target, and summed deltas representable. Only
/// the length, size, and move kinds merge; the snapshot-caching kinds
/// never do, since their caches cannot be combined without loss.
pub open spec fn can_merge(top: DesignOperation, next: DesignOperation) -> bool {
    match (top, next) {
        (DesignOperation::ExtrudeAddLength(a), DesignOperation::ExtrudeAddLength(b)) => a.id == b.id
            && i32::MIN <= a.dlength + b.dlength <= i32::MAX,
        (DesignOperation::PanelAddSize(a), DesignOperation::PanelAddSize(b)) => a.id == b.id
            && i32::MIN <= a.dwidth + b.dwidth <= i32::MAX
            && i32::MIN <= a.dheight + b.dheight <= i32::MAX
            && i32::MIN <= a.dthickness + b.dthickness <= i32::MAX,
        (DesignOperation::MoveInstance(a), DesignOperation::MoveInstance(b)) => a.id == b.id,
        _ => false,
    }
}

/// The single entry standing for `top` followed by `next`: deltas sum,
/// the new poses compose, and `top`'s cache of the state before both is
/// kept. Meaningful when [`can_merge`] holds.
pub open spec fn merged_op(top: DesignOperation, next: DesignOperation) -> DesignOperation {
    match (top, next) {
        (DesignOperation::ExtrudeAddLength(a), DesignOperation::ExtrudeAddLength(b)) => DesignOperation::ExtrudeAddLength(
            ExtrudeAddLength {
                id: a.id,
                dlength: (a.dlength + b.dlength) as i32,
                new_pose: Pose::compose_spec(a.new_pose, b.new_pose),
                old_pose: a.old_pose,
            },
        ),
        (DesignOperation::PanelAddSize(a), DesignOperation::PanelAddSize(b)) => DesignOperation::PanelAddSize(
            PanelAddSize {
                id: a.id,
                dwidth: (a.dwidth + b.dwidth) as i32,
                dheight: (a.dheight + b.dheight) as i32,
                dthickness: (a.dthickness + b.dthickness) as i32,
                new_pose: Pose::compose_spec(a.new_pose, b.new_pose),
                old_pose: a.old_pose,
            },
        ),
        (DesignOperation::MoveInstance(a), DesignOperation::MoveInstance(b)) => DesignOperation::MoveInstance(
            MoveInstance {
                id: a.id,
                new_pose: Pose::compose_spec(a.new_pose, b.new_pose),
                old_pose: a.old_pose,
            },
        ),
        _ => top,
    }
}

impl AddInstance {
    /// Inserts the operation's instance into the design.
    pub fn operate(&mut self, instances: &mut HashMap<u128, Instance>) -> (r: Result<(), OpError>)
        ensures
            op_outcome(
                DesignOperation::AddInstance(*old(self)),
                DesignOperation::AddInstance(*final(self)),
                old(instances)@,
                final(instances)@,
                r,
            ),
    {
        if instances.contains_key(&self.instance.id) {
            Err(OpError::DuplicateId)
        } else if !config_matches_type_exec(&self.instance.config, self.instance.component_type) {
            Err(OpError::KindMismatch)
        } else {
            instances.insert(self.instance.id, self.instance.clone());
            Ok(())
        }
    }

    /// Takes the operation's instance back out of the design.
    pub fn inverse(&mut self, instances: &mut HashMap<u128, Instance>) -> (r: Result<(), OpError>)
        ensures
            op_inverse_outcome(
                DesignOperation::AddInstance(*old(self)),
                DesignOperation::AddInstance(*final(self)),
                old(instances)@,
                final(instances)@,
                r,
            ),
    {
        if instances.contains_key(&self.instance.id) {
            let _ = instances.remove(&self.instance.id);
            Ok(())
        } else {
            Err(OpError::NotFound)
        }
    }

    /// An addition never absorbs a following operation.
    pub fn compress(&mut self, _other: &AddInstance) -> (r: bool)
        ensures
            !r,
            *final(self) == *old(self),
    {
        false
    }
}

impl RemoveInstance {
    /// Removes the targeted instance, caching it for inversion.
    pub fn operate(&mut self, instances: &mut HashMap<u128, Instance>) -> (r: Result<(), OpError>)
        ensures
            op_outcome(
                DesignOperation::RemoveInstance(*old(self)),
                DesignOperation::RemoveInstance(*final(self)),
                old(instances)@,
                final(instances)@,
                r,
            ),
    {
        match instances.remove(&self.id) {
            None => {
                proof {
                    assert(instances@ =~= old(instances)@);
                }
                Err(OpError::NotFound)
            },
            Some(inst) => {
                self.removed_instance = Some(inst);
                Ok(())
            },
        }
    }

    /// Puts the cached instance back, consuming the cache.
    pub fn inverse(&mut self, instances: &mut HashMap<u128, Instance>) -> (r: Result<(), OpError>)
        ensures
            op_inverse_outcome(
                DesignOperation::RemoveInstance(*old(self)),
                DesignOperation::RemoveInstance(*final(self)),
                old(instances)@,
                final(instances)@,
                r,
            ),
    {
        if self.removed_instance.is_none() {
            return Err(OpError::DoubleInvert);
        }
        let cached = self.removed_instance.take().unwrap();
        if instances.contains_key(&cached.id) {
            self.removed_instance = Some(cached);
            return Err(OpError::DuplicateId);
        }
        if !config_matches_type_exec(&cached.config, cached.component_type) {
            self.removed_instance = Some(cached);
            return Err(OpError::KindMismatch);
        }
        instances.insert(cached.id, cached);
        Ok(())
    }

    /// A removal never absorbs a following operation.
    pub fn compress(&mut self, _other: &RemoveInstance) -> (r: bool)
        ensures
            !r,
            *final(self) == *old(self),
    {
        false
    }
}

impl PostProcessInstance {
    /// Installs the operation's configuration, caching the old one. The
    /// instance's length is kept when both configurations are extrusion
    /// configurations.
    pub fn operate(&mut self, instances: &mut HashMap<u128, Instance>) -> (r: Result<(), OpError>)
        ensures
            op_outcome(
                DesignOperation::PostProcessInstance(*old(self)),
                DesignOperation::PostProcessInstance(*final(self)),
                old(instances)@,
                final(instances)@,
                r,
            ),
    {
        match instances.remove(&self.id) {
            None => {
                proof {
                    assert(instances@ =~= old(instances)@);
                }
                Err(OpError::NotFound)
            },
            Some(mut inst) => {
                if !config_matches_type_exec(&self.config, inst.component_type) {
                    instances.insert(self.id, inst);
                    proof {
                        assert(instances@ =~= old(instances)@);
                    }
                    Err(OpError::KindMismatch)
                } else {
                    let new_config = match (&self.config, &inst.config) {
                        (InstanceConfig::Extrude(ne), InstanceConfig::Extrude(oe)) => {
                            InstanceConfig::Extrude(ExtrudeConfig { length: oe.length, ..*ne })
                        },
                        _ => self.config,
                    };
                    self.config_cache = Some(inst.config);
                    inst.config = new_config;
                    instances.insert(self.id, inst);
                    proof {
                        assert(instances@ =~= op_apply_map(
                            DesignOperation::PostProcessInstance(*old(self)),
                            old(instances)@,
                        ));
                    }
                    Ok(())
                }
            },
        }
    }

    /// Restores the cached configuration, consuming the cache.
    pub fn inverse(&mut self, instances: &mut HashMap<u128, Instance>) -> (r: Result<(), OpError>)
        ensures
            op_inverse_outcome(
                DesignOperation::PostProcessInstance(*old(self)),
                DesignOperation::PostProcessInstance(*final(self)),
                old(instances)@,
                final(instances)@,
                r,
            ),
    {
        match instances.remove(&self.id) {
            None => {
                proof {
                    assert(instances@ =~= old(instances)@);
                }
                Err(OpError::NotFound)
            },
            Some(mut inst) => {
                match self.config_cache {
                    None => {
                        instances.insert(self.id, inst);
                        proof {
                            assert(instances@ =~= old(instances)@);
                        }
                        Err(OpError::DoubleInvert)
                    },
                    Some(cached) => {
                        if !config_matches_type_exec(&cached, inst.component_type) {
                            instances.insert(self.id, inst);
                            proof {
                                assert(instances@ =~= old(instances)@);
                            }
                            Err(OpError::KindMismatch)
                        } else {
                            self.config_cache = None;
                            inst.config = cached;
                            instances.insert(self.id, inst);
                            proof {
                                assert(instances@ =~= op_invert_map(
                                    DesignOperation::PostProcessInstance(*old(self)),
                                    old(instances)@,
                                ));
                            }
                            Ok(())
                        }
                    },
                }
            },
        }
    }

    /// A reconfiguration never absorbs a following operation.
    pub fn compress(&mut self, _other: &PostProcessInstance) -> (r: bool)
        ensures
            !r,
            *final(self) == *old(self),
    {
        false
    }
}

impl ExtrudeAddLength {
    /// Adds the length delta and installs the new pose, caching the old
    /// pose. The resulting length is not re-validated against the part's
    /// envelope: the factory that built the delta is responsible for
    /// that. Only representability is checked.
    pub fn operate(&mut self, instances: &mut HashMap<u128, Instance>) -> (r: Result<(), OpError>)
        ensures
            op_outcome(
                DesignOperation::ExtrudeAddLength(*old(self)),
                DesignOperation::ExtrudeAddLength(*final(self)),
                old(instances)@,
                final(instances)@,
                r,
            ),
    {
        match instances.remove(&self.id) {
            None => {
                proof {
                    assert(instances@ =~= old(instances)@);
                }
                Err(OpError::NotFound)
            },
            Some(mut inst) => {
                match inst.config {
                    InstanceConfig::Extrude(e) => {
                        let nl: i64 = e.length as i64 + self.dlength as i64;
                        if nl < 0 || nl > u32::MAX as i64 {
                            instances.insert(self.id, inst);
                            proof {
                                assert(instances@ =~= old(instances)@);
                            }
                            Err(OpError::SizeOutOfRange)
                        } else {
                            self.old_pose = Some(inst.pose);
                            inst.pose = self.new_pose;
                            inst.config = InstanceConfig::Extrude(
                                ExtrudeConfig { length: nl as u32, ..e },
                            );
                            instances.insert(self.id, inst);
                            proof {
                                assert(instances@ =~= op_apply_map(
                                    DesignOperation::ExtrudeAddLength(*old(self)),
                                    old(instances)@,
                                ));
                            }
                            Ok(())
                        }
                    },
                    _ => {
                        instances.insert(self.id, inst);
                        proof {
                            assert(instances@ =~= old(instances)@);
                        }
                        Err(OpError::KindMismatch)
                    },
                }
            },
        }
    }

    /// Takes the length delta back off and restores the cached pose.
    pub fn inverse(&mut self, instances: &mut HashMap<u128, Instance>) -> (r: Result<(), OpError>)
        ensures
            op_inverse_outcome(
                DesignOperation::ExtrudeAddLength(*old(self)),
                DesignOperation::ExtrudeAddLength(*final(self)),
                old(instances)@,
                final(instances)@,
                r,
            ),
    {
        match instances.remove(&self.id) {
            None => {
                proof {
                    assert(instances@ =~= old(instances)@);
                }
                Err(OpError::NotFound)
            },
            Some(mut inst) => {
                match inst.config {
                    InstanceConfig::Extrude(e) => {
                        match self.old_pose {
                            None => {
                                instances.insert(self.id, inst);
                                proof {
                                    assert(instances@ =~= old(instances)@);
                                }
                                Err(OpError::DoubleInvert)
                            },
                            Some(p) => {
                                let nl: i64 = e.length as i64 - self.dlength as i64;
                                if nl < 0 || nl > u32::MAX as i64 {
                                    instances.insert(self.id, inst);
                                    proof {
                                        assert(instances@ =~= old(instances)@);
                                    }
                                    Err(OpError::SizeOutOfRange)
                                } else {
                                    self.old_pose = None;
                                    inst.pose = p;
                                    inst.config = InstanceConfig::Extrude(
                                        ExtrudeConfig { length: nl as u32, ..e },
                                    );
                                    instances.insert(self.id, inst);
                                    proof {
                                        assert(instances@ =~= op_invert_map(
                                            DesignOperation::ExtrudeAddLength(*old(self)),
                                            old(instances)@,
                                        ));
                                    }
                                    Ok(())
                                }
                            },
                        }
                    },
                    _ => {
                        instances.insert(self.id, inst);
                        proof {
                            assert(instances@ =~= old(instances)@);
                        }
                        Err(OpError::KindMismatch)
                    },
                }
            },
        }
    }

    /// Absorbs a following length change on the same instance: the deltas
    /// sum and the new poses compose.
    pub fn compress(&mut self, other: &ExtrudeAddLength) -> (r: bool)
        ensures
            r == can_merge(
                DesignOperation::ExtrudeAddLength(*old(self)),
                DesignOperation::ExtrudeAddLength(*other),
            ),
            r ==> DesignOperation::ExtrudeAddLength(*final(self)) == merged_op(
                DesignOperation::ExtrudeAddLength(*old(self)),
                DesignOperation::ExtrudeAddLength(*other),
            ),
            !r ==> *final(self) == *old(self),
    {
        if self.id != other.id {
            return false;
        }
        let s: i64 = self.dlength as i64 + other.dlength as i64;
        if s < i32::MIN as i64 || s > i32::MAX as i64 {
            return false;
        }
        self.dlength = s as i32;
        self.new_pose = self.new_pose.compose(&other.new_pose);
        true
    }
}

impl PanelAddSize {
    /// Adds the size deltas and installs the new pose, caching the old
    /// pose. Only representability of the dimensions is checked.
    pub fn operate(&mut self, instances: &mut HashMap<u128, Instance>) -> (r: Result<(), OpError>)
        ensures
            op_outcome(
                DesignOperation::PanelAddSize(*old(self)),
                DesignOperation::PanelAddSize(*final(self)),
                old(instances)@,
                final(instances)@,
                r,
            ),
    {
        match instances.remove(&self.id) {
            None => {
                proof {
                    assert(instances@ =~= old(instances)@);
                }
                Err(OpError::NotFound)
            },
            Some(mut inst) => {
                match inst.config {
                    InstanceConfig::Panel(pc) => {
                        let nw: i64 = pc.width as i64 + self.dwidth as i64;
                        let nh: i64 = pc.height as i64 + self.dheight as i64;
                        let nt: i64 = pc.thickness as i64 + self.dthickness as i64;
                        if nw < 0 || nw > u32::MAX as i64 || nh < 0 || nh > u32::MAX as i64
                            || nt < 0 || nt > u32::MAX as i64 {
                            instances.insert(self.id, inst);
                            proof {
                                assert(instances@ =~= old(instances)@);
                            }
                            Err(OpError::SizeOutOfRange)
                        } else {
                            self.old_pose = Some(inst.pose);
                            inst.pose = self.new_pose;
                            inst.config = InstanceConfig::Panel(
                                PanelConfig {
                                    width: nw as u32,
                                    height: nh as u32,
                                    thickness: nt as u32,
                                },
                            );
                            instances.insert(self.id, inst);
                            proof {
                                assert(instances@ =~= op_apply_map(
                                    DesignOperation::PanelAddSize(*old(self)),
                                    old(instances)@,
                                ));
                            }
                            Ok(())
                        }
                    },
                    _ => {
                        instances.insert(self.id, inst);
                        proof {
                            assert(instances@ =~= old(instances)@);
                        }
                        Err(OpError::KindMismatch)
                    },
                }
            },
        }
    }

    /// Takes the size deltas back off and restores the cached pose.
    pub fn inverse(&mut self, instances: &mut HashMap<u128, Instance>) -> (r: Result<(), OpError>)
        ensures
            op_inverse_outcome(
                DesignOperation::PanelAddSize(*old(self)),
                DesignOperation::PanelAddSize(*final(self)),
                old(instances)@,
                final(instances)@,
                r,
            ),
    {
        match instances.remove(&self.id) {
            None => {
                proof {
                    assert(instances@ =~= old(instances)@);
                }
                Err(OpError::NotFound)
            },
            Some(mut inst) => {
                match inst.config {
                    InstanceConfig::Panel(pc) => {
                        match self.old_pose {
                            None => {
                                instances.insert(self.id, inst);
                                proof {
                                    assert(instances@ =~= old(instances)@);
                                }
                                Err(OpError::DoubleInvert)
                            },
                            Some(p) => {
                                let nw: i64 = pc.width as i64 - self.dwidth as i64;
                                let nh: i64 = pc.height as i64 - self.dheight as i64;
                                let nt: i64 = pc.thickness as i64 - self.dthickness as i64;
                                if nw < 0 || nw > u32::MAX as i64 || nh < 0 || nh > u32::MAX as i64
                                    || nt < 0 || nt > u32::MAX as i64 {
                                    instances.insert(self.id, inst);
                                    proof {
                                        assert(instances@ =~= old(instances)@);
                                    }
                                    Err(OpError::SizeOutOfRange)
                                } else {
                                    self.old_pose = None;
                                    inst.pose = p;
                                    inst.config = InstanceConfig::Panel(
                                        PanelConfig {
                                            width: nw as u32,
                                            height: nh as u32,
                                            thickness: nt as u32,
                                        },
                                    );
                                    instances.insert(self.id, inst);
                                    proof {
                                        assert(instances@ =~= op_invert_map(
                                            DesignOperation::PanelAddSize(*old(self)),
                                            old(instances)@,
                                        ));
                                    }
                                    Ok(())
                                }
                            },
                        }
                    },
                    _ => {
                        instances.insert(self.id, inst);
                        proof {
                            assert(instances@ =~= old(instances)@);
                        }
                        Err(OpError::KindMismatch)
                    },
                }
            },
        }
    }

    /// Absorbs a following size change on the same instance: the deltas
    /// sum and the new poses compose.
    pub fn compress(&mut self, other: &PanelAddSize) -> (r: bool)
        ensures
            r == can_merge(
                DesignOperation::PanelAddSize(*old(self)),
                DesignOperation::PanelAddSize(*other),
            ),
            r ==> DesignOperation::PanelAddSize(*final(self)) == merged_op(
                DesignOperation::PanelAddSize(*old(self)),
                DesignOperation::PanelAddSize(*other),
            ),
            !r ==> *final(self) == *old(self),
    {
        if self.id != other.id {
            return false;
        }
        let sw: i64 = self.dwidth as i64 + other.dwidth as i64;
        let sh: i64 = self.dheight as i64 + other.dheight as i64;
        let st: i64 = self.dthickness as i64 + other.dthickness as i64;
        if sw < i32::MIN as i64 || sw > i32::MAX as i64 || sh < i32::MIN as i64 || sh > i32::MAX
            as i64 || st < i32::MIN as i64 || st > i32::MAX as i64 {
            return false;
        }
        self.dwidth = sw as i32;
        self.dheight = sh as i32;
        self.dthickness = st as i32;
        self.new_pose = self.new_pose.compose(&other.new_pose);
        true
    }
}

impl MoveInstance {
    /// Installs the new pose, caching the old pose.
    pub fn operate(&mut self, instances: &mut HashMap<u128, Instance>) -> (r: Result<(), OpError>)
        ensures
            op_outcome(
                DesignOperation::MoveInstance(*old(self)),
                DesignOperation::MoveInstance(*final(self)),
                old(instances)@,
                final(instances)@,
                r,
            ),
    {
        match instances.remove(&self.id) {
            None => {
                proof {
                    assert(instances@ =~= old(instances)@);
                }
                Err(OpError::NotFound)
            },
            Some(mut inst) => {
                self.old_pose = Some(inst.pose);
                inst.pose = self.new_pose;
                instances.insert(self.id, inst);
                proof {
                    assert(instances@ =~= op_apply_map(
                        DesignOperation::MoveInstance(*old(self)),
                        old(instances)@,
                    ));
                }
                Ok(())
            },
        }
    }

    /// Restores the cached pose, consuming the cache.
    pub fn inverse(&mut self, instances: &mut HashMap<u128, Instance>) -> (r: Result<(), OpError>)
        ensures
            op_inverse_outcome(
                DesignOperation::MoveInstance(*old(self)),
                DesignOperation::MoveInstance(*final(self)),
                old(instances)@,
                final(instances)@,
                r,
            ),
    {
        match instances.remove(&self.id) {
            None => {
                proof {
                    assert(instances@ =~= old(instances)@);
                }
                Err(OpError::NotFound)
            },
            Some(mut inst) => {
                match self.old_pose {
                    None => {
                        instances.insert(self.id, inst);
                        proof {
                            assert(instances@ =~= old(instances)@);
                        }
                        Err(OpError::DoubleInvert)
                    },
                    Some(p) => {
                        self.old_pose = None;
                        inst.pose = p;
                        instances.insert(self.id, inst);
                        proof {
                            assert(instances@ =~= op_invert_map(
                                DesignOperation::MoveInstance(*old(self)),
                                old(instances)@,
                            ));
                        }
                        Ok(())
                    },
                }
            },
        }
    }

    /// Absorbs a following move of the same instance: the new poses
    /// compose.
    pub fn compress(&mut self, other: &MoveInstance) -> (r: bool)
        ensures
            r == can_merge(
                DesignOperation::MoveInstance(*old(self)),
                DesignOperation::MoveInstance(*other),
            ),
            r ==> DesignOperation::MoveInstance(*final(self)) == merged_op(
                DesignOperation::MoveInstance(*old(self)),
                DesignOperation::MoveInstance(*other),
            ),
            !r ==> *final(self) == *old(self),
    {
        if self.id != other.id {
            return false;
        }
        self.new_pose = self.new_pose.compose(&other.new_pose);
        true
    }
}

impl AddInstance {
    /// Builds an addition of `component` with its family's default
    /// configuration, under a freshly drawn id.
    pub fn default_component(component: &Component) -> (r: Self)
        ensures
            r.instance.component_label == component.label,
            r.instance.component_type == crate::component::type_of_data(component.data),
            r.instance.pose == Pose::identity_spec(),
            r.instance.config == default_config_for(*component),
    {
        AddInstance { instance: Instance::default_component(component) }
    }

    /// Builds an addition of an extrusion profile cut to `length`, under
    /// a freshly drawn id. Fails unless `component` is an extrusion part
    /// and `length` satisfies its envelope.
    pub fn extrude(component: &Component, length: u32) -> (r: Option<Self>)
        ensures
            r is Some <==> component.data is Extrude && extrude_config_valid_spec(
                default_extrude_config_spec(length),
                *component,
            ),
            r matches Some(a) ==> {
                &&& a.instance.component_label == component.label
                &&& a.instance.component_type == ComponentType::Extrude
                &&& a.instance.pose == Pose::identity_spec()
                &&& a.instance.config == default_extrude_config_spec(length)
            },
    {
        match Instance::default_extrude(component, length) {
            Some(instance) => Some(AddInstance { instance }),
            None => None,
        }
    }

    /// Builds an addition of a panel cut to the given dimensions, under a
    /// freshly drawn id. Fails unless `component` is a panel part.
    pub fn panel(component: &Component, width: u32, height: u32, thickness: u32) -> (r: Option<
        Self,
    >)
        ensures
            r is Some <==> component.data is Panel,
            r matches Some(a) ==> {
                &&& a.instance.component_label == component.label
                &&& a.instance.component_type == ComponentType::Panel
                &&& a.instance.pose == Pose::identity_spec()
                &&& a.instance.config == InstanceConfig::Panel(
                    PanelConfig { width, height, thickness },
                )
            },
    {
        match Instance::default_panel(component, width, height, thickness) {
            Some(instance) => Some(AddInstance { instance }),
            None => None,
        }
    }
}

/// Builds an addition of a part that takes no parameters. Fails exactly
/// on extrusion and panel parts, which need their dimensioned factories.
pub fn add_normal_instance(component: &Component) -> (r: Result<DesignOperation, ValidationError>)
    ensures
        r is Ok <==> !(component.data is Extrude) && !(component.data is Panel),
        r matches Ok(op) ==> op matches DesignOperation::AddInstance(a) && {
            &&& a.instance.component_label == component.label
            &&& a.instance.component_type == crate::component::type_of_data(component.data)
            &&& a.instance.pose == Pose::identity_spec()
            &&& a.instance.config == InstanceConfig::Normal
        },
        r matches Err(e) ==> e == ValidationError::WrongComponentType,
{
    match component.data {
        ComponentData::Extrude(_) => Err(ValidationError::WrongComponentType),
        ComponentData::Panel(_) => Err(ValidationError::WrongComponentType),
        _ => Ok(DesignOperation::AddInstance(AddInstance::default_component(component))),
    }
}

/// Builds an addition of an extrusion profile cut to `length`. Fails
/// with `WrongComponentType` when `component` is not an extrusion part,
/// and with `InvalidLength` when `length` violates its envelope.
pub fn add_extrude_instance(component: &Component, length: u32) -> (r: Result<
    DesignOperation,
    ValidationError,
>)
    ensures
        r is Ok <==> component.data is Extrude && extrude_config_valid_spec(
            default_extrude_config_spec(length),
            *component,
        ),
        r matches Ok(op) ==> op matches DesignOperation::AddInstance(a) && {
            &&& a.instance.component_label == component.label
            &&& a.instance.component_type == ComponentType::Extrude
            &&& a.instance.pose == Pose::identity_spec()
            &&& a.instance.config == default_extrude_config_spec(length)
        },
        r matches Err(e) ==> if component.data is Extrude {
            e == ValidationError::InvalidLength
        } else {
            e == ValidationError::WrongComponentType
        },
{
    match component.data {
        ComponentData::Extrude(_) => {
            match AddInstance::extrude(component, length) {
                Some(a) => Ok(DesignOperation::AddInstance(a)),
                None => Err(ValidationError::InvalidLength),
            }
        },
        _ => Err(ValidationError::WrongComponentType),
    }
}

/// Builds an addition of a panel cut to the given dimensions. Fails when
/// `component` is not a panel part.
pub fn add_panel_instance(
    component: &Component,
    width: u32,
    height: u32,
    thickness: u32,
) -> (r: Result<DesignOperation, ValidationError>)
    ensures
        r is Ok <==> component.data is Panel,
        r matches Ok(op) ==> op matches DesignOperation::AddInstance(a) && {
            &&& a.instance.component_label == component.label
            &&& a.instance.component_type == ComponentType::Panel
            &&& a.instance.pose == Pose::identity_spec()
            &&& a.instance.config == InstanceConfig::Panel(
                PanelConfig { width, height, thickness },
            )
        },
        r matches Err(e) ==> e == ValidationError::WrongComponentType,
{
    match AddInstance::panel(component, width, height, thickness) {
        Some(a) => Ok(DesignOperation::AddInstance(a)),
        None => Err(ValidationError::WrongComponentType),
    }
}

/// Builds a removal of `instance`, with an empty cache.
pub fn remove_instance(instance: &Instance) -> (r: DesignOperation)
    ensures
        r == DesignOperation::RemoveInstance(
            RemoveInstance { id: instance.id, removed_instance: None },
        ),
{
    DesignOperation::RemoveInstance(RemoveInstance { id: instance.id, removed_instance: None })
}

/// Builds a reconfiguration of `instance` to `config`. Fails unless the
/// part `component` can be manufactured to `config`.
pub fn extrude_post_process(
    instance: &Instance,
    component: &Component,
    config: ExtrudeConfig,
) -> (r: Result<DesignOperation, ValidationError>)
    ensures
        r is Ok <==> extrude_config_valid_spec(InstanceConfig::Extrude(config), *component),
        r matches Ok(op) ==> op == DesignOperation::PostProcessInstance(
            PostProcessInstance {
                id: instance.id,
                config: InstanceConfig::Extrude(config),
                config_cache: None,
            },
        ),
        r matches Err(e) ==> e == ValidationError::InvalidConfig,
{
    let wrapped = InstanceConfig::Extrude(config);
    if wrapped.is_extrude_config_valid(component) {
        Ok(
            DesignOperation::PostProcessInstance(
                PostProcessInstance { id: instance.id, config: wrapped, config_cache: None },
            ),
        )
    } else {
        Err(ValidationError::InvalidConfig)
    }
}

/// Whether adding `d` to `instance`'s current extrusion length lands
/// inside the envelope of the extrusion part `comp`.
pub open spec fn add_length_ok(instance: Instance, comp: Component, d: i32) -> bool {
    &&& instance.config is Extrude
    &&& comp.data is Extrude
    &&& {
        let env = comp.data->Extrude_0.post_process.length;
        let nl = config_length(instance.config) + d;
        &&& env.min <= nl <= env.max
        &&& env.step > 0
        &&& nl % (env.step as int) == 0
    }
}

/// Builds a length change of `d_length` on `instance`, moving it to
/// `new_pose`. Fails with `WrongComponentType` unless the instance and
/// the part are extrusions, and with `InvalidLength` unless the
/// resulting length satisfies the part's envelope: an operation whose
/// application would violate the envelope is never built.
pub fn extrude_add_length(
    instance: &Instance,
    component: &Component,
    d_length: i32,
    new_pose: Pose,
) -> (r: Result<DesignOperation, ValidationError>)
    ensures
        r is Ok <==> add_length_ok(*instance, *component, d_length),
        r matches Ok(op) ==> op == DesignOperation::ExtrudeAddLength(
            ExtrudeAddLength { id: instance.id, dlength: d_length, new_pose, old_pose: None },
        ),
        r matches Err(e) ==> if instance.config is Extrude && component.data is Extrude {
            e == ValidationError::InvalidLength
        } else {
            e == ValidationError::WrongComponentType
        },
{
    let cur: u32 = match &instance.config {
        InstanceConfig::Extrude(e) => e.length,
        _ => {
            return Err(ValidationError::WrongComponentType);
        },
    };
    let env = match &component.data {
        ComponentData::Extrude(d) => d.post_process.length,
        _ => {
            return Err(ValidationError::WrongComponentType);
        },
    };
    let nl: i64 = cur as i64 + d_length as i64;
    if nl < env.min as i64 || nl > env.max as i64 {
        return Err(ValidationError::InvalidLength);
    }
    if env.step == 0 || (nl as u32) % env.step != 0 {
        return Err(ValidationError::InvalidLength);
    }
    Ok(
        DesignOperation::ExtrudeAddLength(
            ExtrudeAddLength { id: instance.id, dlength: d_length, new_pose, old_pose: None },
        ),
    )
}

/// Builds a size change on a panel instance, moving it to `new_pose`.
/// The deltas are not validated: panels expose no size envelope.
pub fn panel_add_size(
    instance: &Instance,
    dwidth: i32,
    dheight: i32,
    dthickness: i32,
    new_pose: Pose,
) -> (r: DesignOperation)
    ensures
        r == DesignOperation::PanelAddSize(
            PanelAddSize {
                id: instance.id,
                dwidth,
                dheight,
                dthickness,
                new_pose,
                old_pose: None,
            },
        ),
{
    DesignOperation::PanelAddSize(
        PanelAddSize { id: instance.id, dwidth, dheight, dthickness, new_pose, old_pose: None },
    )
}

/// Builds a move of `instance` to `new_pose`.
pub fn move_instance(instance: &Instance, new_pose: Pose) -> (r: DesignOperation)
    ensures
        r == DesignOperation::MoveInstance(
            MoveInstance { id: instance.id, new_pose, old_pose: None },
        ),
{
    DesignOperation::MoveInstance(MoveInstance { id: instance.id, new_pose, old_pose: None })
}

/// What a successful or failed apply leaves behind: exactly the new
/// instance set and the cache-filled operation on success; exactly the
/// old state and the pinned error on failure.
pub open spec fn op_outcome(
    op_before: DesignOperation,
    op_after: DesignOperation,
    m_before: Map<u128, Instance>,
    m_after: Map<u128, Instance>,
    r: Result<(), OpError>,
) -> bool {
    match r {
        Ok(()) => {
            &&& op_applicable(op_before, m_before)
            &&& m_after == op_apply_map(op_before, m_before)
            &&& op_after == op_apply_op(op_before, m_before)
        },
        Err(e) => {
            &&& !op_applicable(op_before, m_before)
            &&& m_after == m_before
            &&& op_after == op_before
            &&& e == op_apply_err(op_before, m_before)
        },
    }
}

/// What a successful or failed invert leaves behind, in the same style as
/// [`op_outcome`].
pub open spec fn op_inverse_outcome(
    op_before: DesignOperation,
    op_after: DesignOperation,
    m_before: Map<u128, Instance>,
    m_after: Map<u128, Instance>,
    r: Result<(), OpError>,
) -> bool {
    match r {
        Ok(()) => {
            &&& op_invertible(op_before, m_before)
            &&& m_after == op_invert_map(op_before, m_before)
            &&& op_after == op_invert_op(op_before)
        },
        Err(e) => {
            &&& !op_invertible(op_before, m_before)
            &&& m_after == m_before
            &&& op_after == op_before
            &&& e == op_invert_err(op_before, m_before)
        },
    }
}

/// Well-formedness of an instance set: every instance sits under its own
/// id, and every configuration's variant agrees with its instance's part
/// family.
pub open spec fn instances_wf(m: Map<u128, Instance>) -> bool {
    forall|k: u128| #[trigger] m.contains_key(k) ==> m[k].id == k && config_matches_type(
        m[k].config,
        m[k].component_type,
    )
}

/// A successful apply keeps the instance set well-formed.
pub proof fn lemma_apply_preserves_wf(op: DesignOperation, m: Map<u128, Instance>)
    requires
        instances_wf(m),
        op_applicable(op, m),
    ensures
        instances_wf(op_apply_map(op, m)),
{
    match op {
        DesignOperation::AddInstance(a) => {
            assert(config_matches_type(a.instance.config, a.instance.component_type));
        },
        _ => {},
    }
}

/// A successful invert keeps the instance set well-formed.
pub proof fn lemma_invert_preserves_wf(op: DesignOperation, m: Map<u128, Instance>)
    requires
        instances_wf(m),
        op_invertible(op, m),
    ensures
        instances_wf(op_invert_map(op, m)),
{
}

/// Round trip: on a well-formed instance set, any operation that applies
/// successfully can be inverted, and inverting it restores the instance
/// set exactly — every pose, configuration, and dimension included.
pub proof fn lemma_round_trip(op: DesignOperation, m: Map<u128, Instance>)
    requires
        instances_wf(m),
        op_applicable(op, m),
    ensures
        op_invertible(op_apply_op(op, m), op_apply_map(op, m)),
        op_invert_map(op_apply_op(op, m), op_apply_map(op, m)) == m,
{
    let op1 = op_apply_op(op, m);
    let m1 = op_apply_map(op, m);
    match op {
        DesignOperation::AddInstance(a) => {
            assert(op_invert_map(op1, m1) =~= m);
        },
        DesignOperation::RemoveInstance(r) => {
            assert(m[r.id].id == r.id);
            assert(op_invert_map(op1, m1) =~= m);
        },
        DesignOperation::PostProcessInstance(p) => {
            assert(op_invert_map(op1, m1) =~= m);
        },
        DesignOperation::ExtrudeAddLength(e) => {
            assert(op_invert_map(op1, m1) =~= m);
        },
        DesignOperation::PanelAddSize(p) => {
            assert(op_invert_map(op1, m1) =~= m);
        },
        DesignOperation::MoveInstance(v) => {
            assert(op_invert_map(op1, m1) =~= m);
        },
    }
}

/// Redo fidelity: after a successful apply and its inversion, the
/// inverted operation applies again, leads to the same instance set as
/// the first apply, and refills the same cache — so redoing an undone
/// edit reproduces the edit exactly.
pub proof fn lemma_redo_fidelity(op: DesignOperation, m: Map<u128, Instance>)
    requires
        instances_wf(m),
        op_applicable(op, m),
    ensures
        ({
            let op1 = op_apply_op(op, m);
            let m1 = op_apply_map(op, m);
            let op2 = op_invert_op(op1);
            let m2 = op_invert_map(op1, m1);
            &&& op_applicable(op2, m2)
            &&& op_apply_map(op2, m2) == m1
            &&& op_apply_op(op2, m2) == op1
        }),
{
    lemma_round_trip(op, m);
    let op1 = op_apply_op(op, m);
    let m1 = op_apply_map(op, m);
    let op2 = op_invert_op(op1);
    let m2 = op_invert_map(op1, m1);
    match op {
        DesignOperation::AddInstance(a) => {
            assert(op_apply_map(op2, m2) =~= m1);
        },
        DesignOperation::RemoveInstance(r) => {
            assert(op_apply_map(op2, m2) =~= m1);
        },
        DesignOperation::PostProcessInstance(p) => {
            assert(op_apply_map(op2, m2) =~= m1);
        },
        DesignOperation::ExtrudeAddLength(e) => {
            assert(op_apply_map(op2, m2) =~= m1);
        },
        DesignOperation::PanelAddSize(p) => {
            assert(op_apply_map(op2, m2) =~= m1);
        },
        DesignOperation::MoveInstance(v) => {
            assert(op_apply_map(op2, m2) =~= m1);
        },
    }
}

/// Merge soundness: when two successfully applied operations merge into
/// one history entry, inverting that single entry restores the instance
/// set from before both of them.
pub proof fn lemma_merge_round_trip(
    op1: DesignOperation,
    op2: DesignOperation,
    m0: Map<u128, Instance>,
)
    requires
        instances_wf(m0),
        op_applicable(op1, m0),
        op_applicable(op2, op_apply_map(op1, m0)),
        can_merge(op_apply_op(op1, m0), op_apply_op(op2, op_apply_map(op1, m0))),
    ensures
        ({
            let a1 = op_apply_op(op1, m0);
            let m1 = op_apply_map(op1, m0);
            let a2 = op_apply_op(op2, m1);
            let m2 = op_apply_map(op2, m1);
            let mg = merged_op(a1, a2);
            &&& op_invertible(mg, m2)
            &&& op_invert_map(mg, m2) == m0
        }),
{
    let a1 = op_apply_op(op1, m0);
    let m1 = op_apply_map(op1, m0);
    let a2 = op_apply_op(op2, m1);
    let m2 = op_apply_map(op2, m1);
    let mg = merged_op(a1, a2);
    match (op1, op2) {
        (DesignOperation::ExtrudeAddLength(e1), DesignOperation::ExtrudeAddLength(e2)) => {
            assert(op_invert_map(mg, m2) =~= m0);
        },
        (DesignOperation::PanelAddSize(p1), DesignOperation::PanelAddSize(p2)) => {
            assert(op_invert_map(mg, m2) =~= m0);
        },
        (DesignOperation::MoveInstance(v1), DesignOperation::MoveInstance(v2)) => {
            assert(op_invert_map(mg, m2) =~= m0);
        },
        _ => {
            assert(false);
        },
    }
}

/// Length stickiness: installing an extrusion configuration over an
/// extrusion instance never changes the instance's length, whatever
/// length the new configuration carries. Length is owned exclusively by
/// [`ExtrudeAddLength`].
pub proof fn lemma_reconfigure_keeps_length(p: PostProcessInstance, m: Map<u128, Instance>)
    requires
        op_applicable(DesignOperation::PostProcessInstance(p), m),
        m[p.id].config is Extrude,
        p.config is Extrude,
    ensures
        op_apply_map(DesignOperation::PostProcessInstance(p), m)[p.id].config is Extrude,
        config_length(op_apply_map(DesignOperation::PostProcessInstance(p), m)[p.id].config)
            == config_length(m[p.id].config),
{
}

/// Merging keeps the history invertible: when the entry `top` can absorb
/// the just-applied operation `op`, the merged entry is invertible against
/// the new instance set, and inverting it lands exactly where inverting
/// `top` alone would have landed.
pub proof fn lemma_merge_invert_agrees(
    top: DesignOperation,
    op: DesignOperation,
    m: Map<u128, Instance>,
)
    requires
        op_invertible(top, m),
        op_applicable(op, m),
        can_merge(top, op_apply_op(op, m)),
    ensures
        ({
            let applied = op_apply_op(op, m);
            let m1 = op_apply_map(op, m);
            let mg = merged_op(top, applied);
            &&& op_invertible(mg, m1)
            &&& op_invert_map(mg, m1) == op_invert_map(top, m)
        }),
{
    let applied = op_apply_op(op, m);
    let m1 = op_apply_map(op, m);
    let mg = merged_op(top, applied);
    match (top, op) {
        (DesignOperation::ExtrudeAddLength(a), DesignOperation::ExtrudeAddLength(b)) => {
            assert(op_invert_map(mg, m1) =~= op_invert_map(top, m));
        },
        (DesignOperation::PanelAddSize(a), DesignOperation::PanelAddSize(b)) => {
            assert(op_invert_map(mg, m1) =~= op_invert_map(top, m));
        },
        (DesignOperation::MoveInstance(a), DesignOperation::MoveInstance(b)) => {
            assert(op_invert_map(mg, m1) =~= op_invert_map(top, m));
        },
        _ => {
            assert(false);
        },
    }
}

/// Whether two instances agree on everything but their pose.
pub open spec fn same_shape_inst(a: Instance, b: Instance) -> bool {
    &&& a.id == b.id
    &&& a.component_label == b.component_label
    &&& a.component_type == b.component_type
    &&& a.config == b.config
}

/// Whether two instance sets agree on everything but poses: the same
/// ids, and instance for instance the same label, family, and
/// configuration.
pub open spec fn same_shape(m1: Map<u128, Instance>, m2: Map<u128, Instance>) -> bool {
    &&& m1.dom() == m2.dom()
    &&& forall|k: u128| #[trigger] m1.contains_key(k) ==> same_shape_inst(m1[k], m2[k])
}

/// Whether an operation applies or not, and everything its application
/// does apart from poses, depends only on the instance set's shape.
pub proof fn lemma_apply_respects_shape(
    op: DesignOperation,
    m1: Map<u128, Instance>,
    m2: Map<u128, Instance>,
)
    requires
        same_shape(m1, m2),
    ensures
        op_applicable(op, m1) == op_applicable(op, m2),
        op_applicable(op, m1) ==> same_shape(op_apply_map(op, m1), op_apply_map(op, m2)),
{
    if op_applicable(op, m1) || op_applicable(op, m2) {
        let r1 = op_apply_map(op, m1);
        let r2 = op_apply_map(op, m2);
        match op {
            DesignOperation::AddInstance(a) => {
                assert(r1.dom() =~= r2.dom());
            },
            DesignOperation::RemoveInstance(r) => {
                assert(r1.dom() =~= r2.dom());
            },
            DesignOperation::PostProcessInstance(p) => {
                assert(r1.dom() =~= r2.dom());
            },
            DesignOperation::ExtrudeAddLength(e) => {
                assert(r1.dom() =~= r2.dom());
            },
            DesignOperation::PanelAddSize(p) => {
                assert(r1.dom() =~= r2.dom());
            },
            DesignOperation::MoveInstance(v) => {
                assert(r1.dom() =~= r2.dom());
            },
        }
    }
}

/// What an applied history entry must remember about the state it made,
/// so that undoing it can be redone: an addition's instance is still
/// placed as built (its pose aside), a removal cached the instance it
/// removed, and a reconfiguration's installed configuration still stands.
pub open spec fn op_redo_accurate(op: DesignOperation, m: Map<u128, Instance>) -> bool {
    match op {
        DesignOperation::AddInstance(a) => {
            &&& m.contains_key(a.instance.id)
            &&& same_shape_inst(m[a.instance.id], a.instance)
            &&& config_matches_type(a.instance.config, a.instance.component_type)
        },
        DesignOperation::RemoveInstance(r) => r.removed_instance matches Some(c) ==> c.id == r.id,
        DesignOperation::PostProcessInstance(p) => p.config_cache matches Some(c)
            ==> m.contains_key(p.id) && m[p.id].config == reconfigured(c, p.config),
        _ => true,
    }
}

/// Undo can be redone: inverting an accurate history entry leaves a
/// state on which the inverted entry applies again, and that application
/// restores the original state up to poses.
pub proof fn lemma_pop_then_redo(top: DesignOperation, m: Map<u128, Instance>)
    requires
        instances_wf(m),
        op_invertible(top, m),
        op_redo_accurate(top, m),
    ensures
        op_applicable(op_invert_op(top), op_invert_map(top, m)),
        same_shape(op_apply_map(op_invert_op(top), op_invert_map(top, m)), m),
{
    let mb = op_invert_map(top, m);
    let mr = op_apply_map(op_invert_op(top), mb);
    match top {
        DesignOperation::AddInstance(a) => {
            assert(mr.dom() =~= m.dom());
        },
        DesignOperation::RemoveInstance(r) => {
            assert(mr.dom() =~= m.dom());
            assert(mr =~= m);
        },
        DesignOperation::PostProcessInstance(p) => {
            let c = p.config_cache->Some_0;
            assert(config_matches_type(p.config, m[p.id].component_type)) by {
                assert(m[p.id].config == reconfigured(c, p.config));
            }
            assert(mr.dom() =~= m.dom());
            assert(mr =~= m);
        },
        DesignOperation::ExtrudeAddLength(e) => {
            assert(mr.dom() =~= m.dom());
        },
        DesignOperation::PanelAddSize(p) => {
            assert(mr.dom() =~= m.dom());
        },
        DesignOperation::MoveInstance(v) => {
            assert(mr.dom() =~= m.dom());
        },
    }
}

/// The snapshot-caching kinds never merge: an addition, a removal, or a
/// reconfiguration is never absorbed, in either position.
pub proof fn lemma_snapshot_kinds_never_merge(top: DesignOperation, next: DesignOperation)
    requires
        top matches DesignOperation::AddInstance(_) || top matches DesignOperation::RemoveInstance(
            _,
        ) || top matches DesignOperation::PostProcessInstance(_) || next matches
            DesignOperation::AddInstance(_) || next matches DesignOperation::RemoveInstance(_)
            || next matches DesignOperation::PostProcessInstance(_),
    ensures
        !can_merge(top, next),
{
}

impl DesignOperation {
    /// Applies this operation to the instance set, filling its cache of
    /// prior state on success and changing nothing on failure.
    pub fn operate(&mut self, instances: &mut HashMap<u128, Instance>) -> (r: Result<(), OpError>)
        ensures
            op_outcome(*old(self), *final(self), old(instances)@, final(instances)@, r),
    {
        match self {
            DesignOperation::AddInstance(op) => op.operate(instances),
            DesignOperation::RemoveInstance(op) => op.operate(instances),
            DesignOperation::PostProcessInstance(op) => op.operate(instances),
            DesignOperation::ExtrudeAddLength(op) => op.operate(instances),
            DesignOperation::PanelAddSize(op) => op.operate(instances),
            DesignOperation::MoveInstance(op) => op.operate(instances),
        }
    }

    /// Undoes this operation against the instance set, consuming its
    /// cache on success and changing nothing on failure.
    pub fn inverse(&mut self, instances: &mut HashMap<u128, Instance>) -> (r: Result<(), OpError>)
        ensures
            op_inverse_outcome(*old(self), *final(self), old(instances)@, final(instances)@, r),
    {
        match self {
            DesignOperation::AddInstance(op) => op.inverse(instances),
            DesignOperation::RemoveInstance(op) => op.inverse(instances),
            DesignOperation::PostProcessInstance(op) => op.inverse(instances),
            DesignOperation::ExtrudeAddLength(op) => op.inverse(instances),
            DesignOperation::PanelAddSize(op) => op.inverse(instances),
            DesignOperation::MoveInstance(op) => op.inverse(instances),
        }
    }

    /// Tries to absorb the following operation `other` into this one.
    /// Succeeds exactly when [`can_merge`] holds, leaving this operation
    /// as [`merged_op`] states; otherwise changes nothing.
    pub fn compress(&mut self, other: &DesignOperation) -> (r: bool)
        ensures
            r == can_merge(*old(self), *other),
            r ==> *final(self) == merged_op(*old(self), *other),
            !r ==> *final(self) == *old(self),
    {
        match (self, other) {
            (DesignOperation::ExtrudeAddLength(a), DesignOperation::ExtrudeAddLength(b)) => a
                .compress(b),
            (DesignOperation::PanelAddSize(a), DesignOperation::PanelAddSize(b)) => a.compress(b),
            (DesignOperation::MoveInstance(a), DesignOperation::MoveInstance(b)) => a.compress(b),
            _ => false,
        }
    }
}

} // verus!
