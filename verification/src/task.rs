//! The polling task: a callback the host scheduler re-invokes every frame.
//! On the first invocation that observes the target entity alive it runs the
//! resolution pipeline once and overwrites one field of the resolved record;
//! thereafter it only keeps a persistent flag synchronized with the observed
//! effect and reacts to the entity's death.

use vstd::prelude::*;

use crate::flags::FlagStore;
use crate::image::Image;
use crate::memory::{bytes_with_u32, Memory};
use crate::pattern::Pattern;
use crate::resolve::{
    chain_read_failed, found_section, record_missing, resolve_record_addr, resolved_record,
    scan_failed,
};
use crate::ResolveError;

verus! {

/// Everything that configures one resolution target. The stride and offset
/// constants of the chain are fixed by the host build; what varies per
/// target stands here.
pub struct TaskConfig {
    /// The signature anchoring the root pointer.
    pub pattern: Pattern,
    /// Which sub-table slot of the root structure to follow.
    pub table_index: u64,
    /// Identifier of the record to mutate, and of the effect observed on
    /// the entity.
    pub record_id: i32,
    /// Identifier of the persistent flag mirroring the effect.
    pub flag_id: u32,
    /// Offset of the mutated field inside the record.
    pub field_offset: u64,
    /// Little-endian bit pattern written into the field.
    pub field_value: u32,
}

impl TaskConfig {
    pub open spec fn wf(&self) -> bool {
        self.pattern.wf()
    }
}

/// What the task observes of the target entity in one frame.
pub struct Observation {
    /// Whether the host exposes a target entity at all this frame.
    pub player_present: bool,
    /// The entity's health field.
    pub hp: u32,
    /// Whether the entity currently carries the observed effect.
    pub has_effect: bool,
}

impl Observation {
    /// Liveness: health strictly positive.
    pub open spec fn alive(&self) -> bool {
        self.hp > 0
    }

    pub fn is_alive(&self) -> (r: bool)
        ensures
            r == self.alive(),
    {
        self.hp > 0
    }
}

/// The host actions one invocation asks for, beside the memory and flag
/// writes it performs itself.
#[derive(Debug)]
pub struct Directives {
    /// The absolute address of the record whose field was overwritten this
    /// frame, if the one-time mutation fired.
    pub mutated: Option<u64>,
    /// Re-apply the observed effect to the entity.
    pub apply_effect: bool,
    /// Remove the observed effect from the entity.
    pub remove_effect: bool,
}

/// Whether one frame performs the one-time mutation: the task is still
/// unresolved and the entity is present and alive.
pub open spec fn mutation_due(resolved: bool, present: bool, alive: bool) -> bool {
    !resolved && present && alive
}

/// The task's resolved state after one successful frame.
pub open spec fn resolved_after(resolved: bool, present: bool, alive: bool) -> bool {
    resolved || (present && alive)
}

/// The persistent flag after one frame: cleared when the entity died still
/// carrying the effect, set when the effect is present but the flag was
/// not, otherwise unchanged.
pub open spec fn flag_after(flag: bool, present: bool, alive: bool, has_effect: bool) -> bool {
    if !present {
        flag
    } else if !alive && has_effect {
        false
    } else if has_effect && !flag {
        true
    } else {
        flag
    }
}

/// Whether one frame asks the host to re-apply the effect: the flag was set
/// from an earlier session, the entity is alive and lacks the effect.
pub open spec fn apply_due(flag: bool, present: bool, alive: bool, has_effect: bool) -> bool {
    present && flag && alive && !has_effect
}

/// Whether one frame asks the host to remove the effect: the entity is no
/// longer alive but still carries it.
pub open spec fn remove_due(present: bool, alive: bool, has_effect: bool) -> bool {
    present && !alive && has_effect
}

/// What one frame decides, for a host that performs the resolution and the
/// flag writes itself: whether to run the pipeline and mutate now, what to
/// write into the persistent flag, and which effect operations to perform.
pub struct FrameDecisions {
    /// Run the resolution pipeline and apply the one-time mutation.
    pub resolve_now: bool,
    /// Write this value into the persistent flag; `None` leaves it as read.
    pub set_flag: Option<bool>,
    /// Re-apply the observed effect to the entity.
    pub apply_effect: bool,
    /// Remove the observed effect from the entity.
    pub remove_effect: bool,
}

/// The per-frame decisions as a pure function of what the host observed:
/// the task's resolved state, the persistent flag as read this frame, and
/// the entity's presence, health and effect state.
pub fn frame_decisions(resolved: bool, flag: bool, present: bool, hp: u32, has_effect: bool) -> (r:
    FrameDecisions)
    ensures
        r.resolve_now == mutation_due(resolved, present, hp > 0),
        r.apply_effect == apply_due(flag, present, hp > 0, has_effect),
        r.remove_effect == remove_due(present, hp > 0, has_effect),
        match r.set_flag {
            Some(v) => v == flag_after(flag, present, hp > 0, has_effect) && v != flag,
            None => flag_after(flag, present, hp > 0, has_effect) == flag,
        },
{
    let alive = hp > 0;
    let after = if !present {
        flag
    } else if !alive && has_effect {
        false
    } else if has_effect && !flag {
        true
    } else {
        flag
    };
    FrameDecisions {
        resolve_now: !resolved && present && alive,
        set_flag: if after != flag {
            Some(after)
        } else {
            None
        },
        apply_effect: present && flag && alive && !has_effect,
        remove_effect: present && !alive && has_effect,
    }
}

/// The recurring task's own state: its configuration and whether the
/// one-time mutation has already been applied.
pub struct PollTask {
    pub config: TaskConfig,
    pub resolved: bool,
}

impl PollTask {
    /// A fresh task: the mutation not yet applied.
    pub fn new(config: TaskConfig) -> (r: PollTask)
        ensures
            r.config == config,
            !r.resolved,
    {
        PollTask { config, resolved: false }
    }

    /// One frame of the recurring callback. On success: the one-time
    /// mutation fires exactly when `mutation_due` holds, writing the
    /// configured bit pattern into the resolved record's field; the
    /// persistent flag moves to `flag_after`; the returned directives ask
    /// for the effect to be re-applied or removed exactly when `apply_due`
    /// and `remove_due` hold. On a resolution failure nothing is changed
    /// and the error names the stage that broke, which the caller treats
    /// as fatal.
    pub fn tick(
        &mut self,
        mem: &mut Memory,
        image: &Image,
        flags: &mut FlagStore,
        obs: &Observation,
    ) -> (r: Result<Directives, ResolveError>)
        requires
            old(mem).wf(),
            old(self).config.wf(),
        ensures
            final(self).config == old(self).config,
            final(mem).base == old(mem).base,
            match r {
                Ok(d) => {
                    &&& final(self).resolved == resolved_after(
                        old(self).resolved,
                        obs.player_present,
                        obs.alive(),
                    )
                    &&& (d.mutated is Some) == mutation_due(
                        old(self).resolved,
                        obs.player_present,
                        obs.alive(),
                    )
                    &&& d.mutated matches Some(a) ==> {
                        &&& resolved_record(
                            *old(mem),
                            *image,
                            old(self).config.pattern.tokens@,
                            old(self).config.table_index as int,
                            old(self).config.record_id,
                        ) == Some(a)
                        &&& old(mem).contains_range(a + old(self).config.field_offset, 4)
                        &&& final(mem).bytes@ == bytes_with_u32(
                            old(mem).bytes@,
                            a + old(self).config.field_offset - old(mem).base,
                            old(self).config.field_value,
                        )
                        &&& final(mem).u32_at(a + old(self).config.field_offset) == old(
                            self,
                        ).config.field_value
                    }
                    &&& d.mutated is None ==> *final(mem) == *old(mem)
                    &&& final(flags).bit(old(self).config.flag_id) == flag_after(
                        old(flags).bit(old(self).config.flag_id),
                        obs.player_present,
                        obs.alive(),
                        obs.has_effect,
                    )
                    &&& forall|id: u32|
                        id != old(self).config.flag_id ==> final(flags).bit(id) == old(flags).bit(
                            id,
                        )
                    &&& d.apply_effect == apply_due(
                        old(flags).bit(old(self).config.flag_id),
                        obs.player_present,
                        obs.alive(),
                        obs.has_effect,
                    )
                    &&& d.remove_effect == remove_due(
                        obs.player_present,
                        obs.alive(),
                        obs.has_effect,
                    )
                },
                Err(e) => {
                    &&& *final(self) == *old(self)
                    &&& *final(mem) == *old(mem)
                    &&& *final(flags) == *old(flags)
                    &&& mutation_due(old(self).resolved, obs.player_present, obs.alive())
                    &&& match e {
                        ResolveError::SectionNotFound => !found_section(*image),
                        ResolveError::PatternNotFound => scan_failed(
                            *old(mem),
                            *image,
                            old(self).config.pattern.tokens@,
                        ),
                        ResolveError::ForeignRead => chain_read_failed(
                            *old(mem),
                            *image,
                            old(self).config.pattern.tokens@,
                            old(self).config.table_index as int,
                        ) || (match resolved_record(
                            *old(mem),
                            *image,
                            old(self).config.pattern.tokens@,
                            old(self).config.table_index as int,
                            old(self).config.record_id,
                        ) {
                            Some(a) => !old(mem).contains_range(
                                a + old(self).config.field_offset,
                                4,
                            ),
                            None => false,
                        }),
                        ResolveError::MissingRecord => record_missing(
                            *old(mem),
                            *image,
                            old(self).config.pattern.tokens@,
                            old(self).config.table_index as int,
                            old(self).config.record_id,
                        ),
                        ResolveError::MalformedPattern => false,
                    }
                },
            },
    {
        if !obs.player_present {
            return Ok(Directives { mutated: None, apply_effect: false, remove_effect: false });
        }
        let alive = obs.is_alive();
        let flag_was = flags.get(self.config.flag_id);
        let mut mutated: Option<u64> = None;
        if !self.resolved && alive {
            let addr = match resolve_record_addr(
                mem,
                image,
                &self.config.pattern,
                self.config.table_index,
                self.config.record_id,
            ) {
                Ok(a) => a,
                Err(e) => {
                    return Err(e);
                },
            };
            let site = match addr.checked_add(self.config.field_offset) {
                Some(s) => s,
                None => {
                    return Err(ResolveError::ForeignRead);
                },
            };
            let ghost before = *mem;
            match mem.write_u32(site, self.config.field_value) {
                Ok(_) => {},
                Err(e) => {
                    return Err(e);
                },
            }
            proof {
                crate::memory::lemma_write_u32_read_back(
                    before,
                    *mem,
                    site as int,
                    self.config.field_value,
                );
            }
            self.resolved = true;
            mutated = Some(addr);
        }
        let mut apply_effect = false;
        let mut remove_effect = false;
        if !flag_was && obs.has_effect {
            flags.set(self.config.flag_id, true);
        }
        if flag_was && alive && !obs.has_effect {
            apply_effect = true;
        }
        if !alive && obs.has_effect {
            remove_effect = true;
            flags.set(self.config.flag_id, false);
        }
        Ok(Directives { mutated, apply_effect, remove_effect })
    }
}

} // verus!
