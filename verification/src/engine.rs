//! The two-state inactivity engine.
//!
//! The engine holds the poll loop's iteration state: whether the audio
//! output is currently LOWERED, and the volume/mute pair captured when it
//! was lowered.  Each tick the host shell reads the threshold and the idle
//! time, asks [`Engine::decide`] what the tick does, and carries the
//! returned actions out against the platform endpoint:
//!
//! - [`TickDecision::Lower`]: read the endpoint's volume and mute flag,
//!   call [`Engine::enter_lowered`] with them, then apply the
//!   [`LowerActions`] (mute if not already muted; set the volume to the
//!   quiet level unless it is already within tolerance of it).
//! - [`TickDecision::Restore`]: call [`Engine::exit_lowered`] and apply the
//!   [`RestoreActions`] (set the volume back to the snapshot; clear the
//!   mute flag only if the snapshot was not muted).
//! - [`TickDecision::Hold`]: touch nothing.
//!
//! Volume levels are whole ten-thousandths of full scale, so the platform
//! scalar range `[0.0, 1.0]` maps to `0 ..= 10_000` and the tolerance of
//! `0.02` maps to [`VOLUME_EPSILON`].

use vstd::prelude::*;

verus! {

/// Full scale of a volume level: the platform's `1.0`.
pub const VOLUME_FULL_SCALE: u32 = 10_000;

/// The target volume while LOWERED: silence.
pub const QUIET_VOLUME_LEVEL: u32 = 0;

/// Volumes within this distance of the quiet level count as already quiet,
/// so lowering skips the redundant volume call (the platform's `0.02`).
pub const VOLUME_EPSILON: u32 = 200;

/// Seconds the loop sleeps between two ticks.
pub const POLL_INTERVAL_SECS: u64 = 5;

/// The engine's two states.
#[derive(Clone, Copy, PartialEq, Eq, Structural, Debug)]
pub enum EngineState {
    /// The audio output is as the user left it.
    Normal,
    /// The engine has silenced the output and holds a snapshot to restore.
    Lowered,
}

/// A volume/mute pair: what the endpoint reports, and what the engine
/// captures on lowering in order to restore it exactly.
#[derive(Clone, Copy, PartialEq, Eq, Structural, Debug)]
pub struct AudioSnapshot {
    /// Volume in ten-thousandths of full scale, `0 ..= VOLUME_FULL_SCALE`.
    pub volume: u32,
    /// Whether the endpoint is muted.
    pub muted: bool,
}

impl AudioSnapshot {
    /// The volume lies on the scale.
    pub open spec fn valid(self) -> bool {
        self.volume <= VOLUME_FULL_SCALE
    }
}

/// What one tick does.
#[derive(Clone, Copy, PartialEq, Eq, Structural, Debug)]
pub enum TickDecision {
    /// Take a snapshot and silence the output.
    Lower,
    /// Restore the snapshot.
    Restore,
    /// No transition; perform no platform call.
    Hold,
}

/// The platform calls the NORMAL → LOWERED transition asks for.
#[derive(Clone, Copy, PartialEq, Eq, Structural, Debug)]
pub struct LowerActions {
    /// Issue a mute command (only when the endpoint was not already muted).
    pub set_mute: bool,
    /// Set the volume to [`QUIET_VOLUME_LEVEL`] (only when it is not
    /// already within [`VOLUME_EPSILON`] of it).
    pub set_quiet_volume: bool,
}

/// The platform calls the LOWERED → NORMAL transition asks for.
#[derive(Clone, Copy, PartialEq, Eq, Structural, Debug)]
pub struct RestoreActions {
    /// Set the volume back to this level.
    pub volume: u32,
    /// Clear the mute flag (only when the snapshot was not muted — the
    /// engine never unmutes a session the user had muted themselves).
    pub clear_mute: bool,
}

/// Whether an idle duration reaches a threshold: at least the threshold's
/// whole seconds, compared in milliseconds.
pub open spec fn spec_idle_meets_threshold(idle_ms: u64, threshold_secs: u64) -> bool {
    idle_ms >= threshold_secs * 1000
}

/// What a tick decides, from the state it starts in, the sampled idle time
/// and the threshold in force: lower when idle and NORMAL, restore when
/// active and LOWERED, hold otherwise.
pub open spec fn spec_tick_decision(
    state: EngineState,
    idle_ms: u64,
    threshold_secs: u64,
) -> TickDecision {
    if spec_idle_meets_threshold(idle_ms, threshold_secs) {
        if state is Normal {
            TickDecision::Lower
        } else {
            TickDecision::Hold
        }
    } else {
        if state is Lowered {
            TickDecision::Restore
        } else {
            TickDecision::Hold
        }
    }
}

/// The actions lowering asks for, given the endpoint state it found:
/// mute unless already muted; silence unless already within tolerance.
pub open spec fn spec_lower_actions(current: AudioSnapshot) -> LowerActions {
    LowerActions {
        set_mute: !current.muted,
        set_quiet_volume: current.volume > QUIET_VOLUME_LEVEL + VOLUME_EPSILON,
    }
}

/// The actions restoring asks for, given the snapshot taken on lowering:
/// put the volume back; unmute only if the snapshot was not muted.
pub open spec fn spec_restore_actions(snapshot: AudioSnapshot) -> RestoreActions {
    RestoreActions { volume: snapshot.volume, clear_mute: !snapshot.muted }
}

/// A volume level clamped onto the scale, as the platform setter clamps
/// its argument into `[0.0, 1.0]` before applying it.
pub open spec fn spec_clamp_volume(level: u32) -> u32 {
    if level <= VOLUME_FULL_SCALE {
        level
    } else {
        VOLUME_FULL_SCALE
    }
}

/// What the endpoint reports after [`LowerActions`] are carried out.
pub open spec fn spec_apply_lower_actions(audio: AudioSnapshot, a: LowerActions) -> AudioSnapshot {
    AudioSnapshot {
        volume: if a.set_quiet_volume {
            QUIET_VOLUME_LEVEL
        } else {
            audio.volume
        },
        muted: if a.set_mute {
            true
        } else {
            audio.muted
        },
    }
}

/// What the endpoint reports after [`RestoreActions`] are carried out.
pub open spec fn spec_apply_restore_actions(
    audio: AudioSnapshot,
    a: RestoreActions,
) -> AudioSnapshot {
    AudioSnapshot {
        volume: spec_clamp_volume(a.volume),
        muted: if a.clear_mute {
            false
        } else {
            audio.muted
        },
    }
}

/// The loop's iteration state: the current engine state and the snapshot
/// captured at the latest NORMAL → LOWERED transition.
#[derive(Clone, Copy, PartialEq, Eq, Structural, Debug)]
pub struct Engine {
    /// NORMAL or LOWERED.
    pub state: EngineState,
    /// The volume/mute pair to restore on leaving LOWERED.  Meaningful
    /// only while LOWERED; overwritten on each new transition into it.
    pub snapshot: AudioSnapshot,
}

impl Engine {
    /// The snapshot's volume lies on the scale.
    pub open spec fn valid(self) -> bool {
        self.snapshot.valid()
    }

    /// A fresh engine: NORMAL, with a full-volume, unmuted placeholder
    /// snapshot that is never restored before a real one replaces it.
    pub fn new() -> (e: Engine)
        ensures
            e.state is Normal,
            e.snapshot == (AudioSnapshot { volume: VOLUME_FULL_SCALE, muted: false }),
            e.valid(),
    {
        Engine {
            state: EngineState::Normal,
            snapshot: AudioSnapshot { volume: VOLUME_FULL_SCALE, muted: false },
        }
    }

    /// What this tick does, given the sampled idle time and the threshold
    /// read at the start of the tick.
    pub fn decide(&self, idle_ms: u64, threshold_secs: u64) -> (d: TickDecision)
        ensures
            d == spec_tick_decision(self.state, idle_ms, threshold_secs),
    {
        let meets: bool = (idle_ms as u128) >= (threshold_secs as u128) * 1000;
        match self.state {
            EngineState::Normal => if meets {
                TickDecision::Lower
            } else {
                TickDecision::Hold
            },
            EngineState::Lowered => if meets {
                TickDecision::Hold
            } else {
                TickDecision::Restore
            },
        }
    }

    /// The NORMAL → LOWERED transition: captures the endpoint state the
    /// shell just read and says which platform calls silence the output.
    pub fn enter_lowered(&mut self, current: AudioSnapshot) -> (a: LowerActions)
        requires
            old(self).state is Normal,
            current.valid(),
        ensures
            final(self).state is Lowered,
            final(self).snapshot == current,
            final(self).valid(),
            a == spec_lower_actions(current),
    {
        self.snapshot = current;
        self.state = EngineState::Lowered;
        LowerActions {
            set_mute: !current.muted,
            set_quiet_volume: current.volume > QUIET_VOLUME_LEVEL + VOLUME_EPSILON,
        }
    }

    /// The LOWERED → NORMAL transition: says which platform calls put the
    /// endpoint back to the captured snapshot.
    pub fn exit_lowered(&mut self) -> (a: RestoreActions)
        requires
            old(self).state is Lowered,
        ensures
            final(self).state is Normal,
            final(self).snapshot == old(self).snapshot,
            a == spec_restore_actions(old(self).snapshot),
    {
        self.state = EngineState::Normal;
        RestoreActions { volume: self.snapshot.volume, clear_mute: !self.snapshot.muted }
    }
}

/// A volume level clamped onto the scale; the shell applies this to any
/// level before handing it to the platform setter.
pub fn clamp_volume(level: u32) -> (r: u32)
    ensures
        r == spec_clamp_volume(level),
{
    if level <= VOLUME_FULL_SCALE {
        level
    } else {
        VOLUME_FULL_SCALE
    }
}

/// Carries [`LowerActions`] out on a volume/mute pair: the calls the shell
/// makes against the platform endpoint, stated on the model.  A fake
/// endpoint can be driven through this in place of real hardware.
pub fn apply_lower_actions(endpoint: &mut AudioSnapshot, a: LowerActions)
    ensures
        *final(endpoint) == spec_apply_lower_actions(*old(endpoint), a),
{
    if a.set_mute {
        endpoint.muted = true;
    }
    if a.set_quiet_volume {
        endpoint.volume = QUIET_VOLUME_LEVEL;
    }
}

/// Carries [`RestoreActions`] out on a volume/mute pair, clamping the
/// restored level onto the scale as the platform setter does.
pub fn apply_restore_actions(endpoint: &mut AudioSnapshot, a: RestoreActions)
    ensures
        *final(endpoint) == spec_apply_restore_actions(*old(endpoint), a),
{
    endpoint.volume = clamp_volume(a.volume);
    if a.clear_mute {
        endpoint.muted = false;
    }
}

/// Law: a tick that finds the idle time at or above the threshold in
/// NORMAL decides to lower — and lowering leaves the endpoint muted with
/// its volume within tolerance of the quiet level, whatever volume and
/// mute flag it reported beforehand.
pub proof fn lemma_lower_silences(audio: AudioSnapshot, idle_ms: u64, threshold_secs: u64)
    requires
        audio.valid(),
        spec_idle_meets_threshold(idle_ms, threshold_secs),
    ensures
        spec_tick_decision(EngineState::Normal, idle_ms, threshold_secs) is Lower,
        spec_apply_lower_actions(audio, spec_lower_actions(audio)).muted,
        spec_apply_lower_actions(audio, spec_lower_actions(audio)).volume <= QUIET_VOLUME_LEVEL
            + VOLUME_EPSILON,
{
}

/// Law: while LOWERED, ticks whose idle time still meets the threshold
/// hold — no platform call is asked for beyond the single transition that
/// entered LOWERED.
pub proof fn lemma_no_redundant_lowering(idle_ms: u64, threshold_secs: u64)
    requires
        spec_idle_meets_threshold(idle_ms, threshold_secs),
    ensures
        spec_tick_decision(EngineState::Lowered, idle_ms, threshold_secs) is Hold,
{
}

/// Law: restoration is exact.  For any endpoint state captured on
/// lowering, applying the lowering actions and then the restoring actions
/// returns the endpoint to precisely the captured volume and mute flag —
/// in particular, a session the user had muted stays muted.
pub proof fn lemma_restoration_fidelity(pre: AudioSnapshot)
    requires
        pre.valid(),
    ensures
        spec_apply_restore_actions(
            spec_apply_lower_actions(pre, spec_lower_actions(pre)),
            spec_restore_actions(pre),
        ) == pre,
{
}

/// Law: the restoring actions never unmute a session whose snapshot was
/// muted, whatever the endpoint reports at restoration time.
pub proof fn lemma_restore_keeps_user_mute(pre: AudioSnapshot, at_restore: AudioSnapshot)
    requires
        pre.muted,
    ensures
        spec_apply_restore_actions(at_restore, spec_restore_actions(pre)).muted
            == at_restore.muted,
{
}

} // verus!
