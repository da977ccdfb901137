//! The state dispatcher: converging a device from one settings snapshot to
//! another with the minimal ordered batch of commands.
//!
//! Ordering is part of the contract: scalar values are written before the
//! mode command that makes the device render them, so a mode switch is
//! always the last command of its batch.

use vstd::prelude::*;

use crate::protocol::{Command, PowerState};
use crate::settings::{LightMode, LightSettingsState};

verus! {

/// The power command of a diff: present exactly when `enabled` changed.
pub open spec fn power_commands(prev: LightSettingsState, next: LightSettingsState) -> Seq<
    Command,
> {
    if next.enabled != prev.enabled {
        seq![
            Command::Power(
                if next.enabled {
                    PowerState::On
                } else {
                    PowerState::Off
                },
            ),
        ]
    } else {
        Seq::empty()
    }
}

/// Changed HSI scalars, in the fixed order hue, saturation, intensity.
pub open spec fn hsi_field_commands(prev: LightSettingsState, next: LightSettingsState) -> Seq<
    Command,
> {
    (if next.hue != prev.hue {
        seq![Command::Hue(next.hue)]
    } else {
        Seq::empty()
    }) + (if next.saturation != prev.saturation {
        seq![Command::Saturation(next.saturation)]
    } else {
        Seq::empty()
    }) + (if next.intensity != prev.intensity {
        seq![Command::Intensity(next.intensity)]
    } else {
        Seq::empty()
    })
}

/// Changed CCT scalars: temperature, then intensity.
pub open spec fn cct_field_commands(prev: LightSettingsState, next: LightSettingsState) -> Seq<
    Command,
> {
    (if next.temperature != prev.temperature {
        seq![Command::ColorTemperature(next.temperature)]
    } else {
        Seq::empty()
    }) + (if next.intensity != prev.intensity {
        seq![Command::Intensity(next.intensity)]
    } else {
        Seq::empty()
    })
}

/// The scalar commands of a diff, chosen by the target mode.
pub open spec fn field_commands(prev: LightSettingsState, next: LightSettingsState) -> Seq<
    Command,
> {
    match next.mode {
        LightMode::Hsi => hsi_field_commands(prev, next),
        LightMode::Cct => cct_field_commands(prev, next),
    }
}

/// The mode-switch command of a diff: present exactly when the mode changed.
pub open spec fn mode_commands(prev: LightSettingsState, next: LightSettingsState) -> Seq<
    Command,
> {
    if next.mode != prev.mode {
        seq![Command::Mode(next.mode)]
    } else {
        Seq::empty()
    }
}

/// The ordered command batch that converges a device from `prev` to `next`:
/// power first, then the changed scalars of the target mode, then the mode
/// switch last.
pub open spec fn spec_diff(prev: LightSettingsState, next: LightSettingsState) -> Seq<Command> {
    power_commands(prev, next) + field_commands(prev, next) + mode_commands(prev, next)
}

/// Compute the ordered command batch needed to converge a device whose
/// last-applied snapshot is `previous` to the snapshot `next`.
pub fn diff(previous: &LightSettingsState, next: &LightSettingsState) -> (commands: Vec<Command>)
    ensures
        commands@ == spec_diff(*previous, *next),
{
    let mut commands: Vec<Command> = Vec::new();
    if next.enabled != previous.enabled {
        let power = if next.enabled {
            Command::Power(PowerState::On)
        } else {
            Command::Power(PowerState::Off)
        };
        commands.push(power);
    }
    match next.mode {
        LightMode::Hsi => {
            if next.hue != previous.hue {
                commands.push(Command::Hue(next.hue));
            }
            if next.saturation != previous.saturation {
                commands.push(Command::Saturation(next.saturation));
            }
            if next.intensity != previous.intensity {
                commands.push(Command::Intensity(next.intensity));
            }
        },
        LightMode::Cct => {
            if next.temperature != previous.temperature {
                commands.push(Command::ColorTemperature(next.temperature));
            }
            if next.intensity != previous.intensity {
                commands.push(Command::Intensity(next.intensity));
            }
        },
    }
    if next.mode != previous.mode {
        commands.push(Command::Mode(next.mode));
    }
    proof {
        assert(commands@ =~= spec_diff(*previous, *next));
    }
    commands
}

/// The setting a command addresses, used to state which commands a diff may
/// contain.
#[derive(PartialEq, Eq, Structural)]
pub enum CommandKind {
    Power,
    Mode,
    Hue,
    Saturation,
    Intensity,
    ColorTemperature,
}

/// The kind of setting a command writes.
pub open spec fn kind_of(c: Command) -> CommandKind {
    match c {
        Command::Power(_) => CommandKind::Power,
        Command::Mode(_) => CommandKind::Mode,
        Command::Hue(_) => CommandKind::Hue,
        Command::Saturation(_) => CommandKind::Saturation,
        Command::Intensity(_) => CommandKind::Intensity,
        Command::ColorTemperature(_) => CommandKind::ColorTemperature,
    }
}

/// A command that only stands in `diff(prev, next)` if its field changed.
pub open spec fn diff_command_justified(
    prev: LightSettingsState,
    next: LightSettingsState,
    c: Command,
) -> bool {
    match c {
        Command::Power(_) => next.enabled != prev.enabled,
        Command::Mode(_) => next.mode != prev.mode,
        Command::Hue(_) => next.hue != prev.hue,
        Command::Saturation(_) => next.saturation != prev.saturation,
        Command::Intensity(_) => next.intensity != prev.intensity,
        Command::ColorTemperature(_) => next.temperature != prev.temperature,
    }
}

/// Every command in the scalar region of a diff is a scalar command (neither
/// power nor mode) whose field changed between the snapshots.
proof fn lemma_field_commands_characterized(prev: LightSettingsState, next: LightSettingsState)
    ensures
        forall|i: int|
            0 <= i < field_commands(prev, next).len() ==> diff_command_justified(
                prev,
                next,
                #[trigger] field_commands(prev, next)[i],
            ) && kind_of(field_commands(prev, next)[i]) != CommandKind::Power && kind_of(
                field_commands(prev, next)[i],
            ) != CommandKind::Mode,
{
    let f = field_commands(prev, next);
    assert forall|i: int| 0 <= i < f.len() implies diff_command_justified(prev, next, f[i])
        && kind_of(f[i]) != CommandKind::Power && kind_of(f[i]) != CommandKind::Mode by {
        match next.mode {
            LightMode::Hsi => {
                let a = if next.hue != prev.hue {
                    seq![Command::Hue(next.hue)]
                } else {
                    Seq::<Command>::empty()
                };
                let b = if next.saturation != prev.saturation {
                    seq![Command::Saturation(next.saturation)]
                } else {
                    Seq::<Command>::empty()
                };
                let c = if next.intensity != prev.intensity {
                    seq![Command::Intensity(next.intensity)]
                } else {
                    Seq::<Command>::empty()
                };
                assert(f == (a + b) + c);
                if i < a.len() {
                    assert(f[i] == a[i]);
                } else if i < a.len() + b.len() {
                    assert(f[i] == b[i - a.len()]);
                } else {
                    assert(f[i] == c[i - a.len() - b.len()]);
                }
            },
            LightMode::Cct => {
                let a = if next.temperature != prev.temperature {
                    seq![Command::ColorTemperature(next.temperature)]
                } else {
                    Seq::<Command>::empty()
                };
                let b = if next.intensity != prev.intensity {
                    seq![Command::Intensity(next.intensity)]
                } else {
                    Seq::<Command>::empty()
                };
                assert(f == a + b);
                if i < a.len() {
                    assert(f[i] == a[i]);
                } else {
                    assert(f[i] == b[i - a.len()]);
                }
            },
        }
    }
}

/// Diff idempotence: diffing a snapshot against itself yields the empty
/// command batch.
pub proof fn lemma_diff_idempotent(s: LightSettingsState)
    ensures
        spec_diff(s, s) == Seq::<Command>::empty(),
{
    assert(spec_diff(s, s) =~= Seq::<Command>::empty());
}

/// Mode-switch ordering: whenever a diff contains a mode command, it is the
/// last command of the batch.
pub proof fn lemma_mode_switch_last(prev: LightSettingsState, next: LightSettingsState)
    ensures
        forall|i: int|
            0 <= i < spec_diff(prev, next).len() && kind_of(#[trigger] spec_diff(prev, next)[i])
                == CommandKind::Mode ==> i == spec_diff(prev, next).len() - 1,
{
    let p = power_commands(prev, next);
    let f = field_commands(prev, next);
    let m = mode_commands(prev, next);
    let d = spec_diff(prev, next);
    lemma_field_commands_characterized(prev, next);
    assert forall|i: int|
        0 <= i < d.len() && kind_of(#[trigger] d[i]) == CommandKind::Mode implies i == d.len()
        - 1 by {
        if i < p.len() {
            assert(d[i] == (p + f)[i] && (p + f)[i] == p[i]);
        } else if i < (p + f).len() {
            assert(d[i] == (p + f)[i] && (p + f)[i] == f[i - p.len()]);
        } else {
            assert(d[i] == m[i - (p + f).len()]);
        }
    }
}

/// Field-level minimality: every command in a diff belongs to a field that
/// changed between the two snapshots, so an unchanged field never has a
/// command emitted for it.
pub proof fn lemma_field_minimality(prev: LightSettingsState, next: LightSettingsState)
    ensures
        forall|i: int|
            0 <= i < spec_diff(prev, next).len() ==> diff_command_justified(
                prev,
                next,
                #[trigger] spec_diff(prev, next)[i],
            ),
{
    let p = power_commands(prev, next);
    let f = field_commands(prev, next);
    let m = mode_commands(prev, next);
    let d = spec_diff(prev, next);
    lemma_field_commands_characterized(prev, next);
    assert forall|i: int| 0 <= i < d.len() implies diff_command_justified(prev, next, d[i]) by {
        if i < p.len() {
            assert(d[i] == (p + f)[i] && (p + f)[i] == p[i]);
        } else if i < (p + f).len() {
            assert(d[i] == (p + f)[i] && (p + f)[i] == f[i - p.len()]);
        } else {
            assert(d[i] == m[i - (p + f).len()]);
        }
    }
}

/// The unconditional full write used right after a session is constructed,
/// when there is no meaningful previous device state: power, then every
/// scalar of the current mode, then the mode command.
pub open spec fn spec_full_sync(state: LightSettingsState) -> Seq<Command> {
    seq![
        Command::Power(
            if state.enabled {
                PowerState::On
            } else {
                PowerState::Off
            },
        ),
    ] + match state.mode {
        LightMode::Hsi => seq![
            Command::Hue(state.hue),
            Command::Saturation(state.saturation),
            Command::Intensity(state.intensity),
            Command::Mode(LightMode::Hsi),
        ],
        LightMode::Cct => seq![
            Command::ColorTemperature(state.temperature),
            Command::Intensity(state.intensity),
            Command::Mode(LightMode::Cct),
        ],
    }
}

/// The command batch that writes a full snapshot out unconditionally.
pub fn full_sync_commands(state: &LightSettingsState) -> (commands: Vec<Command>)
    ensures
        commands@ == spec_full_sync(*state),
{
    let mut commands: Vec<Command> = Vec::new();
    let power = if state.enabled {
        Command::Power(PowerState::On)
    } else {
        Command::Power(PowerState::Off)
    };
    commands.push(power);
    match state.mode {
        LightMode::Hsi => {
            commands.push(Command::Hue(state.hue));
            commands.push(Command::Saturation(state.saturation));
            commands.push(Command::Intensity(state.intensity));
            commands.push(Command::Mode(LightMode::Hsi));
        },
        LightMode::Cct => {
            commands.push(Command::ColorTemperature(state.temperature));
            commands.push(Command::Intensity(state.intensity));
            commands.push(Command::Mode(LightMode::Cct));
        },
    }
    proof {
        assert(commands@ =~= spec_full_sync(*state));
    }
    commands
}

} // verus!
