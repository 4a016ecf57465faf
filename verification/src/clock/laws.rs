use vstd::prelude::*;

use super::engine::{clock_pulse, clock_step, moved_anchor, ClockAnchor, ClockCommand, ClockState, ClockView};
use super::output::ClockEvent;
use super::scheduler::{micros_per_pulse_at, pulse_offset};

verus! {

/// Every command keeps the clock well formed, and so does a pulse while running.
pub proof fn law_clock_steps_keep_well_formed(v: ClockView, cmd: ClockCommand)
    requires
        v.wf(),
        cmd matches ClockCommand::SetBpm(b) ==> b > 0,
    ensures
        clock_step(v, cmd).next.wf(),
        v.state == ClockState::Running && v.pulse_count < u64::MAX ==> clock_pulse(v).next.wf(),
{
}

/// A start, in any state, restarts from pulse 0 at song position 0 and sends MIDI Start.
pub proof fn law_start_restarts_from_zero(v: ClockView)
    ensures
        clock_step(v, ClockCommand::Start).next.state == ClockState::Running,
        clock_step(v, ClockCommand::Start).next.pulse_count == 0,
        clock_step(v, ClockCommand::Start).next.position == 0,
        clock_step(v, ClockCommand::Start).sent == seq![ClockEvent::Start],
        clock_step(v, ClockCommand::Start).anchor == ClockAnchor::StartAfterLatency,
{
}

/// A stop leaves the clock stopped with its pulse count at 0. Stopping a running or paused
/// clock resets the song position and sends MIDI Stop; stopping a stopped clock changes and
/// sends nothing.
pub proof fn law_stop_resets_and_sends_stop(v: ClockView)
    requires
        v.wf(),
    ensures
        clock_step(v, ClockCommand::Stop).next.state == ClockState::Stopped,
        clock_step(v, ClockCommand::Stop).next.pulse_count == 0,
        clock_step(v, ClockCommand::Stop).next.position == if v.state == ClockState::Stopped {
            v.position
        } else {
            0
        },
        clock_step(v, ClockCommand::Stop).sent == if v.state == ClockState::Stopped {
            Seq::<ClockEvent>::empty()
        } else {
            seq![ClockEvent::Stop]
        },
{
}

/// Pausing a running clock sends MIDI Stop and keeps the count; while paused, nothing but a
/// start or a stop changes the pulse count, and no Timing Clock is sent.
pub proof fn law_pause_freezes_pulse_count(v: ClockView, cmd: ClockCommand)
    requires
        v.state == ClockState::Paused,
        !(cmd is Start),
        !(cmd is Stop),
    ensures
        clock_step(v, cmd).next.pulse_count == v.pulse_count,
        !clock_step(v, cmd).sent.contains(ClockEvent::Tick),
{
    let s = clock_step(v, cmd).sent;
    if s.len() > 0 {
        assert(s.len() == 1);
        assert(s[0] != ClockEvent::Tick);
    }
}

/// Pausing a running clock sends MIDI Stop and keeps both counts.
pub proof fn law_pause_sends_stop_and_keeps_count(v: ClockView)
    requires
        v.state == ClockState::Running,
    ensures
        clock_step(v, ClockCommand::Pause).next.state == ClockState::Paused,
        clock_step(v, ClockCommand::Pause).next.pulse_count == v.pulse_count,
        clock_step(v, ClockCommand::Pause).next.phase_pulse == v.phase_pulse,
        clock_step(v, ClockCommand::Pause).sent == seq![ClockEvent::Stop],
{
}

/// Resuming a paused clock sends MIDI Continue, keeps the count, and places the anchor so
/// that the next pulse falls no earlier than now and less than one microsecond per elapsed
/// pulse of the phase after it.
pub proof fn law_resume_continues_where_paused(v: ClockView, anchor: int, now: int)
    requires
        v.wf(),
        v.state == ClockState::Paused,
        v.phase_pulse as int * micros_per_pulse_at(v.bpm) <= u64::MAX,
        v.phase_pulse as int * 2_500_000 / v.bpm as int <= u64::MAX,
    ensures
        clock_step(v, ClockCommand::Resume).next.state == ClockState::Running,
        clock_step(v, ClockCommand::Resume).next.pulse_count == v.pulse_count,
        clock_step(v, ClockCommand::Resume).sent == seq![ClockEvent::Continue],
        ({
            let t = clock_step(v, ClockCommand::Resume);
            let due = moved_anchor(anchor, t.anchor, now) + pulse_offset(t.next.phase_pulse, t.next.bpm);
            now <= due && (v.phase_pulse == 0 || due < now + v.phase_pulse)
        }),
{
    let p = v.phase_pulse as int;
    let b = v.bpm as int;
    let k = 2_500_000int;
    let q = k / b;
    let r = k % b;
    vstd::arithmetic::div_mod::lemma_fundamental_div_mod(k, b);
    vstd::arithmetic::div_mod::lemma_mod_bound(k, b);
    let r2 = (p * r) / b;
    let r3 = (p * r) % b;
    vstd::arithmetic::div_mod::lemma_fundamental_div_mod(p * r, b);
    vstd::arithmetic::div_mod::lemma_mod_bound(p * r, b);
    assert(p * k == b * (p * q + r2) + r3) by (nonlinear_arith)
        requires
            k == b * q + r,
            p * r == b * r2 + r3,
    ;
    vstd::arithmetic::div_mod::lemma_fundamental_div_mod_converse(p * k, b, p * q + r2, r3);
    assert(micros_per_pulse_at(v.bpm) == q);
    assert(0 <= p * r) by (nonlinear_arith)
        requires
            p >= 0,
            r >= 0,
    ;
    assert(r2 >= 0) by (nonlinear_arith)
        requires
            p * r == b * r2 + r3,
            0 <= p * r,
            r3 < b,
            b > 0,
    ;
    if p > 0 {
        assert(r2 < p) by (nonlinear_arith)
            requires
                p * r == b * r2 + r3,
                0 <= r3,
                r < b,
                p > 0,
                b > 0,
        ;
    }
}

/// A tempo change takes effect in every state, stopped, running or paused: the clock's tempo
/// becomes the one requested, its state, pulse count and song position stay, and nothing is
/// sent.
pub proof fn law_tempo_change_applies_in_every_state(v: ClockView, bpm: u32)
    requires
        bpm > 0,
    ensures
        clock_step(v, ClockCommand::SetBpm(bpm)).next.bpm == bpm,
        clock_step(v, ClockCommand::SetBpm(bpm)).next.state == v.state,
        clock_step(v, ClockCommand::SetBpm(bpm)).next.pulse_count == v.pulse_count,
        clock_step(v, ClockCommand::SetBpm(bpm)).next.position == v.position,
        clock_step(v, ClockCommand::SetBpm(bpm)).sent.len() == 0,
{
}

/// A tempo change while running never moves the pulse that is due next: the anchor is rebased
/// to that pulse, which becomes pulse 0 of the new phase.
pub proof fn law_tempo_change_keeps_next_pulse(v: ClockView, bpm: u32, anchor: int, now: int)
    requires
        v.wf(),
        v.state == ClockState::Running,
        bpm > 0,
        v.phase_pulse as int * 2_500_000 / v.bpm as int <= u64::MAX,
    ensures
        ({
            let t = clock_step(v, ClockCommand::SetBpm(bpm));
            &&& t.next.bpm == bpm
            &&& t.next.pulse_count == v.pulse_count
            &&& t.sent.len() == 0
            &&& moved_anchor(anchor, t.anchor, now) + pulse_offset(t.next.phase_pulse, t.next.bpm)
                == anchor + pulse_offset(v.phase_pulse, v.bpm)
        }),
{
    assert(0int * 2_500_000 / bpm as int == 0);
}

/// A seek sets the song position in every state; only a stopped clock with Song Position
/// Pointer output on sends it.
pub proof fn law_seek_sends_position_only_while_stopped(v: ClockView, position: u16)
    ensures
        clock_step(v, ClockCommand::Seek(position)).next.position == position,
        clock_step(v, ClockCommand::Seek(position)).next.state == v.state,
        clock_step(v, ClockCommand::Seek(position)).sent == if v.state == ClockState::Stopped && v.spp_enabled {
            seq![ClockEvent::SongPosition(position)]
        } else {
            Seq::<ClockEvent>::empty()
        },
{
}

} // verus!
