use vstd::prelude::*;

use crate::domain::validation::ValidationError;
use crate::text::{decimal, push_decimal, push_str};

verus! {

/// The human-readable explanation of a rejected project.
pub open spec fn message_of(e: ValidationError) -> Seq<char> {
    match e {
        ValidationError::BpmOutOfRange { actual } =>
            "BPM "@ + decimal(actual as nat) + " is out of range (20–300)"@,
        ValidationError::LoopDurationZero =>
            "loop_duration must be greater than 0"@,
        ValidationError::InvalidMidiChannel { track, actual } =>
            "track "@ + decimal(track as nat) + ": MIDI channel "@ + decimal(actual as nat) + " is out of range (1–16)"@,
        ValidationError::InvalidMidiInstrument { track, actual } =>
            "track "@ + decimal(track as nat) + ": instrument "@ + decimal(actual as nat) + " is out of range (0–127)"@,
        ValidationError::NoteDurationZero { track, note } =>
            "track "@ + decimal(track as nat) + " note "@ + decimal(note as nat) + ": duration must be > 0"@,
        ValidationError::NoteStartTickOutOfRange { track, note, start_tick, loop_duration } =>
            "track "@ + decimal(track as nat) + " note "@ + decimal(note as nat) + ": start_tick "@
                + decimal(start_tick as nat) + " is out of range (must be < loop_duration "@
                + decimal(loop_duration as nat) + ")"@,
        ValidationError::NoteDurationExceedsLimit { track, note, duration, limit } =>
            "track "@ + decimal(track as nat) + " note "@ + decimal(note as nat) + ": duration "@
                + decimal(duration as nat) + " exceeds limit "@ + decimal(limit as nat) + " (2 * loop_duration)"@,
        ValidationError::InvalidPitch { track, note, actual } =>
            "track "@ + decimal(track as nat) + " note "@ + decimal(note as nat) + ": pitch "@
                + decimal(actual as nat) + " is out of range (0–127)"@,
        ValidationError::InvalidVelocity { track, note, actual } =>
            "track "@ + decimal(track as nat) + " note "@ + decimal(note as nat) + ": velocity "@
                + decimal(actual as nat) + " is out of range (0–127)"@,
        ValidationError::PitchBendValueOutOfRange { track, event, actual } =>
            "track "@ + decimal(track as nat) + " pitch-bend "@ + decimal(event as nat) + ": value "@
                + decimal(actual as nat) + " is out of range (0–16383)"@,
        ValidationError::PitchBendTickOutOfRange { track, event, tick, loop_duration } =>
            "track "@ + decimal(track as nat) + " pitch-bend "@ + decimal(event as nat) + ": tick "@
                + decimal(tick as nat) + " is out of range (must be < loop_duration "@
                + decimal(loop_duration as nat) + ")"@,
    }
}

/// `t` occurs in `s` as a contiguous piece.
pub open spec fn contains_text(s: Seq<char>, t: Seq<char>) -> bool {
    exists|i: int| 0 <= i && i + t.len() <= s.len() && #[trigger] s.subrange(i, i + t.len()) == t
}

/// A text contains its own last piece.
pub broadcast proof fn lemma_contains_last_piece(p: Seq<char>, t: Seq<char>)
    ensures
        #[trigger] contains_text(p + t, t),
{
    assert((p + t).subrange(p.len() as int, (p.len() + t.len()) as int) =~= t);
}

/// What a text contains, it still contains once more is appended.
pub broadcast proof fn lemma_contains_extended(s: Seq<char>, q: Seq<char>, t: Seq<char>)
    requires
        contains_text(s, t),
    ensures
        #[trigger] contains_text(s + q, t),
{
    let i = choose|i: int| 0 <= i && i + t.len() <= s.len() && #[trigger] s.subrange(i, i + t.len()) == t;
    assert((s + q).subrange(i, i + t.len()) =~= s.subrange(i, i + t.len()));
}

/// Every validation message is non-empty and names, in decimal, each number the error
/// carries: positions, the offending value, and the limit it broke.
pub proof fn law_message_names_every_field(e: ValidationError)
    ensures
        message_of(e).len() > 0,
        match e {
            ValidationError::BpmOutOfRange { actual } => contains_text(message_of(e), decimal(actual as nat)),
            ValidationError::LoopDurationZero => true,
            ValidationError::InvalidMidiChannel { track, actual } =>
                contains_text(message_of(e), decimal(track as nat))
                && contains_text(message_of(e), decimal(actual as nat)),
            ValidationError::InvalidMidiInstrument { track, actual } =>
                contains_text(message_of(e), decimal(track as nat))
                && contains_text(message_of(e), decimal(actual as nat)),
            ValidationError::NoteDurationZero { track, note } =>
                contains_text(message_of(e), decimal(track as nat))
                && contains_text(message_of(e), decimal(note as nat)),
            ValidationError::NoteStartTickOutOfRange { track, note, start_tick, loop_duration } =>
                contains_text(message_of(e), decimal(track as nat))
                && contains_text(message_of(e), decimal(note as nat))
                && contains_text(message_of(e), decimal(start_tick as nat))
                && contains_text(message_of(e), decimal(loop_duration as nat)),
            ValidationError::NoteDurationExceedsLimit { track, note, duration, limit } =>
                contains_text(message_of(e), decimal(track as nat))
                && contains_text(message_of(e), decimal(note as nat))
                && contains_text(message_of(e), decimal(duration as nat))
                && contains_text(message_of(e), decimal(limit as nat)),
            ValidationError::InvalidPitch { track, note, actual } =>
                contains_text(message_of(e), decimal(track as nat))
                && contains_text(message_of(e), decimal(note as nat))
                && contains_text(message_of(e), decimal(actual as nat)),
            ValidationError::InvalidVelocity { track, note, actual } =>
                contains_text(message_of(e), decimal(track as nat))
                && contains_text(message_of(e), decimal(note as nat))
                && contains_text(message_of(e), decimal(actual as nat)),
            ValidationError::PitchBendValueOutOfRange { track, event, actual } =>
                contains_text(message_of(e), decimal(track as nat))
                && contains_text(message_of(e), decimal(event as nat))
                && contains_text(message_of(e), decimal(actual as nat)),
            ValidationError::PitchBendTickOutOfRange { track, event, tick, loop_duration } =>
                contains_text(message_of(e), decimal(track as nat))
                && contains_text(message_of(e), decimal(event as nat))
                && contains_text(message_of(e), decimal(tick as nat))
                && contains_text(message_of(e), decimal(loop_duration as nat)),
        },
{
    broadcast use lemma_contains_last_piece, lemma_contains_extended;
    match e {
        ValidationError::LoopDurationZero => {
            reveal_strlit("loop_duration must be greater than 0");
        },
        ValidationError::BpmOutOfRange { actual } => {
            reveal_strlit("BPM ");
        },
        _ => {
            reveal_strlit("track ");
        },
    }
}

/// The error code of every rejected project.
pub fn validation_error_code() -> (r: &'static str)
    ensures
        r@ == "validation_error"@,
{
    "validation_error"
}

/// The explanation sent with a `validation_error` response.
pub fn validation_message(e: &ValidationError) -> (r: String)
    ensures
        r@ == message_of(*e),
{
    let mut s = String::new();
    match *e {
        ValidationError::BpmOutOfRange { actual } => {
            push_str(&mut s, "BPM ");
            push_decimal(&mut s, actual as u64);
            push_str(&mut s, " is out of range (20–300)");
        },
        ValidationError::LoopDurationZero => {
            push_str(&mut s, "loop_duration must be greater than 0");
        },
        ValidationError::InvalidMidiChannel { track, actual } => {
            push_str(&mut s, "track ");
            push_decimal(&mut s, track as u64);
            push_str(&mut s, ": MIDI channel ");
            push_decimal(&mut s, actual as u64);
            push_str(&mut s, " is out of range (1–16)");
        },
        ValidationError::InvalidMidiInstrument { track, actual } => {
            push_str(&mut s, "track ");
            push_decimal(&mut s, track as u64);
            push_str(&mut s, ": instrument ");
            push_decimal(&mut s, actual as u64);
            push_str(&mut s, " is out of range (0–127)");
        },
        ValidationError::NoteDurationZero { track, note } => {
            push_str(&mut s, "track ");
            push_decimal(&mut s, track as u64);
            push_str(&mut s, " note ");
            push_decimal(&mut s, note as u64);
            push_str(&mut s, ": duration must be > 0");
        },
        ValidationError::NoteStartTickOutOfRange { track, note, start_tick, loop_duration } => {
            push_str(&mut s, "track ");
            push_decimal(&mut s, track as u64);
            push_str(&mut s, " note ");
            push_decimal(&mut s, note as u64);
            push_str(&mut s, ": start_tick ");
            push_decimal(&mut s, start_tick as u64);
            push_str(&mut s, " is out of range (must be < loop_duration ");
            push_decimal(&mut s, loop_duration as u64);
            push_str(&mut s, ")");
        },
        ValidationError::NoteDurationExceedsLimit { track, note, duration, limit } => {
            push_str(&mut s, "track ");
            push_decimal(&mut s, track as u64);
            push_str(&mut s, " note ");
            push_decimal(&mut s, note as u64);
            push_str(&mut s, ": duration ");
            push_decimal(&mut s, duration as u64);
            push_str(&mut s, " exceeds limit ");
            push_decimal(&mut s, limit);
            push_str(&mut s, " (2 * loop_duration)");
        },
        ValidationError::InvalidPitch { track, note, actual } => {
            push_str(&mut s, "track ");
            push_decimal(&mut s, track as u64);
            push_str(&mut s, " note ");
            push_decimal(&mut s, note as u64);
            push_str(&mut s, ": pitch ");
            push_decimal(&mut s, actual as u64);
            push_str(&mut s, " is out of range (0–127)");
        },
        ValidationError::InvalidVelocity { track, note, actual } => {
            push_str(&mut s, "track ");
            push_decimal(&mut s, track as u64);
            push_str(&mut s, " note ");
            push_decimal(&mut s, note as u64);
            push_str(&mut s, ": velocity ");
            push_decimal(&mut s, actual as u64);
            push_str(&mut s, " is out of range (0–127)");
        },
        ValidationError::PitchBendValueOutOfRange { track, event, actual } => {
            push_str(&mut s, "track ");
            push_decimal(&mut s, track as u64);
            push_str(&mut s, " pitch-bend ");
            push_decimal(&mut s, event as u64);
            push_str(&mut s, ": value ");
            push_decimal(&mut s, actual as u64);
            push_str(&mut s, " is out of range (0–16383)");
        },
        ValidationError::PitchBendTickOutOfRange { track, event, tick, loop_duration } => {
            push_str(&mut s, "track ");
            push_decimal(&mut s, track as u64);
            push_str(&mut s, " pitch-bend ");
            push_decimal(&mut s, event as u64);
            push_str(&mut s, ": tick ");
            push_decimal(&mut s, tick as u64);
            push_str(&mut s, " is out of range (must be < loop_duration ");
            push_decimal(&mut s, loop_duration as u64);
            push_str(&mut s, ")");
        },
    }
    assert(s@ =~= message_of(*e));
    s
}

} // verus!
