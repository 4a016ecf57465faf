use vstd::prelude::*;

use crate::text::str_equal;

verus! {

/// The operating mode the console starts the daemon in.
#[derive(Debug, Clone, Copy, PartialEq, Eq, Structural)]
pub enum Mode {
    Standalone,
    Clock,
    Sync,
}

/// The mode after `m` in the cycle standalone → clock → sync → standalone.
pub open spec fn mode_after(m: Mode) -> Mode {
    match m {
        Mode::Standalone => Mode::Clock,
        Mode::Clock => Mode::Sync,
        Mode::Sync => Mode::Standalone,
    }
}

/// The name of a mode.
pub open spec fn console_mode_name(m: Mode) -> Seq<char> {
    match m {
        Mode::Standalone => "standalone"@,
        Mode::Clock => "clock"@,
        Mode::Sync => "sync"@,
    }
}

/// The mode a status names: "clock" and "sync" name theirs; anything else is standalone.
pub open spec fn console_mode_named(s: Seq<char>) -> Mode {
    if s == "clock"@ {
        Mode::Clock
    } else if s == "sync"@ {
        Mode::Sync
    } else {
        Mode::Standalone
    }
}

impl Mode {
    /// The next mode in the cycle.
    pub fn next(self) -> (r: Mode)
        ensures
            r == mode_after(self),
    {
        match self {
            Mode::Standalone => Mode::Clock,
            Mode::Clock => Mode::Sync,
            Mode::Sync => Mode::Standalone,
        }
    }

    /// The name of the mode.
    pub fn as_str(self) -> (r: &'static str)
        ensures
            r@ == console_mode_name(self),
    {
        match self {
            Mode::Standalone => "standalone",
            Mode::Clock => "clock",
            Mode::Sync => "sync",
        }
    }

    /// The mode a status names; see `console_mode_named`.
    pub fn from_str(s: &str) -> (r: Mode)
        ensures
            r == console_mode_named(s@),
    {
        if str_equal(s, "clock") {
            Mode::Clock
        } else if str_equal(s, "sync") {
            Mode::Sync
        } else {
            Mode::Standalone
        }
    }
}

/// The text of an optional name.
pub open spec fn opt_text(o: Option<String>) -> Option<Seq<char>> {
    match o {
        Some(s) => Some(s@),
        None => None,
    }
}

/// What a port picker holds: the choices (the first is always "none"), which one is
/// selected, and the label shown for "none".
pub struct PickerView {
    pub values: Seq<Option<Seq<char>>>,
    pub index: int,
    pub none_label: Seq<char>,
}

impl PickerView {
    /// The selected choice.
    pub open spec fn selected(self) -> Option<Seq<char>> {
        self.values[self.index]
    }
}

/// The choices of a picker over `names`: "none" first, then each name in order.
pub open spec fn picker_values(names: Seq<String>) -> Seq<Option<Seq<char>>> {
    seq![None::<Seq<char>>] + names.map_values(|s: String| Some(s@))
}

/// The first position of `name` among the choices, if it occurs.
fn first_named(values: &Vec<Option<String>>, name: &str) -> (r: Option<usize>)
    ensures
        match r {
            Some(i) => i < values@.len() && opt_text(values@[i as int]) == Some(name@)
                && forall|j: int| 0 <= j < i ==> opt_text(#[trigger] values@[j]) != Some(name@),
            None => forall|j: int| 0 <= j < values@.len() ==> opt_text(#[trigger] values@[j]) != Some(name@),
        },
{
    let mut i: usize = 0;
    while i < values.len()
        invariant
            i <= values@.len(),
            forall|j: int| 0 <= j < i ==> opt_text(#[trigger] values@[j]) != Some(name@),
        decreases values.len() - i,
    {
        let hit = match &values[i] {
            Some(s) => str_equal(s.as_str(), name),
            None => false,
        };
        if hit {
            return Some(i);
        }
        i = i + 1;
    }
    None
}

/// A cycling choice among port names. The first choice is "none": for the MIDI output that
/// means the fallback virtual port, for the sync port that no port is chosen yet.
pub struct PortPicker {
    values: Vec<Option<String>>,
    index: usize,
    none_label: &'static str,
}

impl View for PortPicker {
    type V = PickerView;

    closed spec fn view(&self) -> PickerView {
        PickerView {
            values: self.values@.map_values(|o: Option<String>| opt_text(o)),
            index: self.index as int,
            none_label: self.none_label@,
        }
    }
}

impl PortPicker {
    /// The first choice is "none" and a choice is always selected.
    #[verifier::type_invariant]
    closed spec fn inv(self) -> bool {
        &&& self.values@.len() >= 1
        &&& self.values@[0] is None
        &&& self.index < self.values@.len()
    }

    /// A picker over `names` with "none" selected.
    pub fn new(names: Vec<String>, none_label: &'static str) -> (p: PortPicker)
        ensures
            p@.values == picker_values(names@),
            p@.index == 0,
            p@.none_label == none_label@,
    {
        let mut values: Vec<Option<String>> = Vec::new();
        values.push(None);
        let mut i: usize = 0;
        while i < names.len()
            invariant
                i <= names.len(),
                values@.len() == i + 1,
                values@[0] is None,
                forall|k: int| 0 <= k < i ==> #[trigger] opt_text(values@[k + 1]) == Some(names@[k]@),
            decreases names.len() - i,
        {
            values.push(Some(names[i].clone()));
            i = i + 1;
        }
        let p = PortPicker { values, index: 0, none_label };
        assert(p@.values =~= picker_values(names@)) by {
            assert forall|k: int| 0 <= k < p@.values.len() implies p@.values[k] == picker_values(names@)[k] by {
                if k > 0 {
                    assert(opt_text(values@[(k - 1) + 1]) == Some(names@[k - 1]@));
                }
            }
        }
        p
    }

    /// The selected port name; None for the "none" choice.
    pub fn selected(&self) -> (r: Option<&String>)
        ensures
            opt_text(match r { Some(s) => Some(*s), None => None }) == self@.selected(),
    {
        proof {
            use_type_invariant(self);
        }
        match &self.values[self.index] {
            Some(s) => Some(s),
            None => None,
        }
    }

    /// Moves to the next choice, wrapping round after the last.
    pub fn advance(&mut self)
        ensures
            final(self)@.values == old(self)@.values,
            final(self)@.none_label == old(self)@.none_label,
            final(self)@.index == (old(self)@.index + 1) % (old(self)@.values.len() as int),
    {
        proof {
            use_type_invariant(&*self);
        }
        let n = self.values.len();
        let next = (self.index + 1) % n;
        self.index = next;
    }

    /// Selects the first choice named `name`; keeps the selection when none is.
    pub fn select_by_name(&mut self, name: &str)
        ensures
            final(self)@.values == old(self)@.values,
            final(self)@.none_label == old(self)@.none_label,
            (exists|i: int| 0 <= i < old(self)@.values.len() && old(self)@.values[i] == Some(name@)) ==> {
                &&& final(self)@.values[final(self)@.index] == Some(name@)
                &&& forall|j: int| 0 <= j < final(self)@.index ==> old(self)@.values[j] != Some(name@)
            },
            !(exists|i: int| 0 <= i < old(self)@.values.len() && old(self)@.values[i] == Some(name@))
                ==> final(self)@.index == old(self)@.index,
    {
        proof {
            use_type_invariant(&*self);
        }
        match first_named(&self.values, name) {
            Some(i) => {
                self.index = i;
            },
            None => {},
        }
    }

    /// The selected name, or the "none" label.
    pub fn label(&self) -> (r: &str)
        ensures
            r@ == match self@.selected() {
                Some(s) => s,
                None => self@.none_label,
            },
    {
        match self.selected() {
            Some(s) => s.as_str(),
            None => self.none_label,
        }
    }
}

/// What the console asks of the daemon after a key press.
#[derive(Debug, Clone, Copy, PartialEq, Eq, Structural)]
pub enum ConsoleAction {
    Nothing,
    StopDaemon,
    SpawnDaemon,
    /// Stop the daemon and start it again with the current choices.
    RestartDaemon,
}

/// How the daemon is started: the mode flag, if any, the MIDI output port for
/// PROPELLER_MIDI_PORT (None: unset, the fallback virtual port) and the sync port for
/// PROPELLER_SYNC_PORT (None: unset).
pub struct LaunchSpec {
    pub mode_flag: Option<&'static str>,
    pub midi_port: Option<String>,
    pub sync_port: Option<String>,
}

/// What a status reply reports, each field absent when the reply lacks it.
pub struct StatusReply {
    pub mode: Option<String>,
    pub clock_state: Option<String>,
    pub bpm: Option<u64>,
    pub midi_port_name: Option<String>,
    pub sync_clock_state: Option<String>,
    pub sync_port_name: Option<String>,
}

/// The state of the interactive console.
pub struct Console {
    pub daemon_running: bool,
    pub mode: Mode,
    pub output_port: PortPicker,
    pub sync_port: PortPicker,
    pub clock_state: String,
    pub bpm: Option<u32>,
    pub sync_clock_state: Option<String>,
    pub error_message: Option<String>,
}

/// The mode after a press of the mode key: the next mode, skipping sync while no sync port
/// is chosen.
pub open spec fn cycled_mode(m: Mode, has_sync_port: bool) -> Mode {
    if mode_after(m) == Mode::Sync && !has_sync_port { mode_after(mode_after(m)) } else { mode_after(m) }
}

/// The mode key never lands on sync while no sync port is chosen, and with one chosen three
/// presses go round all three modes back to the start.
pub proof fn law_mode_cycle_needs_sync_port(m: Mode, has_sync_port: bool)
    ensures
        !has_sync_port ==> cycled_mode(m, false) != Mode::Sync,
        !has_sync_port && m != Mode::Sync ==> cycled_mode(cycled_mode(m, false), false) == m,
        has_sync_port ==> cycled_mode(cycled_mode(cycled_mode(m, true), true), true) == m,
        has_sync_port ==> cycled_mode(m, true) != m,
{
}

/// The action that applies a changed choice: a restart when the daemon runs, else nothing.
pub open spec fn apply_action(running: bool) -> ConsoleAction {
    if running { ConsoleAction::RestartDaemon } else { ConsoleAction::Nothing }
}

impl Console {
    /// A console that has not reached the daemon yet: standalone, nothing selected.
    pub fn new(output_port: PortPicker, sync_port: PortPicker) -> (c: Console)
        ensures
            !c.daemon_running,
            c.mode == Mode::Standalone,
            c.output_port@ == output_port@,
            c.sync_port@ == sync_port@,
            c.clock_state@ == "?"@,
            c.bpm is None,
            c.sync_clock_state is None,
            c.error_message is None,
    {
        Console {
            daemon_running: false,
            mode: Mode::Standalone,
            output_port,
            sync_port,
            clock_state: String::from_str("?"),
            bpm: None,
            sync_clock_state: None,
            error_message: None,
        }
    }

    /// Restarts the daemon with the current choices when it runs; a stopped daemon has
    /// nothing to apply them to yet.
    pub fn apply_if_running(&self) -> (a: ConsoleAction)
        ensures
            a == apply_action(self.daemon_running),
    {
        if self.daemon_running { ConsoleAction::RestartDaemon } else { ConsoleAction::Nothing }
    }

    /// Stops a running daemon, starts a stopped one.
    pub fn toggle_daemon(&self) -> (a: ConsoleAction)
        ensures
            a == if self.daemon_running { ConsoleAction::StopDaemon } else { ConsoleAction::SpawnDaemon },
    {
        if self.daemon_running { ConsoleAction::StopDaemon } else { ConsoleAction::SpawnDaemon }
    }

    /// Selects the next MIDI output port and applies it.
    pub fn cycle_output_port(&mut self) -> (a: ConsoleAction)
        ensures
            final(self).output_port@.values == old(self).output_port@.values,
            final(self).output_port@.index == (old(self).output_port@.index + 1) % (old(self).output_port@.values.len() as int),
            final(self).mode == old(self).mode,
            final(self).sync_port@ == old(self).sync_port@,
            final(self).daemon_running == old(self).daemon_running,
            a == apply_action(old(self).daemon_running),
    {
        self.output_port.advance();
        self.apply_if_running()
    }

    /// Selects the next sync port; it is applied only in sync mode.
    pub fn cycle_sync_port(&mut self) -> (a: ConsoleAction)
        ensures
            final(self).sync_port@.values == old(self).sync_port@.values,
            final(self).sync_port@.index == (old(self).sync_port@.index + 1) % (old(self).sync_port@.values.len() as int),
            final(self).mode == old(self).mode,
            final(self).output_port@ == old(self).output_port@,
            final(self).daemon_running == old(self).daemon_running,
            a == if old(self).mode == Mode::Sync { apply_action(old(self).daemon_running) } else { ConsoleAction::Nothing },
    {
        self.sync_port.advance();
        if self.mode == Mode::Sync {
            self.apply_if_running()
        } else {
            ConsoleAction::Nothing
        }
    }

    /// Moves to the next mode, skipping sync while no sync port is chosen, and applies it.
    /// The text returned, if any, is the message to show once the action is carried out.
    pub fn cycle_mode(&mut self) -> (r: (ConsoleAction, Option<&'static str>))
        ensures
            ({
                let blocked = mode_after(old(self).mode) == Mode::Sync && old(self).sync_port@.selected() is None;
                &&& final(self).mode == cycled_mode(old(self).mode, old(self).sync_port@.selected() is Some)
                &&& r.0 == apply_action(old(self).daemon_running)
                &&& match r.1 {
                    Some(m) => blocked && m@ == "select a sync port first (y)"@,
                    None => !blocked,
                }
            }),
            final(self).output_port@ == old(self).output_port@,
            final(self).sync_port@ == old(self).sync_port@,
            final(self).daemon_running == old(self).daemon_running,
    {
        let mut candidate = self.mode.next();
        let blocked = candidate == Mode::Sync && self.sync_port.selected().is_none();
        if blocked {
            candidate = candidate.next();
        }
        self.mode = candidate;
        let action = self.apply_if_running();
        if blocked {
            (action, Some("select a sync port first (y)"))
        } else {
            (action, None)
        }
    }

    /// How to start the daemon: `--clock` or `--sync` by mode, the selected output port, and
    /// the selected sync port in sync mode only.
    pub fn launch_spec(&self) -> (l: LaunchSpec)
        ensures
            l.mode_flag == match self.mode {
                Mode::Standalone => None,
                Mode::Clock => Some("--clock"),
                Mode::Sync => Some("--sync"),
            },
            opt_text(l.midi_port) == self.output_port@.selected(),
            opt_text(l.sync_port) == if self.mode == Mode::Sync { self.sync_port@.selected() } else { None },
    {
        let mode_flag = match self.mode {
            Mode::Standalone => None,
            Mode::Clock => Some("--clock"),
            Mode::Sync => Some("--sync"),
        };
        let midi_port = match self.output_port.selected() {
            Some(s) => Some(s.clone()),
            None => None,
        };
        let sync_port = if self.mode == Mode::Sync {
            match self.sync_port.selected() {
                Some(s) => Some(s.clone()),
                None => None,
            }
        } else {
            None
        };
        LaunchSpec { mode_flag, midi_port, sync_port }
    }

    /// Takes in a status reply: the daemon runs; the mode, clock state, tempo and sync state
    /// follow the reply (an absent mode keeps the current one, an absent clock state shows
    /// "?"); a reported port name is selected when the picker offers it.
    pub fn apply_status(&mut self, reply: StatusReply)
        ensures
            final(self).daemon_running,
            final(self).mode == match reply.mode {
                Some(m) => console_mode_named(m@),
                None => old(self).mode,
            },
            final(self).clock_state@ == match reply.clock_state {
                Some(s) => s@,
                None => "?"@,
            },
            final(self).bpm == match reply.bpm {
                Some(b) => Some(b as u32),
                None => None::<u32>,
            },
            opt_text(final(self).sync_clock_state) == opt_text(reply.sync_clock_state),
            final(self).output_port@.values == old(self).output_port@.values,
            final(self).sync_port@.values == old(self).sync_port@.values,
            match reply.midi_port_name {
                Some(n) => (exists|i: int| 0 <= i < old(self).output_port@.values.len() && old(self).output_port@.values[i] == Some(n@))
                    ==> final(self).output_port@.selected() == Some(n@),
                None => final(self).output_port@ == old(self).output_port@,
            },
            match reply.sync_port_name {
                Some(n) => (exists|i: int| 0 <= i < old(self).sync_port@.values.len() && old(self).sync_port@.values[i] == Some(n@))
                    ==> final(self).sync_port@.selected() == Some(n@),
                None => final(self).sync_port@ == old(self).sync_port@,
            },
            final(self).error_message == old(self).error_message,
    {
        self.daemon_running = true;
        match &reply.mode {
            Some(m) => {
                self.mode = Mode::from_str(m.as_str());
            },
            None => {},
        }
        self.clock_state = match &reply.clock_state {
            Some(s) => s.clone(),
            None => String::from_str("?"),
        };
        self.bpm = match reply.bpm {
            Some(b) => {
                #[verifier::truncate]
                let v = b as u32;
                Some(v)
            },
            None => None,
        };
        match &reply.midi_port_name {
            Some(n) => self.output_port.select_by_name(n.as_str()),
            None => {},
        }
        self.sync_clock_state = reply.sync_clock_state;
        match &reply.sync_port_name {
            Some(n) => self.sync_port.select_by_name(n.as_str()),
            None => {},
        }
    }

    /// The daemon could not be reached: it is shown stopped with no tempo or sync state.
    pub fn apply_unreachable(&mut self)
        ensures
            !final(self).daemon_running,
            final(self).clock_state@ == "stopped"@,
            final(self).bpm is None,
            final(self).sync_clock_state is None,
            final(self).mode == old(self).mode,
            final(self).output_port@ == old(self).output_port@,
            final(self).sync_port@ == old(self).sync_port@,
            final(self).error_message == old(self).error_message,
    {
        self.daemon_running = false;
        self.clock_state = String::from_str("stopped");
        self.bpm = None;
        self.sync_clock_state = None;
    }
}

} // verus!
