//! Running a program against a keyboard whose keys are known in advance.

use vstd::prelude::*;
use crate::error::VmError;
use crate::machine::{Machine, Supply};
use crate::outcome::RunState;
use crate::semantics::{machine_need, machine_prompt, machine_step, Need};
use crate::vm::Vm;

verus! {

/// Why a run ended.
#[derive(Clone, Copy, Debug, PartialEq, Eq, Structural)]
pub enum Stop {
    /// The program halted.
    Halted,
    /// An instruction could not be executed.
    Fault(VmError),
    /// The limit of turns was reached with the program still running.
    Exhausted,
}

/// A finished run, as plain values.
pub struct Trace {
    /// The machine as the run left it.
    pub last: Machine,
    /// Why the run ended.
    pub stop: Stop,
    /// The number of turns taken, the last one included.
    pub turns: nat,
    /// All that was shown, in order.
    pub output: Seq<u8>,
    /// The number of keys taken from the keyboard.
    pub keys_taken: nat,
}

/// A finished run.
#[derive(Debug, PartialEq, Eq)]
pub struct Report {
    /// Why the run ended.
    pub stop: Stop,
    /// The number of turns taken, the last one included.
    pub turns: usize,
    /// All that was shown, in order.
    pub output: Vec<u8>,
    /// The number of keys taken from the keyboard.
    pub keys_taken: usize,
}

impl Trace {
    /// This run, had `turns` turns come before it that showed `shown` and
    /// took `took` keys.
    pub open spec fn preceded_by(self, turns: nat, shown: Seq<u8>, took: nat) -> Trace {
        Trace {
            turns: turns + self.turns,
            output: shown + self.output,
            keys_taken: took + self.keys_taken,
            ..self
        }
    }
}

/// What a keyboard with `keys` waiting supplies for `need`. A key that is
/// asked for when none waits reads as zero.
pub open spec fn served(need: Need, keys: Seq<u8>) -> Supply {
    match need {
        Need::Nothing => Supply { ready: false, key: 0 },
        Need::Status => Supply { ready: keys.len() > 0, key: 0 },
        Need::Data | Need::Key => if keys.len() > 0 {
            Supply { ready: true, key: keys[0] }
        } else {
            Supply { ready: false, key: 0 }
        },
    }
}

/// How many of the waiting `keys` serving `need` takes.
pub open spec fn taken(need: Need, keys: Seq<u8>) -> nat {
    if (need == Need::Data || need == Need::Key) && keys.len() > 0 {
        1
    } else {
        0
    }
}

/// One turn of a run, as plain values.
pub struct Turn {
    /// The machine after the turn.
    pub next: Machine,
    /// What the turn showed: the prompt, if any, then the instruction's
    /// output.
    pub shown: Seq<u8>,
    /// The number of keys that the turn took.
    pub took: nat,
    /// Why the run ends with this turn, if it does.
    pub stop: Option<Stop>,
}

/// The turn that machine `m` takes with `keys` waiting at the keyboard: the
/// keyboard serves what the machine needs, the machine takes its step.
pub open spec fn turn_of(m: Machine, keys: Seq<u8>) -> Turn {
    let need = machine_need(m);
    let step = machine_step(m, served(need, keys));
    match step.result {
        Err(e) => Turn {
            next: step.next,
            shown: machine_prompt(m),
            took: taken(need, keys),
            stop: Some(Stop::Fault(e)),
        },
        Ok(effect) => Turn {
            next: step.next,
            shown: machine_prompt(m) + effect.output,
            took: taken(need, keys),
            stop: if effect.state == RunState::Halted {
                Some(Stop::Halted)
            } else {
                None
            },
        },
    }
}

/// The run of machine `m` for at most `limit` turns, with `keys` waiting at
/// the keyboard. Turns follow each other while the machine is running; the
/// turn that halts or faults is the last.
pub open spec fn run_trace(m: Machine, keys: Seq<u8>, limit: nat) -> Trace
    decreases limit,
{
    if limit == 0 {
        Trace { last: m, stop: Stop::Exhausted, turns: 0, output: Seq::empty(), keys_taken: 0 }
    } else {
        let turn = turn_of(m, keys);
        match turn.stop {
            Some(stop) => Trace {
                last: turn.next,
                stop,
                turns: 1,
                output: turn.shown,
                keys_taken: turn.took,
            },
            None => run_trace(turn.next, keys.skip(turn.took as int), (limit - 1) as nat).preceded_by(
                1,
                turn.shown,
                turn.took,
            ),
        }
    }
}

/// Serves `need` from the keys that wait from position `at` on. Returns the
/// supply and the position of the next waiting key.
pub fn serve(need: Need, keys: &[u8], at: usize) -> (r: (Supply, usize))
    requires
        at <= keys@.len(),
    ensures
        r.0 == served(need, keys@.skip(at as int)),
        r.1 == at + taken(need, keys@.skip(at as int)),
{
    let waiting = at < keys.len();
    match need {
        Need::Nothing => (Supply { ready: false, key: 0 }, at),
        Need::Status => (Supply { ready: waiting, key: 0 }, at),
        Need::Data | Need::Key => if waiting {
            (Supply { ready: true, key: keys[at] }, at + 1)
        } else {
            (Supply { ready: false, key: 0 }, at)
        },
    }
}

impl Vm {
    /// Takes one turn with the keys that wait from position `at` on, and adds
    /// what it shows to `output`. Returns why the run ends, if it does, and
    /// the position of the next waiting key.
    fn turn(&mut self, keys: &[u8], at: usize, output: &mut Vec<u8>) -> (r: (Option<Stop>, usize))
        requires
            at <= keys@.len(),
        ensures
            final(self)@ == turn_of(old(self)@, keys@.skip(at as int)).next,
            final(output)@ == old(output)@ + turn_of(old(self)@, keys@.skip(at as int)).shown,
            r.0 == turn_of(old(self)@, keys@.skip(at as int)).stop,
            r.1 == at + turn_of(old(self)@, keys@.skip(at as int)).took,
            r.1 <= keys@.len(),
    {
        let mut request = self.demand();
        let (supply, next) = serve(request.need, keys, at);
        output.append(&mut request.prompt);
        match self.step(supply) {
            Err(e) => {
                (Some(Stop::Fault(e)), next)
            },
            Ok(mut outcome) => {
                let ghost effect = outcome@;
                output.append(&mut outcome.output);
                assert(output@ =~= old(output)@ + (machine_prompt(old(self)@) + effect.output));
                match outcome.state {
                    RunState::Halted => (Some(Stop::Halted), next),
                    RunState::Running => (None, next),
                }
            },
        }
    }

    /// Runs the program for at most `limit` turns, with `keys` waiting at the
    /// keyboard, and reports why it stopped and all that it showed.
    pub fn run(&mut self, keys: &[u8], limit: usize) -> (r: Report)
        ensures
            final(self)@ == run_trace(old(self)@, keys@, limit as nat).last,
            r.stop == run_trace(old(self)@, keys@, limit as nat).stop,
            r.turns == run_trace(old(self)@, keys@, limit as nat).turns,
            r.output@ == run_trace(old(self)@, keys@, limit as nat).output,
            r.keys_taken == run_trace(old(self)@, keys@, limit as nat).keys_taken,
    {
        let ghost whole = run_trace(old(self)@, keys@, limit as nat);
        let mut output: Vec<u8> = Vec::new();
        let mut at: usize = 0;
        let mut turns: usize = 0;
        assert(keys@.skip(0) =~= keys@);
        assert(whole.preceded_by(0, output@, 0).output =~= whole.output);
        while turns < limit
            invariant
                turns <= limit,
                at <= keys@.len(),
                whole == run_trace(old(self)@, keys@, limit as nat),
                whole == run_trace(self@, keys@.skip(at as int), (limit - turns) as nat).preceded_by(
                    turns as nat,
                    output@,
                    at as nat,
                ),
            decreases limit - turns,
        {
            let ghost turn = turn_of(self@, keys@.skip(at as int));
            let ghost shown = output@;
            let ghost rest = keys@.skip(at as int);
            let (stop, next) = self.turn(keys, at, &mut output);
            turns += 1;
            proof {
                assert(rest.skip(turn.took as int) =~= keys@.skip(next as int));
                let tail = run_trace(self@, keys@.skip(next as int), (limit - turns) as nat);
                assert(shown + (turn.shown + tail.output) =~= output@ + tail.output);
            }
            at = next;
            match stop {
                Some(stop) => {
                    return Report { stop, turns, output, keys_taken: at };
                },
                None => {},
            }
        }
        assert(output@ + Seq::<u8>::empty() =~= output@);
        Report { stop: Stop::Exhausted, turns, output, keys_taken: at }
    }
}

} // verus!
