//! The action table and the dispatch engine.
//!
//! An action is a chord and a hold time, declared under a command name in the
//! configuration. [`ChatHandler`] holds the table of actions, which never
//! changes once built, and the inputs in flight. For every chat token it
//! decides whether the action of that name fires; the caller presses, waits,
//! releases, waits for the settle time and only then hands the inputs back.
use vstd::prelude::*;
use vstd::hash_map::StringHashMap;
use yaml_rust::Yaml;
use crate::config::{
    as_entries, as_integer, as_text, entry_readings, member, yaml_node, ConfigError, ConfigFault,
    Node,
};
use crate::debounce::{
    all_free, disjoint_acquires_are_independent, released_inputs_are_free, DebounceTracker,
};
use crate::input::{chord, chord_is_not_empty, parse_chord, Input};
use crate::text::{text_of, trim, trimmed};

verus! {

/// The hold time of an action that declares none, or none above zero, in
/// milliseconds.
pub const DEFAULT_HOLD_MS: u64 = 100;

/// The time between the release of an input and the moment it may be taken
/// again, in milliseconds.
pub const SETTLE_MS: u64 = 20;

/// What an action is: its inputs in the order of pressing, and the hold time
/// in milliseconds.
pub struct ActionView {
    pub inputs: Seq<Input>,
    pub hold_ms: u64,
}

/// The inputs to press for a command, and for how long.
#[derive(Debug, Clone, PartialEq, Eq)]
pub struct Action {
    inputs: Vec<Input>,
    hold_ms: u64,
}

impl View for Action {
    type V = ActionView;

    closed spec fn view(&self) -> ActionView {
        ActionView { inputs: self.inputs@, hold_ms: self.hold_ms }
    }
}

impl Action {
    /// The inputs, in the order of pressing.
    pub fn inputs(&self) -> (inputs: &[Input])
        ensures
            inputs@ == self@.inputs,
    {
        self.inputs.as_slice()
    }

    /// The hold time in milliseconds.
    pub fn hold_ms(&self) -> (hold_ms: u64)
        ensures
            hold_ms == self@.hold_ms,
    {
        self.hold_ms
    }
}

/// The hold time in milliseconds for a declared `time`: the time itself where
/// it is above zero, the default otherwise.
pub open spec fn hold_time_of(time: Option<i64>) -> u64 {
    match time {
        Some(millis) => if millis > 0 {
            millis as u64
        } else {
            DEFAULT_HOLD_MS
        },
        None => DEFAULT_HOLD_MS,
    }
}

/// What one entry of the `actions` mapping declares. `entry` is its position,
/// `name` its key where that is a text, `key` and `time` what it holds under
/// these two names where they are a text and an integer.
pub open spec fn declaration(
    entry: usize,
    name: Option<Seq<char>>,
    key: Option<Seq<char>>,
    time: Option<i64>,
) -> Result<(Seq<char>, ActionView), ConfigFault> {
    match name {
        Some(command) => if command.len() == 0 {
            Err(ConfigFault::ActionName(entry))
        } else {
            match key {
                Some(text) => match chord(text) {
                    Some(inputs) => Ok(
                        (command, ActionView { inputs, hold_ms: hold_time_of(time) }),
                    ),
                    None => Err(ConfigFault::KeyUnresolved(command)),
                },
                None => Err(ConfigFault::KeyMissing(command)),
            }
        },
        None => Err(ConfigFault::ActionName(entry)),
    }
}

/// What the entry at position `entry` of the `actions` mapping declares.
pub open spec fn entry_declaration(entry: usize, name: Node, info: Node) -> Result<
    (Seq<char>, ActionView),
    ConfigFault,
> {
    declaration(
        entry,
        name.text(),
        info.member("key"@).text(),
        info.member("time"@).integer(),
    )
}

/// The table that the entries of the `actions` mapping declare, taken in
/// order: the first entry that cannot be declared refuses them all, and a
/// name declared again replaces the earlier declaration.
pub open spec fn declared_table(entries: Seq<(Node, Node)>) -> Result<
    Map<Seq<char>, ActionView>,
    ConfigFault,
>
    decreases entries.len(),
{
    if entries.len() == 0 {
        Ok(Map::empty())
    } else {
        match declared_table(entries.drop_last()) {
            Ok(table) => match entry_declaration(
                (entries.len() - 1) as usize,
                entries.last().0,
                entries.last().1,
            ) {
                Ok((command, action)) => Ok(table.insert(command, action)),
                Err(fault) => Err(fault),
            },
            Err(fault) => Err(fault),
        }
    }
}

/// The action table of a configuration document.
pub open spec fn action_table(config: Node) -> Result<Map<Seq<char>, ActionView>, ConfigFault> {
    match config.member("actions"@).entries() {
        Some(entries) => declared_table(entries),
        None => Err(ConfigFault::ActionsMissing),
    }
}

/// Every action of the table has at least one input and a hold time above zero.
pub open spec fn well_formed(table: Map<Seq<char>, ActionView>) -> bool {
    forall|command: Seq<char>| #[trigger]
        table.contains_key(command) ==> table[command].inputs.len() >= 1 && table[command].hold_ms
            > 0
}

/// What the engine decides for one chat token.
pub enum Decision {
    /// The pause flag is set: nothing is looked up.
    Paused,
    /// No action has this name.
    Unknown,
    /// An input of the action is in flight: the trigger is dropped.
    Held,
    /// The action fires: press `presses` in order now, release them after
    /// `hold_ms`, and hand them back `settle_ms` later.
    Fire { presses: Seq<Input>, hold_ms: u64, settle_ms: u64 },
}

/// The decision for the command `command`, given the table, the inputs in
/// flight and the pause flag.
pub open spec fn decide(
    table: Map<Seq<char>, ActionView>,
    held: Set<Input>,
    paused: bool,
    command: Seq<char>,
) -> Decision {
    if paused {
        Decision::Paused
    } else if !table.contains_key(command) {
        Decision::Unknown
    } else if !all_free(held, table[command].inputs) {
        Decision::Held
    } else {
        Decision::Fire {
            presses: table[command].inputs,
            hold_ms: table[command].hold_ms,
            settle_ms: SETTLE_MS,
        }
    }
}

/// The inputs in flight after the decision: those of the action join them
/// where it fires, and nothing changes otherwise.
pub open spec fn held_after(
    table: Map<Seq<char>, ActionView>,
    held: Set<Input>,
    paused: bool,
    command: Seq<char>,
) -> Set<Input> {
    match decide(table, held, paused, command) {
        Decision::Fire { presses, .. } => held.union(presses.to_set()),
        _ => held,
    }
}

/// The work that a fired action asks of the caller.
#[derive(Debug, Clone, PartialEq, Eq)]
pub struct Emission {
    /// The inputs to press now, in this order, and to release after the hold
    /// time.
    pub presses: Vec<Input>,
    /// The time between press and release, in milliseconds.
    pub hold_ms: u64,
    /// The time between release and handing the inputs back, in milliseconds.
    pub settle_ms: u64,
}

/// One step of the release phase of a fired action.
#[derive(Debug, Clone, Copy, PartialEq, Eq, Structural)]
pub enum ReleaseStep {
    /// Wait for this many milliseconds.
    Wait(u64),
    /// Emit the release of this input.
    Release(Input),
    /// Hand this input back to the handler.
    Retire(Input),
}

/// The release phase of a fired action: wait for the hold time, release every
/// input in the order of pressing, wait for the settle time, and hand every
/// input back.
pub open spec fn release_phase(presses: Seq<Input>, hold_ms: u64, settle_ms: u64) -> Seq<
    ReleaseStep,
> {
    seq![ReleaseStep::Wait(hold_ms)] + Seq::new(
        presses.len(),
        |i: int| ReleaseStep::Release(presses[i]),
    ) + seq![ReleaseStep::Wait(settle_ms)] + Seq::new(
        presses.len(),
        |i: int| ReleaseStep::Retire(presses[i]),
    )
}

impl Emission {
    /// The steps to take once the inputs are pressed, in order.
    pub fn release_phase(&self) -> (steps: Vec<ReleaseStep>)
        ensures
            steps@ == release_phase(self.presses@, self.hold_ms, self.settle_ms),
    {
        let n: usize = self.presses.len();
        let ghost presses = self.presses@;
        let mut steps: Vec<ReleaseStep> = Vec::new();
        steps.push(ReleaseStep::Wait(self.hold_ms));
        let mut i: usize = 0;
        while i < n
            invariant
                i <= n == presses.len(),
                presses == self.presses@,
                steps@ == seq![ReleaseStep::Wait(self.hold_ms)] + Seq::new(
                    i as nat,
                    |k: int| ReleaseStep::Release(presses[k]),
                ),
            decreases n - i,
        {
            steps.push(ReleaseStep::Release(self.presses[i]));
            i += 1;
        }
        steps.push(ReleaseStep::Wait(self.settle_ms));
        let ghost released = steps@;
        let mut j: usize = 0;
        while j < n
            invariant
                j <= n == presses.len(),
                presses == self.presses@,
                steps@ == released + Seq::new(j as nat, |k: int| ReleaseStep::Retire(presses[k])),
            decreases n - j,
        {
            steps.push(ReleaseStep::Retire(self.presses[j]));
            j += 1;
        }
        steps
    }
}

/// The outcome of dispatching one chat token.
#[derive(Debug, Clone, PartialEq, Eq)]
pub enum Dispatch {
    /// The pause flag is set: nothing was looked up.
    Paused,
    /// No action has this name.
    Unknown,
    /// An input of the action is in flight: the trigger was dropped.
    Held,
    /// The action fires, and its inputs are now in flight.
    Fire(Emission),
}

impl View for Dispatch {
    type V = Decision;

    open spec fn view(&self) -> Decision {
        match self {
            Dispatch::Paused => Decision::Paused,
            Dispatch::Unknown => Decision::Unknown,
            Dispatch::Held => Decision::Held,
            Dispatch::Fire(emission) => Decision::Fire {
                presses: emission.presses@,
                hold_ms: emission.hold_ms,
                settle_ms: emission.settle_ms,
            },
        }
    }
}

/// The hold time in milliseconds for a declared `time`.
pub fn hold_time(time: Option<i64>) -> (hold_ms: u64)
    ensures
        hold_ms == hold_time_of(time),
        hold_ms > 0,
{
    match time {
        Some(millis) => if millis > 0 {
            millis as u64
        } else {
            DEFAULT_HOLD_MS
        },
        None => DEFAULT_HOLD_MS,
    }
}

/// Declares one action from what its entry holds: the command name and the
/// action, or the reason why the entry is refused.
pub fn declare(entry: usize, name: Option<&str>, key: Option<&str>, time: Option<i64>) -> (declared:
    Result<(String, Action), ConfigError>)
    ensures
        match declared {
            Ok((command, action)) => declaration(entry, text_of(name), text_of(key), time) == Ok::<
                (Seq<char>, ActionView),
                ConfigFault,
            >((command@, action@)),
            Err(error) => declaration(entry, text_of(name), text_of(key), time) == Err::<
                (Seq<char>, ActionView),
                ConfigFault,
            >(error@),
        },
{
    let command = match name {
        Some(command) => command,
        None => {
            return Err(ConfigError::ActionName(entry));
        },
    };
    if command.unicode_len() == 0 {
        return Err(ConfigError::ActionName(entry));
    }
    let hold_ms: u64 = hold_time(time);
    let text = match key {
        Some(text) => text,
        None => {
            return Err(ConfigError::KeyMissing(command.to_owned()));
        },
    };
    match parse_chord(text) {
        Some(inputs) => Ok((command.to_owned(), Action { inputs, hold_ms })),
        None => Err(ConfigError::KeyUnresolved(command.to_owned())),
    }
}

/// The table of actions and the inputs in flight.
pub struct ChatHandler {
    command_to_action: StringHashMap<Action>,
    executing_inputs: DebounceTracker,
}

impl ChatHandler {
    /// The action table: what each command name declares.
    pub closed spec fn table(&self) -> Map<Seq<char>, ActionView> {
        Map::new(
            |command: Seq<char>| self.command_to_action@.contains_key(command),
            |command: Seq<char>| self.command_to_action@[command]@,
        )
    }

    /// The inputs in flight.
    pub closed spec fn held(&self) -> Set<Input> {
        self.executing_inputs@
    }

    /// Builds the handler of a configuration document: the table that its
    /// `actions` mapping declares, with no input in flight.
    pub fn create(config: &Yaml) -> (created: Result<ChatHandler, ConfigError>)
        ensures
            match created {
                Ok(handler) => action_table(yaml_node(*config)) == Ok::<
                    Map<Seq<char>, ActionView>,
                    ConfigFault,
                >(handler.table()) && well_formed(handler.table()) && handler.held()
                    == Set::<Input>::empty(),
                Err(error) => action_table(yaml_node(*config)) == Err::<
                    Map<Seq<char>, ActionView>,
                    ConfigFault,
                >(error@),
            },
    {
        let entries = match as_entries(member(config, "actions")) {
            Some(entries) => entries,
            None => {
                return Err(ConfigError::ActionsMissing);
            },
        };
        let ghost nodes = entry_readings(entries@);
        let mut command_to_action: StringHashMap<Action> = StringHashMap::new();
        let mut i: usize = 0;
        proof {
            assert(Map::new(
                |command: Seq<char>| command_to_action@.contains_key(command),
                |command: Seq<char>| command_to_action@[command]@,
            ) =~= Map::<Seq<char>, ActionView>::empty());
        }
        while i < entries.len()
            invariant
                i <= entries@.len(),
                nodes == entry_readings(entries@),
                yaml_node(*config).member("actions"@).entries() == Some(nodes),
                declared_table(nodes.take(i as int)) == Ok::<
                    Map<Seq<char>, ActionView>,
                    ConfigFault,
                >(
                    Map::new(
                        |command: Seq<char>| command_to_action@.contains_key(command),
                        |command: Seq<char>| command_to_action@[command]@,
                    ),
                ),
            decreases entries@.len() - i,
        {
            let (name, info) = entries[i];
            let ghost before = command_to_action@;
            proof {
                assert(nodes.take(i + 1).drop_last() =~= nodes.take(i as int));
            }
            let declared = declare(
                i,
                as_text(name),
                as_text(member(info, "key")),
                as_integer(member(info, "time")),
            );
            match declared {
                Ok((command, action)) => {
                    command_to_action.insert(command, action);
                    proof {
                        let old_table = Map::new(
                            |c: Seq<char>| before.contains_key(c),
                            |c: Seq<char>| before[c]@,
                        );
                        let new_table = Map::new(
                            |c: Seq<char>| command_to_action@.contains_key(c),
                            |c: Seq<char>| command_to_action@[c]@,
                        );
                        assert(new_table =~= old_table.insert(command@, action@));
                    }
                },
                Err(error) => {
                    proof {
                        declared_table_fails_on(nodes, i as int);
                    }
                    return Err(error);
                },
            }
            i += 1;
        }
        proof {
            assert(nodes.take(entries@.len() as int) =~= nodes);
            declared_table_is_well_formed(nodes);
        }
        Ok(ChatHandler { command_to_action, executing_inputs: DebounceTracker::new() })
    }

    /// Decides what happens for one chat message. With the pause flag set
    /// nothing is looked at. Otherwise the message, without the whitespace
    /// around it, is the command.
    pub fn handle(&mut self, paused: bool, message: &str) -> (outcome: Dispatch)
        ensures
            final(self).table() == old(self).table(),
            outcome@ == decide(old(self).table(), old(self).held(), paused, trimmed(message@)),
            final(self).held() == held_after(
                old(self).table(),
                old(self).held(),
                paused,
                trimmed(message@),
            ),
    {
        if paused {
            return Dispatch::Paused;
        }
        self.dispatch(trim(message))
    }

    /// Decides what happens for the command `command`: its action fires where
    /// there is one and none of its inputs is in flight, and the inputs are
    /// then in flight until they are released.
    pub fn dispatch(&mut self, command: &str) -> (outcome: Dispatch)
        ensures
            final(self).table() == old(self).table(),
            outcome@ == decide(old(self).table(), old(self).held(), false, command@),
            final(self).held() == held_after(old(self).table(), old(self).held(), false, command@),
    {
        match self.command_to_action.get(command) {
            Some(action) => {
                if self.executing_inputs.try_acquire(action.inputs.as_slice()) {
                    Dispatch::Fire(
                        Emission {
                            presses: copy_of(action.inputs.as_slice()),
                            hold_ms: action.hold_ms,
                            settle_ms: SETTLE_MS,
                        },
                    )
                } else {
                    Dispatch::Held
                }
            },
            None => Dispatch::Unknown,
        }
    }

    /// Hands `input` back once its release has settled. An input that is not
    /// in flight is left as it is.
    pub fn release(&mut self, input: Input)
        ensures
            final(self).table() == old(self).table(),
            final(self).held() == old(self).held().remove(input),
    {
        self.executing_inputs.release(input);
    }

    /// Whether `input` is in flight.
    pub fn is_held(&self, input: Input) -> (held: bool)
        ensures
            held == self.held().contains(input),
    {
        self.executing_inputs.is_held(input)
    }

    /// The action declared for `command`, if there is one.
    pub fn action(&self, command: &str) -> (found: Option<&Action>)
        ensures
            match found {
                Some(action) => self.table().contains_key(command@) && self.table()[command@]
                    == action@,
                None => !self.table().contains_key(command@),
            },
    {
        self.command_to_action.get(command)
    }
}

fn copy_of(inputs: &[Input]) -> (copy: Vec<Input>)
    ensures
        copy@ == inputs@,
{
    let mut copy: Vec<Input> = Vec::new();
    let mut i: usize = 0;
    while i < inputs.len()
        invariant
            i <= inputs@.len(),
            copy@ == inputs@.take(i as int),
        decreases inputs@.len() - i,
    {
        copy.push(inputs[i]);
        i += 1;
    }
    copy
}

/// Where the table of the first `i` entries stands and entry `i` is refused,
/// the whole mapping is refused for the same reason.
proof fn declared_table_fails_on(entries: Seq<(Node, Node)>, i: int)
    requires
        0 <= i < entries.len(),
        declared_table(entries.take(i)) is Ok,
        entry_declaration(i as usize, entries[i].0, entries[i].1) is Err,
    ensures
        declared_table(entries) == Err::<Map<Seq<char>, ActionView>, ConfigFault>(
            entry_declaration(i as usize, entries[i].0, entries[i].1)->Err_0,
        ),
    decreases entries.len(),
{
    if i < entries.len() - 1 {
        let shorter = entries.drop_last();
        assert(shorter.take(i) =~= entries.take(i));
        declared_table_fails_on(shorter, i);
    }
}

/// Every table that a mapping declares is well formed: each action has at
/// least one input and a hold time above zero.
pub proof fn declared_table_is_well_formed(entries: Seq<(Node, Node)>)
    ensures
        declared_table(entries) matches Ok(table) ==> well_formed(table),
    decreases entries.len(),
{
    if entries.len() > 0 {
        declared_table_is_well_formed(entries.drop_last());
        let info = entries.last().1;
        match info.member("key"@).text() {
            Some(text) => {
                chord_is_not_empty(text);
            },
            None => {},
        }
    }
}

/// Debounce: a command that has fired is dropped when it comes again while
/// its inputs are in flight. The second trigger presses nothing and leaves the
/// inputs in flight as they are.
pub proof fn repeated_trigger_is_dropped(
    table: Map<Seq<char>, ActionView>,
    held: Set<Input>,
    command: Seq<char>,
)
    requires
        well_formed(table),
        decide(table, held, false, command) is Fire,
    ensures
        decide(table, held_after(table, held, false, command), false, command) == Decision::Held,
        held_after(table, held_after(table, held, false, command), false, command) == held_after(
            table,
            held,
            false,
            command,
        ),
{
    let inputs = table[command].inputs;
    assert(inputs.to_set().contains(inputs[0]));
}

/// Two actions that share no input do not block each other: each fires
/// whether or not the other is in flight, and in either order the same inputs
/// end up in flight.
pub proof fn disjoint_actions_both_fire(
    table: Map<Seq<char>, ActionView>,
    held: Set<Input>,
    first: Seq<char>,
    second: Seq<char>,
)
    requires
        decide(table, held, false, first) is Fire,
        decide(table, held, false, second) is Fire,
        forall|i: int, j: int|
            0 <= i < table[first].inputs.len() && 0 <= j < table[second].inputs.len()
                ==> #[trigger] table[first].inputs[i] != #[trigger] table[second].inputs[j],
    ensures
        decide(table, held_after(table, held, false, first), false, second) == decide(
            table,
            held,
            false,
            second,
        ),
        decide(table, held_after(table, held, false, second), false, first) == decide(
            table,
            held,
            false,
            first,
        ),
        held_after(table, held_after(table, held, false, first), false, second) == held_after(
            table,
            held_after(table, held, false, second),
            false,
            first,
        ),
{
    let a = table[first].inputs;
    let b = table[second].inputs;
    disjoint_acquires_are_independent(held, a, b);
    assert forall|i: int, j: int| 0 <= i < b.len() && 0 <= j < a.len() implies #[trigger] b[i]
        != #[trigger] a[j] by {}
    disjoint_acquires_are_independent(held, b, a);
}

/// Once every input of a fired action is handed back, the inputs in flight
/// are what they were before it fired.
pub proof fn retired_action_leaves_no_trace(
    table: Map<Seq<char>, ActionView>,
    held: Set<Input>,
    command: Seq<char>,
)
    requires
        decide(table, held, false, command) is Fire,
    ensures
        held_after(table, held, false, command).difference(table[command].inputs.to_set())
            == held,
{
    released_inputs_are_free(held, table[command].inputs);
}

/// Pause: with the pause flag set nothing is decided and nothing is taken,
/// whatever the command is.
pub proof fn paused_dispatch_is_a_no_op(
    table: Map<Seq<char>, ActionView>,
    held: Set<Input>,
    command: Seq<char>,
)
    ensures
        decide(table, held, true, command) == Decision::Paused,
        held_after(table, held, true, command) == held,
{
}

/// One press and one release per input: where no input is written twice in
/// the chord of an action that fires, each of its inputs is pressed at exactly
/// one place of the presses and released at exactly one step of the release
/// phase.
pub proof fn each_input_is_pressed_and_released_once(
    table: Map<Seq<char>, ActionView>,
    held: Set<Input>,
    command: Seq<char>,
    input: Input,
)
    requires
        decide(table, held, false, command) is Fire,
        table[command].inputs.no_duplicates(),
        table[command].inputs.contains(input),
    ensures
        ({
            let presses = table[command].inputs;
            let steps = release_phase(presses, table[command].hold_ms, SETTLE_MS);
            let at = presses.index_of(input);
            &&& decide(table, held, false, command) == Decision::Fire {
                presses,
                hold_ms: table[command].hold_ms,
                settle_ms: SETTLE_MS,
            }
            &&& 0 <= at < presses.len() && presses[at] == input
            &&& forall|i: int| 0 <= i < presses.len() && presses[i] == input ==> i == at
            &&& steps[1 + at] == ReleaseStep::Release(input)
            &&& forall|k: int|
                0 <= k < steps.len() && steps[k] == ReleaseStep::Release(input) ==> k == 1 + at
        }),
{
}

} // verus!
