//! Key names and the two global control keys.
//!
//! A key is named in the configuration by one of a fixed set of aliases,
//! compared without regard to case, or by the escape form `Unknown(N)` for a
//! raw key code. [`ParseKey::parse`] resolves such a name; [`GlobalListener`]
//! follows the exit and the pause key, and holds the exit signal.
use vstd::prelude::*;
use vstd::string::StrSliceExecFns;
use tokio_util::sync::CancellationToken;
use yaml_rust::Yaml;
use crate::config::{as_text, member, yaml_node, ConfigError, ConfigFault, Node};
use crate::keyboard::aliases::{
    alias_lookup_is_exact, bracketed_name_is_no_alias, is_alias, lookup, named_key,
};
use crate::text::{
    decimal_u32, lowercase, parse_u32, same_text, text_of, to_lowercase, trim, trimmed,
};

pub mod aliases;

verus! {

/// One key of the keyboard.
#[derive(Debug, Clone, Copy, PartialEq, Eq, Hash, Structural)]
pub enum Key {
    Alt,
    AltGr,
    CapsLock,
    ControlLeft,
    ControlRight,
    MetaLeft,
    MetaRight,
    ShiftLeft,
    ShiftRight,
    NumLock,
    ScrollLock,
    Function,
    Backspace,
    Delete,
    Escape,
    Insert,
    Return,
    Space,
    Tab,
    PrintScreen,
    Pause,
    DownArrow,
    End,
    Home,
    LeftArrow,
    PageDown,
    PageUp,
    RightArrow,
    UpArrow,
    F1,
    F2,
    F3,
    F4,
    F5,
    F6,
    F7,
    F8,
    F9,
    F10,
    F11,
    F12,
    Num1,
    Num2,
    Num3,
    Num4,
    Num5,
    Num6,
    Num7,
    Num8,
    Num9,
    Num0,
    KeyQ,
    KeyW,
    KeyE,
    KeyR,
    KeyT,
    KeyY,
    KeyU,
    KeyI,
    KeyO,
    KeyP,
    KeyA,
    KeyS,
    KeyD,
    KeyF,
    KeyG,
    KeyH,
    KeyJ,
    KeyK,
    KeyL,
    KeyZ,
    KeyX,
    KeyC,
    KeyV,
    KeyB,
    KeyN,
    KeyM,
    BackQuote,
    Minus,
    Equal,
    LeftBracket,
    RightBracket,
    SemiColon,
    Quote,
    BackSlash,
    IntlBackslash,
    Comma,
    Dot,
    Slash,
    KpReturn,
    KpMinus,
    KpPlus,
    KpMultiply,
    KpDivide,
    Kp0,
    Kp1,
    Kp2,
    Kp3,
    Kp4,
    Kp5,
    Kp6,
    Kp7,
    Kp8,
    Kp9,
    KpDelete,
    /// A key known by its raw code only.
    Unknown(u32),
}

/// What stands between the brackets of the escape form `unknown(..)`. A text
/// of another form holds nothing there.
pub open spec fn escaped_numeral(name: Seq<char>) -> Option<Seq<char>> {
    if name.len() >= 9 && name.subrange(0, 8) == "unknown("@ && name.last() == ')' {
        Some(name.subrange(8, name.len() - 1))
    } else {
        None
    }
}

/// The raw key whose code a decimal numeral gives. A text that is no numeral
/// with a 32-bit value gives no key.
pub open spec fn raw_key(numeral: Seq<char>) -> Option<Key> {
    match decimal_u32(numeral) {
        Some(code) => Some(Key::Unknown(code)),
        None => None,
    }
}

/// The key that a lowercase name denotes: the key of the alias, or else the
/// raw key of the escape form, whose numeral may have whitespace around it.
pub open spec fn resolve_lowercase(name: Seq<char>) -> Option<Key> {
    if named_key(name) is Some {
        named_key(name)
    } else {
        match escaped_numeral(name) {
            Some(numeral) => raw_key(trimmed(numeral)),
            None => None,
        }
    }
}

/// The key that a name denotes, whatever the case of its letters.
pub open spec fn resolve(name: Seq<char>) -> Option<Key> {
    resolve_lowercase(lowercase(name))
}

/// Resolution of a key name.
pub trait ParseKey {
    /// Resolves `s` to the key it names, or to `None` where it names no key.
    fn parse(s: &str) -> (r: Option<Key>)
        ensures
            r == resolve(s@),
    ;
}

impl ParseKey for Key {
    fn parse(s: &str) -> (r: Option<Key>) {
        let lowered = to_lowercase(s);
        Key::from_lowercase(lowered.as_str())
    }
}

impl Key {
    /// Resolves a name that is already in lowercase.
    pub fn from_lowercase(name: &str) -> (r: Option<Key>)
        ensures
            r == resolve_lowercase(name@),
    {
        let named = lookup(name);
        if named.is_some() {
            return named;
        }
        match Key::escaped(name) {
            Some(numeral) => Key::raw(trim(numeral)),
            None => None,
        }
    }

    /// Takes what stands between the brackets of the escape form
    /// `unknown(..)`, or nothing where `name` is of another form.
    pub fn escaped<'a>(name: &'a str) -> (numeral: Option<&'a str>)
        ensures
            match numeral {
                Some(found) => escaped_numeral(name@) == Some(found@),
                None => escaped_numeral(name@) is None,
            },
    {
        proof {
            reveal_strlit("unknown(");
        }
        let n: usize = name.unicode_len();
        if n < 9 {
            return None;
        }
        if !same_text(name.substring_char(0, 8), "unknown(") {
            return None;
        }
        if name.get_char(n - 1) != ')' {
            return None;
        }
        Some(name.substring_char(8, n - 1))
    }

    /// The raw key whose code the decimal numeral `numeral` gives.
    pub fn raw(numeral: &str) -> (r: Option<Key>)
        ensures
            r == raw_key(numeral@),
    {
        match parse_u32(numeral) {
            Some(code) => Some(Key::Unknown(code)),
            None => None,
        }
    }
}

/// Every spelling whose lowercase form is an alias declared for a key
/// resolves to that key.
pub proof fn alias_resolves(name: Seq<char>, key: Key)
    requires
        is_alias(lowercase(name), key),
    ensures
        resolve(name) == Some(key),
{
    alias_lookup_is_exact(lowercase(name), key);
}

/// The escape form resolves to the raw key of the numeral between its
/// brackets, whitespace around the numeral set aside.
pub proof fn escape_form_resolves(numeral: Seq<char>)
    ensures
        resolve_lowercase("unknown("@ + numeral + ")"@) == raw_key(trimmed(numeral)),
{
    reveal_strlit("unknown(");
    reveal_strlit(")");
    let name = "unknown("@ + numeral + ")"@;
    assert(name.subrange(0, 8) =~= "unknown("@);
    assert(name.subrange(8, name.len() - 1) =~= numeral);
    bracketed_name_is_no_alias(name);
}

/// The exit status of a process that is forced to exit at once.
pub const FORCED_EXIT_STATUS: i32 = 10;

/// A raw input event, as far as the control keys are concerned.
#[derive(Debug, Clone, Copy, PartialEq, Eq, Structural)]
pub enum InputEvent {
    /// A key went down.
    KeyPress(Key),
    /// A key went up.
    KeyRelease(Key),
    /// Anything else: a button, a move of the pointer, a turn of the wheel.
    Other,
}

/// What an input event asks of the caller.
#[derive(Debug, Clone, Copy, PartialEq, Eq, Structural)]
pub enum ControlAction {
    /// Nothing.
    Nothing,
    /// Cancel the exit signal, so that the running work comes to its end.
    Shutdown,
    /// End the process at once, with this exit status.
    ForceExit(i32),
    /// Dispatch with this pause flag from now on.
    SetPaused(bool),
}

/// The cancellation token of `tokio_util`, opaque to the proofs.
#[verifier::external_type_specification]
#[verifier::external_body]
pub struct ExCancellationToken(tokio_util::sync::CancellationToken);

/// Calls `CancellationToken::new`. Nothing is claimed of the token.
#[verifier::external_body]
fn new_signal() -> CancellationToken {
    CancellationToken::new()
}

/// Calls `clone` of `CancellationToken`. Trusted: the clone is the same token
/// as `signal`. A clone shares the state of its source, and `==` of
/// `CancellationToken` holds between the two and between no other tokens.
#[verifier::external_body]
fn share_signal(signal: &CancellationToken) -> (shared: CancellationToken)
    ensures
        shared == *signal,
{
    signal.clone()
}

/// The two control signals.
#[derive(Debug, Clone, Copy, PartialEq, Eq, Structural)]
pub struct ControlState {
    /// Whether the exit key has been pressed.
    pub exit_requested: bool,
    /// Whether dispatch is paused.
    pub paused: bool,
}

/// The control signals after `event`, and what the caller has to do. Only a
/// key press counts. The first press of the exit key asks for the graceful
/// shutdown and every later one forces the exit; a press of the pause key
/// flips the pause flag. A key that is both is the exit key.
pub open spec fn control_step(
    exit_key: Key,
    pause_key: Key,
    state: ControlState,
    event: InputEvent,
) -> (ControlState, ControlAction) {
    match event {
        InputEvent::KeyPress(key) => if key == exit_key {
            (
                ControlState { exit_requested: true, paused: state.paused },
                if state.exit_requested {
                    ControlAction::ForceExit(FORCED_EXIT_STATUS)
                } else {
                    ControlAction::Shutdown
                },
            )
        } else if key == pause_key {
            (
                ControlState { exit_requested: state.exit_requested, paused: !state.paused },
                ControlAction::SetPaused(!state.paused),
            )
        } else {
            (state, ControlAction::Nothing)
        },
        _ => (state, ControlAction::Nothing),
    }
}

/// The shutdown is asked for once: only a press of the exit key with no exit
/// requested asks for it, the exit is requested from then on, and every later
/// press of the exit key forces the exit with [`FORCED_EXIT_STATUS`].
pub proof fn shutdown_is_asked_once(
    exit_key: Key,
    pause_key: Key,
    state: ControlState,
    event: InputEvent,
)
    ensures
        ({
            let (next, action) = control_step(exit_key, pause_key, state, event);
            &&& action == ControlAction::Shutdown <==> !state.exit_requested && event
                == InputEvent::KeyPress(exit_key)
            &&& action == ControlAction::ForceExit(FORCED_EXIT_STATUS) <==> state.exit_requested
                && event == InputEvent::KeyPress(exit_key)
            &&& next.exit_requested <==> state.exit_requested || event == InputEvent::KeyPress(
                exit_key,
            )
        }),
{
}

/// Two presses of the pause key leave the pause flag as it was, where the
/// pause key is not the exit key.
pub proof fn pause_pressed_twice_changes_nothing(
    exit_key: Key,
    pause_key: Key,
    state: ControlState,
)
    requires
        pause_key != exit_key,
    ensures
        ({
            let press = InputEvent::KeyPress(pause_key);
            let once = control_step(exit_key, pause_key, state, press).0;
            &&& once.paused == !state.paused
            &&& control_step(exit_key, pause_key, once, press).0 == state
        }),
{
}

/// The follower of the two control keys. It owns the exit signal, a
/// cancellation token that it hands out and that the caller cancels when
/// asked to shut down.
#[derive(Debug)]
pub struct GlobalListener {
    exit_key: Key,
    pause_key: Key,
    state: ControlState,
    exit_signal: CancellationToken,
}

impl GlobalListener {
    /// The key that asks for the exit.
    pub closed spec fn exit_key(&self) -> Key {
        self.exit_key
    }

    /// The key that flips the pause flag.
    pub closed spec fn pause_key(&self) -> Key {
        self.pause_key
    }

    /// The control signals.
    pub closed spec fn state(&self) -> ControlState {
        self.state
    }

    /// The exit signal: the token to cancel when the shutdown is asked for.
    pub closed spec fn exit_signal(&self) -> CancellationToken {
        self.exit_signal
    }

    /// A listener for these two keys, with no exit requested and dispatch not
    /// paused.
    pub fn new(exit_key: Key, pause_key: Key) -> (listener: GlobalListener)
        ensures
            listener.exit_key() == exit_key,
            listener.pause_key() == pause_key,
            listener.state() == (ControlState { exit_requested: false, paused: false }),
    {
        GlobalListener {
            exit_key,
            pause_key,
            state: ControlState { exit_requested: false, paused: false },
            exit_signal: new_signal(),
        }
    }

    /// A listener for the keys that the two names denote. A name that is
    /// missing or denotes no key refuses the listener, the exit key first.
    pub fn from_names(exit: Option<&str>, pause: Option<&str>) -> (created: Result<
        GlobalListener,
        ConfigError,
    >)
        ensures
            match created {
                Ok(listener) => named_control_keys(text_of(exit), text_of(pause)) == Ok::<
                    (Key, Key),
                    ConfigFault,
                >((listener.exit_key(), listener.pause_key())) && listener.state() == (
                    ControlState { exit_requested: false, paused: false }
                ),
                Err(error) => named_control_keys(text_of(exit), text_of(pause)) == Err::<
                    (Key, Key),
                    ConfigFault,
                >(error@),
            },
    {
        let exit_key = match exit {
            None => {
                return Err(ConfigError::ExitKeyMissing);
            },
            Some(name) => match Key::parse(name) {
                None => {
                    return Err(ConfigError::ExitKeyUnresolved);
                },
                Some(key) => key,
            },
        };
        let pause_key = match pause {
            None => {
                return Err(ConfigError::PauseKeyMissing);
            },
            Some(name) => match Key::parse(name) {
                None => {
                    return Err(ConfigError::PauseKeyUnresolved);
                },
                Some(key) => key,
            },
        };
        Ok(GlobalListener::new(exit_key, pause_key))
    }

    /// Takes one input event and says what the caller has to do.
    pub fn on_event(&mut self, event: InputEvent) -> (action: ControlAction)
        ensures
            final(self).exit_key() == old(self).exit_key(),
            final(self).pause_key() == old(self).pause_key(),
            final(self).exit_signal() == old(self).exit_signal(),
            (final(self).state(), action) == control_step(
                old(self).exit_key(),
                old(self).pause_key(),
                old(self).state(),
                event,
            ),
    {
        match event {
            InputEvent::KeyPress(key) => {
                if key == self.exit_key {
                    let previous = self.state.exit_requested;
                    self.state.exit_requested = true;
                    if previous {
                        ControlAction::ForceExit(FORCED_EXIT_STATUS)
                    } else {
                        ControlAction::Shutdown
                    }
                } else if key == self.pause_key {
                    self.state.paused = !self.state.paused;
                    ControlAction::SetPaused(self.state.paused)
                } else {
                    ControlAction::Nothing
                }
            },
            _ => ControlAction::Nothing,
        }
    }

    /// Whether dispatch is paused.
    pub fn is_paused(&self) -> (paused: bool)
        ensures
            paused == self.state().paused,
    {
        self.state.paused
    }

    /// Whether the exit key has been pressed.
    pub fn exit_requested(&self) -> (requested: bool)
        ensures
            requested == self.state().exit_requested,
    {
        self.state.exit_requested
    }
}

/// The exit key and the pause key that two names denote, the exit key looked
/// at first. `None` stands for a name that is missing.
pub open spec fn named_control_keys(exit: Option<Seq<char>>, pause: Option<Seq<char>>) -> Result<
    (Key, Key),
    ConfigFault,
> {
    match exit {
        None => Err(ConfigFault::ExitKeyMissing),
        Some(exit_name) => match resolve(exit_name) {
            None => Err(ConfigFault::ExitKeyUnresolved),
            Some(exit_key) => match pause {
                None => Err(ConfigFault::PauseKeyMissing),
                Some(pause_name) => match resolve(pause_name) {
                    None => Err(ConfigFault::PauseKeyUnresolved),
                    Some(pause_key) => Ok((exit_key, pause_key)),
                },
            },
        },
    }
}

/// The exit key and the pause key that a configuration document declares
/// under `control_keys`.
pub open spec fn control_keys(config: Node) -> Result<(Key, Key), ConfigFault> {
    let keys = config.member("control_keys"@);
    named_control_keys(keys.member("exit"@).text(), keys.member("pause"@).text())
}

/// A clone of the exit signal of `listener`: the same token, so that
/// cancelling the clone cancels the signal for everyone who holds one.
pub fn get_exit_cancellation_token(listener: &GlobalListener) -> (token: CancellationToken)
    ensures
        token == listener.exit_signal(),
{
    share_signal(&listener.exit_signal)
}

/// Builds the listener for the exit key and the pause key of a configuration
/// document.
pub fn create_global_listener(config: &Yaml) -> (created: Result<GlobalListener, ConfigError>)
    ensures
        match created {
            Ok(listener) => control_keys(yaml_node(*config)) == Ok::<(Key, Key), ConfigFault>(
                (listener.exit_key(), listener.pause_key()),
            ) && listener.state() == (ControlState { exit_requested: false, paused: false }),
            Err(error) => control_keys(yaml_node(*config)) == Err::<(Key, Key), ConfigFault>(
                error@,
            ),
        },
{
    let keys = member(config, "control_keys");
    GlobalListener::from_names(as_text(member(keys, "exit")), as_text(member(keys, "pause")))
}

} // verus!
