//! Keyboard input turned into player actions, per scene.
use vstd::prelude::*;
use crate::inventory::{index_after_decrement, index_after_increment, Inventory};
use crate::state::{AppState, Player, PlayerBattleState};

verus! {

/// The keys the game listens to.
#[derive(Clone, Copy, PartialEq, Eq, Structural, Debug, Hash)]
pub enum Key {
    W,
    Up,
    S,
    Down,
    A,
    Left,
    D,
    Right,
    Return,
    Space,
    B,
    T,
    E,
    I,
}

/// The keyboard in one frame: keys held, keys pressed this frame, and keys
/// released this frame.
#[derive(Clone, Debug)]
pub struct KeyboardInput {
    pub pressed: Vec<Key>,
    pub just_pressed: Vec<Key>,
    pub just_released: Vec<Key>,
}

/// `keys` without `key`.
pub open spec fn without(keys: Seq<Key>, key: Key) -> Seq<Key> {
    keys.filter(|k: Key| k != key)
}

/// A key is in `without(keys, key)` exactly when it is in `keys` and is not `key`.
pub proof fn lemma_without_contains(keys: Seq<Key>, key: Key)
    ensures
        forall|k: Key| #[trigger] without(keys, key).contains(k) <==> (keys.contains(k) && k != key),
    decreases keys.len(),
{
    reveal(Seq::filter);
    if keys.len() > 0 {
        lemma_without_contains(keys.drop_last(), key);
        let rest = without(keys.drop_last(), key);
        assert forall|k: Key| #[trigger] without(keys, key).contains(k) <==> (keys.contains(k) && k != key) by {
            if keys.contains(k) && k != key {
                let j = choose|j: int| 0 <= j < keys.len() && keys[j] == k;
                if j < keys.len() - 1 {
                    assert(keys.drop_last()[j] == k);
                    assert(rest.contains(k));
                    let m = choose|m: int| 0 <= m < rest.len() && rest[m] == k;
                    if keys.last() != key {
                        assert(without(keys, key) == rest.push(keys.last()));
                        assert(without(keys, key)[m] == k);
                    }
                } else {
                    assert(without(keys, key) == rest.push(keys.last()));
                    assert(without(keys, key)[rest.len() as int] == k);
                }
            }
            if without(keys, key).contains(k) {
                let m = choose|m: int| 0 <= m < without(keys, key).len() && without(keys, key)[m] == k;
                if keys.last() != key {
                    assert(without(keys, key) == rest.push(keys.last()));
                    if m < rest.len() {
                        assert(rest[m] == k);
                        assert(rest.contains(k));
                        let j = choose|j: int| 0 <= j < keys.drop_last().len() && keys.drop_last()[j] == k;
                        assert(keys[j] == k);
                    } else {
                        assert(keys[keys.len() - 1] == k);
                    }
                } else {
                    assert(without(keys, key) == rest);
                    assert(rest[m] == k);
                    assert(rest.contains(k));
                    let j = choose|j: int| 0 <= j < keys.drop_last().len() && keys.drop_last()[j] == k;
                    assert(keys[j] == k);
                }
            }
        }
    }
}

fn contains_key(keys: &Vec<Key>, key: Key) -> (r: bool)
    ensures
        r == keys@.contains(key),
{
    let n = keys.len();
    let mut i: usize = 0;
    while i < n
        invariant
            n == keys@.len(),
            0 <= i <= n,
            forall|j: int| 0 <= j < i ==> keys@[j] != key,
        decreases n - i,
    {
        if keys[i] == key {
            return true;
        }
        i = i + 1;
    }
    false
}

fn remove_key(keys: &Vec<Key>, key: Key) -> (r: Vec<Key>)
    ensures
        r@ == without(keys@, key),
{
    let mut r: Vec<Key> = Vec::new();
    let n = keys.len();
    let mut i: usize = 0;
    while i < n
        invariant
            n == keys@.len(),
            0 <= i <= n,
            r@ == without(keys@.take(i as int), key),
        decreases n - i,
    {
        proof {
            reveal(Seq::filter);
            assert(keys@.take(i + 1).drop_last() =~= keys@.take(i as int));
        }
        if keys[i] != key {
            r.push(keys[i]);
        }
        i = i + 1;
    }
    assert(keys@.take(n as int) =~= keys@);
    r
}

impl KeyboardInput {
    /// Whether `key` is held.
    pub fn pressed(&self, key: Key) -> (r: bool)
        ensures
            r == self.pressed@.contains(key),
    {
        contains_key(&self.pressed, key)
    }

    /// Whether `key` went down this frame.
    pub fn just_pressed(&self, key: Key) -> (r: bool)
        ensures
            r == self.just_pressed@.contains(key),
    {
        contains_key(&self.just_pressed, key)
    }

    /// Whether `key` went up this frame.
    pub fn just_released(&self, key: Key) -> (r: bool)
        ensures
            r == self.just_released@.contains(key),
    {
        contains_key(&self.just_released, key)
    }

    /// Forgets everything about `key` in this frame.
    pub fn reset(&mut self, key: Key)
        ensures
            final(self).pressed@ == without(old(self).pressed@, key),
            final(self).just_pressed@ == without(old(self).just_pressed@, key),
            final(self).just_released@ == without(old(self).just_released@, key),
            forall|k: Key| #![auto] final(self).pressed@.contains(k) <==> (old(self).pressed@.contains(k) && k != key),
            forall|k: Key| #![auto] final(self).just_pressed@.contains(k) <==> (old(self).just_pressed@.contains(k) && k != key),
            forall|k: Key| #![auto] final(self).just_released@.contains(k) <==> (old(self).just_released@.contains(k) && k != key),
    {
        proof {
            lemma_without_contains(self.pressed@, key);
            lemma_without_contains(self.just_pressed@, key);
            lemma_without_contains(self.just_released@, key);
        }
        self.pressed = remove_key(&self.pressed, key);
        self.just_pressed = remove_key(&self.just_pressed, key);
        self.just_released = remove_key(&self.just_released, key);
    }
}

/// What the player asks for.
#[derive(Clone, Copy, PartialEq, Eq, Structural, Debug)]
pub enum Action {
    Up,
    Down,
    Left,
    Right,
    Return,
}

/// The keys that give an action: arrows and WASD move, Return confirms.
pub open spec fn keys_of(a: Action) -> (Key, Key) {
    match a {
        Action::Up => (Key::W, Key::Up),
        Action::Down => (Key::S, Key::Down),
        Action::Left => (Key::A, Key::Left),
        Action::Right => (Key::D, Key::Right),
        Action::Return => (Key::Return, Key::Return),
    }
}

/// Whether one of the action's keys is in `keys`.
pub open spec fn any_key(a: Action, keys: Seq<Key>) -> bool {
    keys.contains(keys_of(a).0) || keys.contains(keys_of(a).1)
}

pub open spec fn held(a: Action, input: KeyboardInput) -> bool {
    any_key(a, input.pressed@)
}

pub open spec fn went_down(a: Action, input: KeyboardInput) -> bool {
    any_key(a, input.just_pressed@)
}

pub open spec fn went_up(a: Action, input: KeyboardInput) -> bool {
    any_key(a, input.just_released@)
}

impl Action {
    /// Whether one of this action's keys went up this frame.
    pub fn just_released(&self, keyboard_input: &KeyboardInput) -> (r: bool)
        ensures
            r == went_up(*self, *keyboard_input),
    {
        match self {
            Action::Up => keyboard_input.just_released(Key::W) || keyboard_input.just_released(Key::Up),
            Action::Down => keyboard_input.just_released(Key::S) || keyboard_input.just_released(Key::Down),
            Action::Left => keyboard_input.just_released(Key::A) || keyboard_input.just_released(Key::Left),
            Action::Right => keyboard_input.just_released(Key::D) || keyboard_input.just_released(Key::Right),
            Action::Return => keyboard_input.just_released(Key::Return),
        }
    }

    /// Whether one of this action's keys is held.
    pub fn pressed(&self, keyboard_input: &KeyboardInput) -> (r: bool)
        ensures
            r == held(*self, *keyboard_input),
    {
        match self {
            Action::Up => keyboard_input.pressed(Key::W) || keyboard_input.pressed(Key::Up),
            Action::Down => keyboard_input.pressed(Key::S) || keyboard_input.pressed(Key::Down),
            Action::Left => keyboard_input.pressed(Key::A) || keyboard_input.pressed(Key::Left),
            Action::Right => keyboard_input.pressed(Key::D) || keyboard_input.pressed(Key::Right),
            Action::Return => keyboard_input.pressed(Key::Return),
        }
    }

    /// Whether one of this action's keys went down this frame.
    pub fn just_pressed(&self, keyboard_input: &KeyboardInput) -> (r: bool)
        ensures
            r == went_down(*self, *keyboard_input),
    {
        match self {
            Action::Up => keyboard_input.just_pressed(Key::W) || keyboard_input.just_pressed(Key::Up),
            Action::Down => keyboard_input.just_pressed(Key::S) || keyboard_input.just_pressed(Key::Down),
            Action::Left => keyboard_input.just_pressed(Key::A) || keyboard_input.just_pressed(Key::Left),
            Action::Right => keyboard_input.just_pressed(Key::D) || keyboard_input.just_pressed(Key::Right),
            Action::Return => keyboard_input.just_pressed(Key::Return),
        }
    }
}

/// The action the player asked for in the current frame.
#[derive(Clone, Copy, PartialEq, Eq, Structural, Debug, Default)]
pub struct PlayerActions {
    pub action: Option<Action>,
}

/// The keys the event screen forgets once its message is dismissed.
pub open spec fn movement_keys() -> Seq<Key> {
    seq![Key::W, Key::Up, Key::S, Key::Down, Key::A, Key::Left, Key::D, Key::Right, Key::Return]
}

/// `after` is `before` with the movement keys and Return forgotten.
pub open spec fn movement_keys_forgotten(before: KeyboardInput, after: KeyboardInput) -> bool {
    &&& forall|k: Key| #![auto] after.pressed@.contains(k) <==> (before.pressed@.contains(k) && !movement_keys().contains(k))
    &&& forall|k: Key| #![auto] after.just_pressed@.contains(k) <==> (before.just_pressed@.contains(k) && !movement_keys().contains(k))
    &&& forall|k: Key| #![auto] after.just_released@.contains(k) <==> (before.just_released@.contains(k) && !movement_keys().contains(k))
}

impl PlayerActions {
    /// Forgets the movement keys and Return, so that a key held over a scene
    /// change does not act again in the next scene.
    pub fn reset_all(&self, keyboard_input: &mut KeyboardInput)
        ensures
            movement_keys_forgotten(*old(keyboard_input), *final(keyboard_input)),
    {
        keyboard_input.reset(Key::W);
        keyboard_input.reset(Key::Up);
        keyboard_input.reset(Key::S);
        keyboard_input.reset(Key::Down);
        keyboard_input.reset(Key::A);
        keyboard_input.reset(Key::Left);
        keyboard_input.reset(Key::D);
        keyboard_input.reset(Key::Right);
        keyboard_input.reset(Key::Return);
        proof {
            assert forall|k: Key| #![auto] movement_keys().contains(k) <==> (k == Key::W || k == Key::Up || k == Key::S
                || k == Key::Down || k == Key::A || k == Key::Left || k == Key::D || k == Key::Right || k == Key::Return) by {
                if k == Key::W { assert(movement_keys()[0] == k); }
                if k == Key::Up { assert(movement_keys()[1] == k); }
                if k == Key::S { assert(movement_keys()[2] == k); }
                if k == Key::Down { assert(movement_keys()[3] == k); }
                if k == Key::A { assert(movement_keys()[4] == k); }
                if k == Key::Left { assert(movement_keys()[5] == k); }
                if k == Key::D { assert(movement_keys()[6] == k); }
                if k == Key::Right { assert(movement_keys()[7] == k); }
                if k == Key::Return { assert(movement_keys()[8] == k); }
            }
        }
    }
}

/// The up/down part of a movement: a released key gives way to the other one
/// still held; otherwise a key pressed this frame counts.
pub open spec fn vertical_choice(input: KeyboardInput) -> Option<Action> {
    if went_up(Action::Up, input) || went_up(Action::Down, input) {
        if held(Action::Up, input) {
            Some(Action::Up)
        } else if held(Action::Down, input) {
            Some(Action::Down)
        } else {
            None
        }
    } else if went_down(Action::Up, input) {
        Some(Action::Up)
    } else if went_down(Action::Down, input) {
        Some(Action::Down)
    } else {
        None
    }
}

/// The left/right part of a movement, which overrides the up/down part `pm`.
pub open spec fn horizontal_choice(input: KeyboardInput, pm: Option<Action>) -> Option<Action> {
    if went_up(Action::Right, input) || went_up(Action::Left, input) {
        if held(Action::Right, input) {
            Some(Action::Right)
        } else if held(Action::Left, input) {
            Some(Action::Left)
        } else {
            None
        }
    } else if went_down(Action::Right, input) {
        Some(Action::Right)
    } else if went_down(Action::Left, input) {
        Some(Action::Left)
    } else {
        match pm {
            Some(Action::Right) | Some(Action::Left) => None,
            _ => pm,
        }
    }
}

/// The movement asked for on the map, given the action asked for before:
/// with no movement key held or released there is none; otherwise the new
/// choice, or the previous action when the keys settle on none.
pub open spec fn movement_action(input: KeyboardInput, previous: Option<Action>) -> Option<Action> {
    let active = went_up(Action::Up, input) || held(Action::Up, input) || went_up(Action::Left, input)
        || held(Action::Left, input) || went_up(Action::Down, input) || held(Action::Down, input)
        || went_up(Action::Right, input) || held(Action::Right, input);
    if active {
        let pm = horizontal_choice(input, vertical_choice(input));
        if pm is Some {
            pm
        } else {
            previous
        }
    } else {
        None
    }
}

/// The command asked for in battle: up or down moves the skill cursor,
/// Return confirms, and Return overrides the cursor keys.
pub open spec fn battle_action(input: KeyboardInput) -> Option<Action> {
    let active = went_up(Action::Up, input) || went_down(Action::Up, input) || went_up(Action::Down, input)
        || went_down(Action::Down, input) || went_up(Action::Return, input) || went_down(Action::Return, input);
    if active {
        let pc = vertical_choice(input);
        if went_up(Action::Return, input) {
            if held(Action::Return, input) {
                Some(Action::Return)
            } else {
                None
            }
        } else if went_down(Action::Return, input) {
            Some(Action::Return)
        } else {
            match pc {
                Some(Action::Return) => None,
                _ => pc,
            }
        }
    } else {
        None
    }
}

/// The command asked for on the event screen, given the one asked for before.
pub open spec fn event_action(input: KeyboardInput, previous: Option<Action>) -> Option<Action> {
    if went_up(Action::Return, input) || held(Action::Return, input) {
        let pc = if went_up(Action::Return, input) {
            if held(Action::Return, input) {
                Some(Action::Return)
            } else {
                None
            }
        } else if went_down(Action::Return, input) {
            Some(Action::Return)
        } else {
            None
        };
        if pc is Some {
            pc
        } else {
            previous
        }
    } else {
        None
    }
}

fn vertical(keyboard_input: &KeyboardInput) -> (r: Option<Action>)
    ensures
        r == vertical_choice(*keyboard_input),
{
    if Action::Up.just_released(keyboard_input) || Action::Down.just_released(keyboard_input) {
        if Action::Up.pressed(keyboard_input) {
            Some(Action::Up)
        } else if Action::Down.pressed(keyboard_input) {
            Some(Action::Down)
        } else {
            None
        }
    } else if Action::Up.just_pressed(keyboard_input) {
        Some(Action::Up)
    } else if Action::Down.just_pressed(keyboard_input) {
        Some(Action::Down)
    } else {
        None
    }
}

/// Reads the movement the player asks for on the map.
pub fn set_movement_actions(actions: &mut PlayerActions, keyboard_input: &KeyboardInput)
    ensures
        final(actions).action == movement_action(*keyboard_input, old(actions).action),
{
    if Action::Up.just_released(keyboard_input) || Action::Up.pressed(keyboard_input)
        || Action::Left.just_released(keyboard_input) || Action::Left.pressed(keyboard_input)
        || Action::Down.just_released(keyboard_input) || Action::Down.pressed(keyboard_input)
        || Action::Right.just_released(keyboard_input) || Action::Right.pressed(keyboard_input) {
        let mut player_movement = vertical(keyboard_input);
        if Action::Right.just_released(keyboard_input) || Action::Left.just_released(keyboard_input) {
            if Action::Right.pressed(keyboard_input) {
                player_movement = Some(Action::Right);
            } else if Action::Left.pressed(keyboard_input) {
                player_movement = Some(Action::Left);
            } else {
                player_movement = None;
            }
        } else if Action::Right.just_pressed(keyboard_input) {
            player_movement = Some(Action::Right);
        } else if Action::Left.just_pressed(keyboard_input) {
            player_movement = Some(Action::Left);
        } else {
            if let Some(action) = player_movement {
                if action == Action::Right || action == Action::Left {
                    player_movement = None;
                }
            }
        }
        if let Some(action) = player_movement {
            actions.action = Some(action);
        }
    } else {
        actions.action = None;
    }
}

/// Reads the command the player gives in battle.
pub fn set_battle_actions(actions: &mut PlayerActions, keyboard_input: &KeyboardInput)
    ensures
        final(actions).action == battle_action(*keyboard_input),
{
    if Action::Up.just_released(keyboard_input) || Action::Up.just_pressed(keyboard_input)
        || Action::Down.just_released(keyboard_input) || Action::Down.just_pressed(keyboard_input)
        || Action::Return.just_released(keyboard_input) || Action::Return.just_pressed(keyboard_input) {
        let mut player_command = vertical(keyboard_input);
        if Action::Return.just_released(keyboard_input) {
            if Action::Return.pressed(keyboard_input) {
                player_command = Some(Action::Return);
            } else {
                player_command = None;
            }
        } else if Action::Return.just_pressed(keyboard_input) {
            player_command = Some(Action::Return);
        } else {
            if let Some(action) = player_command {
                if action == Action::Return {
                    player_command = None;
                }
            }
        }
        actions.action = player_command;
    } else {
        actions.action = None;
    }
}

/// Reads the command the player gives on the event screen.
pub fn set_event_actions(actions: &mut PlayerActions, keyboard_input: &KeyboardInput)
    ensures
        final(actions).action == event_action(*keyboard_input, old(actions).action),
{
    if Action::Return.just_released(keyboard_input) || Action::Return.pressed(keyboard_input) {
        let mut player_command: Option<Action> = None;
        if Action::Return.just_released(keyboard_input) {
            if Action::Return.pressed(keyboard_input) {
                player_command = Some(Action::Return);
            } else {
                player_command = None;
            }
        } else if Action::Return.just_pressed(keyboard_input) {
            player_command = Some(Action::Return);
        }
        if let Some(action) = player_command {
            actions.action = Some(action);
        }
    } else {
        actions.action = None;
    }
}

/// On the title menu, Space starts a new game: the key is forgotten and the
/// map scene is next.
pub fn set_menu_actions(keyboard_input: &mut KeyboardInput) -> (r: Option<AppState>)
    ensures
        old(keyboard_input).just_pressed@.contains(Key::Space) ==> {
            &&& r == Some(AppState::InGameMap)
            &&& final(keyboard_input).pressed@ == without(old(keyboard_input).pressed@, Key::Space)
            &&& final(keyboard_input).just_pressed@ == without(old(keyboard_input).just_pressed@, Key::Space)
            &&& final(keyboard_input).just_released@ == without(old(keyboard_input).just_released@, Key::Space)
        },
        !old(keyboard_input).just_pressed@.contains(Key::Space) ==> r is None && *final(keyboard_input) == *old(keyboard_input),
{
    if keyboard_input.just_pressed(Key::Space) {
        keyboard_input.reset(Key::Space);
        Some(AppState::InGameMap)
    } else {
        None
    }
}

/// Carries out a battle command: up and down move the skill cursor, Return
/// starts the player's attack while a skill is being chosen.
pub fn exec_actions(action: Option<Action>, inventory: &mut Inventory, player: &mut Player)
    requires
        old(inventory).wf(),
    ensures
        action == Some(Action::Up) ==> final(inventory).selected_skill_index == index_after_decrement(
            old(inventory).selected_skill_index as int, old(inventory).skills.len() as int),
        action == Some(Action::Down) ==> final(inventory).selected_skill_index == index_after_increment(
            old(inventory).selected_skill_index as int, old(inventory).skills.len() as int),
        action != Some(Action::Up) && action != Some(Action::Down) ==> final(inventory).selected_skill_index == old(inventory).selected_skill_index,
        final(inventory).items@ == old(inventory).items@,
        final(inventory).skills@ == old(inventory).skills@,
        final(player).battle_state == (if action == Some(Action::Return) && old(player).battle_state == PlayerBattleState::Select {
            PlayerBattleState::Attack
        } else {
            old(player).battle_state
        }),
{
    match action {
        Some(Action::Up) => inventory.decrement_index(),
        Some(Action::Down) => inventory.increment_index(),
        Some(Action::Return) => {
            if player.battle_state == PlayerBattleState::Select {
                player.battle_state = PlayerBattleState::Attack;
            }
        },
        _ => {},
    }
}

/// With no key held or released, no action is asked for, in any scene.
pub proof fn lemma_idle_keyboard(input: KeyboardInput, previous: Option<Action>)
    requires
        input.pressed@.len() == 0,
        input.just_pressed@.len() == 0,
        input.just_released@.len() == 0,
    ensures
        movement_action(input, previous) is None,
        battle_action(input) is None,
        event_action(input, previous) is None,
{
}

/// Holding a single movement key on the map asks for that movement as soon
/// as it is pressed, and keeps asking for it while it is held.
pub proof fn lemma_held_key_moves(input: KeyboardInput, previous: Option<Action>, a: Action)
    requires
        a != Action::Return,
        input.just_released@.len() == 0,
        forall|k: Key| #[trigger] input.pressed@.contains(k) <==> k == keys_of(a).1,
        forall|k: Key| #[trigger] input.just_pressed@.contains(k) ==> k == keys_of(a).1,
        input.just_pressed@.len() > 0 || previous == Some(a),
    ensures
        movement_action(input, previous) == Some(a),
{
    if input.just_pressed@.len() > 0 {
        assert(input.just_pressed@.contains(input.just_pressed@[0]));
    }
    assert(input.pressed@.contains(keys_of(a).1));
}

} // verus!
