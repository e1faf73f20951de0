use crate::inputs::{
    Button, ControllerState, BTN_ALL, DPAD_E, DPAD_N, DPAD_NE, DPAD_NEUTRAL, DPAD_NW, DPAD_S,
    DPAD_SE, DPAD_SW, DPAD_W,
};
use vstd::prelude::*;

verus! {

/// The band of a trigger's stroke that counts: at `release` and below the
/// trigger reads as released, at `full_stroke` and above as fully pulled.
#[derive(Clone, Copy, Debug, PartialEq, Eq, Structural)]
pub struct TriggerDeadband {
    pub release: u8,
    pub full_stroke: u8,
}

impl TriggerDeadband {
    /// The band that leaves a trigger as it is.
    pub open spec fn spec_default() -> TriggerDeadband {
        TriggerDeadband { release: 0, full_stroke: 255 }
    }

    /// The value from which on the trigger reads as fully pulled: the
    /// full stroke, but above the release point.
    pub open spec fn spec_full(self) -> int {
        let least = if self.release == 255 {
            255
        } else {
            self.release + 1
        };
        if self.full_stroke < least {
            least
        } else {
            self.full_stroke as int
        }
    }
}

impl Default for TriggerDeadband {
    fn default() -> (band: TriggerDeadband)
        ensures
            band == TriggerDeadband::spec_default(),
    {
        TriggerDeadband { release: 0, full_stroke: 255 }
    }
}

/// `num * 255 / den`, rounded to the nearest integer, halves upwards.
pub open spec fn spec_scale_rounded(num: int, den: int) -> int {
    (2 * num * 255 + den) / (2 * den)
}

/// What a trigger reads as under a band: the default band changes
/// nothing; under another band the trigger is released up to the release
/// point, fully pulled from the full stroke on, and in proportion between.
pub open spec fn spec_apply_trigger(raw: u8, band: TriggerDeadband) -> u8 {
    if band == TriggerDeadband::spec_default() {
        raw
    } else if raw <= band.release {
        0
    } else if raw >= band.spec_full() {
        255
    } else {
        spec_scale_rounded(raw - band.release, band.spec_full() - band.release) as u8
    }
}

/// Maps the raw value of a trigger through a band.
pub fn apply_trigger(raw: u8, db: &TriggerDeadband) -> (out: u8)
    ensures
        out == spec_apply_trigger(raw, *db),
{
    if db.release == 0 && db.full_stroke == 255 {
        return raw;
    }
    let least: u8 = if db.release == 255 {
        255
    } else {
        db.release + 1
    };
    let full: u8 = if db.full_stroke < least {
        least
    } else {
        db.full_stroke
    };
    if raw <= db.release {
        return 0;
    }
    if raw >= full {
        return 255;
    }
    let num: u32 = (raw - db.release) as u32;
    let den: u32 = (full - db.release) as u32;
    assert((2 * num * 255 + den) / (2 * den) <= 255) by (nonlinear_arith)
        requires
            0 <= num < den,
            0 < den <= 255,
    ;
    ((2 * num * 255 + den) / (2 * den)) as u8
}

/// Whether the d-pad code `dpad` holds the direction up.
pub open spec fn spec_dpad_up(dpad: u8) -> bool {
    dpad == DPAD_N || dpad == DPAD_NE || dpad == DPAD_NW
}

/// Whether the d-pad code `dpad` holds the direction right.
pub open spec fn spec_dpad_right(dpad: u8) -> bool {
    dpad == DPAD_NE || dpad == DPAD_E || dpad == DPAD_SE
}

/// Whether the d-pad code `dpad` holds the direction down.
pub open spec fn spec_dpad_down(dpad: u8) -> bool {
    dpad == DPAD_SE || dpad == DPAD_S || dpad == DPAD_SW
}

/// Whether the d-pad code `dpad` holds the direction left.
pub open spec fn spec_dpad_left(dpad: u8) -> bool {
    dpad == DPAD_SW || dpad == DPAD_W || dpad == DPAD_NW
}

/// The d-pad code for the directions held: one of the eight ways where
/// one direction or two neighbours are held, neutral for anything else.
pub open spec fn spec_dirs_to_dpad(up: bool, right: bool, down: bool, left: bool) -> u8 {
    if up && !right && !down && !left {
        DPAD_N
    } else if up && right && !down && !left {
        DPAD_NE
    } else if !up && right && !down && !left {
        DPAD_E
    } else if !up && right && down && !left {
        DPAD_SE
    } else if !up && !right && down && !left {
        DPAD_S
    } else if !up && !right && down && left {
        DPAD_SW
    } else if !up && !right && !down && left {
        DPAD_W
    } else if up && !right && !down && left {
        DPAD_NW
    } else {
        DPAD_NEUTRAL
    }
}

/// Splits a d-pad code into the directions up, right, down, left.
pub fn dpad_to_dirs(dpad: u8) -> (dirs: [bool; 4])
    ensures
        dirs@ == seq![
            spec_dpad_up(dpad),
            spec_dpad_right(dpad),
            spec_dpad_down(dpad),
            spec_dpad_left(dpad),
        ],
{
    match dpad {
        0 => [true, false, false, false],
        1 => [true, true, false, false],
        2 => [false, true, false, false],
        3 => [false, true, true, false],
        4 => [false, false, true, false],
        5 => [false, false, true, true],
        6 => [false, false, false, true],
        7 => [true, false, false, true],
        _ => [false, false, false, false],
    }
}

/// Joins the directions up, right, down, left into a d-pad code.
pub fn dirs_to_dpad(d: [bool; 4]) -> (dpad: u8)
    ensures
        dpad == spec_dirs_to_dpad(d@[0], d@[1], d@[2], d@[3]),
        dpad <= DPAD_NEUTRAL,
{
    let (up, right, down, left) = (d[0], d[1], d[2], d[3]);
    if up && !right && !down && !left {
        DPAD_N
    } else if up && right && !down && !left {
        DPAD_NE
    } else if !up && right && !down && !left {
        DPAD_E
    } else if !up && right && down && !left {
        DPAD_SE
    } else if !up && !right && down && !left {
        DPAD_S
    } else if !up && !right && down && left {
        DPAD_SW
    } else if !up && !right && !down && left {
        DPAD_W
    } else if up && !right && !down && left {
        DPAD_NW
    } else {
        DPAD_NEUTRAL
    }
}

/// A d-pad code that is split and joined again stays as it is if it is one
/// of the nine codes, and becomes neutral if not.
pub proof fn lemma_dpad_round_trip(dpad: u8)
    ensures
        spec_dirs_to_dpad(
            spec_dpad_up(dpad),
            spec_dpad_right(dpad),
            spec_dpad_down(dpad),
            spec_dpad_left(dpad),
        ) == if dpad <= DPAD_NEUTRAL {
            dpad
        } else {
            DPAD_NEUTRAL
        },
{
}

/// Number of inputs that can be remapped or disabled.
pub const BUTTON_COUNT: usize = 19;

impl Button {
    /// The place of this input in the order in which inputs are remapped.
    pub open spec fn spec_index(self) -> int {
        match self {
            Button::Square => 0,
            Button::Cross => 1,
            Button::Circle => 2,
            Button::Triangle => 3,
            Button::L1 => 4,
            Button::R1 => 5,
            Button::L2 => 6,
            Button::R2 => 7,
            Button::Create => 8,
            Button::Options => 9,
            Button::L3 => 10,
            Button::R3 => 11,
            Button::PS => 12,
            Button::Touchpad => 13,
            Button::Mute => 14,
            Button::DPadUp => 15,
            Button::DPadRight => 16,
            Button::DPadDown => 17,
            Button::DPadLeft => 18,
        }
    }

    /// The input at place `i`.
    pub open spec fn spec_at(i: int) -> Button {
        if i == 0 {
            Button::Square
        } else if i == 1 {
            Button::Cross
        } else if i == 2 {
            Button::Circle
        } else if i == 3 {
            Button::Triangle
        } else if i == 4 {
            Button::L1
        } else if i == 5 {
            Button::R1
        } else if i == 6 {
            Button::L2
        } else if i == 7 {
            Button::R2
        } else if i == 8 {
            Button::Create
        } else if i == 9 {
            Button::Options
        } else if i == 10 {
            Button::L3
        } else if i == 11 {
            Button::R3
        } else if i == 12 {
            Button::PS
        } else if i == 13 {
            Button::Touchpad
        } else if i == 14 {
            Button::Mute
        } else if i == 15 {
            Button::DPadUp
        } else if i == 16 {
            Button::DPadRight
        } else if i == 17 {
            Button::DPadDown
        } else {
            Button::DPadLeft
        }
    }

    pub fn index(&self) -> (i: usize)
        ensures
            i == self.spec_index(),
            i < BUTTON_COUNT,
            Button::spec_at(i as int) == *self,
    {
        match self {
            Button::Square => 0,
            Button::Cross => 1,
            Button::Circle => 2,
            Button::Triangle => 3,
            Button::L1 => 4,
            Button::R1 => 5,
            Button::L2 => 6,
            Button::R2 => 7,
            Button::Create => 8,
            Button::Options => 9,
            Button::L3 => 10,
            Button::R3 => 11,
            Button::PS => 12,
            Button::Touchpad => 13,
            Button::Mute => 14,
            Button::DPadUp => 15,
            Button::DPadRight => 16,
            Button::DPadDown => 17,
            Button::DPadLeft => 18,
        }
    }

    /// The input at place `i`; past the last place, the last input.
    pub fn at(i: usize) -> (b: Button)
        ensures
            b == Button::spec_at(i as int),
            i < BUTTON_COUNT ==> b.spec_index() == i,
    {
        match i {
            0 => Button::Square,
            1 => Button::Cross,
            2 => Button::Circle,
            3 => Button::Triangle,
            4 => Button::L1,
            5 => Button::R1,
            6 => Button::L2,
            7 => Button::R2,
            8 => Button::Create,
            9 => Button::Options,
            10 => Button::L3,
            11 => Button::R3,
            12 => Button::PS,
            13 => Button::Touchpad,
            14 => Button::Mute,
            15 => Button::DPadUp,
            16 => Button::DPadRight,
            17 => Button::DPadDown,
            _ => Button::DPadLeft,
        }
    }
}

/// Which input each input stands for. An input that is not named stands
/// for itself.
#[derive(Clone, Copy, Debug, PartialEq, Eq)]
pub struct ButtonRemap {
    targets: [Option<Button>; 19],
}

impl View for ButtonRemap {
    type V = Map<Button, Button>;

    closed spec fn view(&self) -> Map<Button, Button> {
        Map::new(
            |b: Button| self.targets@[b.spec_index()] is Some,
            |b: Button| self.targets@[b.spec_index()]->0,
        )
    }
}

/// The input that `b` stands for under `remap`.
pub open spec fn spec_target(remap: Map<Button, Button>, b: Button) -> Button {
    if remap.contains_key(b) {
        remap[b]
    } else {
        b
    }
}

impl ButtonRemap {
    /// The remap under which every input stands for itself.
    pub fn new() -> (remap: ButtonRemap)
        ensures
            remap@ == Map::<Button, Button>::empty(),
    {
        let remap = ButtonRemap { targets: [None; 19] };
        assert(remap@ =~= Map::<Button, Button>::empty());
        remap
    }

    /// Lets `from` stand for `to`.
    pub fn insert(&mut self, from: Button, to: Button)
        ensures
            final(self)@ == old(self)@.insert(from, to),
    {
        let i = from.index();
        self.targets[i] = Some(to);
        proof {
            assert forall|b: Button| b.spec_index() == i implies b == from by {
                assert(Button::spec_at(b.spec_index()) == b);
            }
            assert(self@ =~= old(self)@.insert(from, to));
        }
    }

    /// Lets `from` stand for itself again.
    pub fn remove(&mut self, from: Button)
        ensures
            final(self)@ == old(self)@.remove(from),
    {
        let i = from.index();
        self.targets[i] = None;
        proof {
            assert forall|b: Button| b.spec_index() == i implies b == from by {
                assert(Button::spec_at(b.spec_index()) == b);
            }
            assert(self@ =~= old(self)@.remove(from));
        }
    }

    /// The input that `from` is set to stand for, if any.
    pub fn get(&self, from: &Button) -> (to: Option<Button>)
        ensures
            to == if self@.contains_key(*from) {
                Some(self@[*from])
            } else {
                None
            },
    {
        self.targets[from.index()]
    }

    /// The input that `from` stands for.
    pub fn target(&self, from: &Button) -> (to: Button)
        ensures
            to == spec_target(self@, *from),
    {
        match self.targets[from.index()] {
            Some(to) => to,
            None => *from,
        }
    }

    /// Whether every input stands for itself because none is named.
    pub fn is_empty(&self) -> (empty: bool)
        ensures
            empty == (self@ == Map::<Button, Button>::empty()),
    {
        let mut i: usize = 0;
        while i < BUTTON_COUNT
            invariant
                i <= BUTTON_COUNT,
                forall|k: int| 0 <= k < i ==> self.targets@[k] is None,
            decreases BUTTON_COUNT - i,
        {
            if self.targets[i].is_some() {
                proof {
                    let b = Button::spec_at(i as int);
                    assert(b.spec_index() == i);
                    assert(self@.contains_key(b));
                }
                return false;
            }
            i += 1;
        }
        assert(self@ =~= Map::<Button, Button>::empty());
        true
    }
}

/// A set of inputs.
#[derive(Clone, Copy, Debug, PartialEq, Eq)]
pub struct ButtonSet {
    members: [bool; 19],
}

impl View for ButtonSet {
    type V = Set<Button>;

    closed spec fn view(&self) -> Set<Button> {
        Set::new(|b: Button| self.members@[b.spec_index()])
    }
}

impl ButtonSet {
    /// The set without inputs.
    pub fn new() -> (set: ButtonSet)
        ensures
            set@ == Set::<Button>::empty(),
    {
        let set = ButtonSet { members: [false; 19] };
        assert(set@ =~= Set::<Button>::empty());
        set
    }

    pub fn insert(&mut self, b: Button)
        ensures
            final(self)@ == old(self)@.insert(b),
    {
        let i = b.index();
        self.members[i] = true;
        proof {
            assert forall|c: Button| c.spec_index() == i implies c == b by {
                assert(Button::spec_at(c.spec_index()) == c);
            }
            assert(self@ =~= old(self)@.insert(b));
        }
    }

    pub fn remove(&mut self, b: Button)
        ensures
            final(self)@ == old(self)@.remove(b),
    {
        let i = b.index();
        self.members[i] = false;
        proof {
            assert forall|c: Button| c.spec_index() == i implies c == b by {
                assert(Button::spec_at(c.spec_index()) == c);
            }
            assert(self@ =~= old(self)@.remove(b));
        }
    }

    pub fn contains(&self, b: &Button) -> (yes: bool)
        ensures
            yes == self@.contains(*b),
    {
        self.members[b.index()]
    }

    pub fn is_empty(&self) -> (empty: bool)
        ensures
            empty == (self@ == Set::<Button>::empty()),
    {
        let mut i: usize = 0;
        while i < BUTTON_COUNT
            invariant
                i <= BUTTON_COUNT,
                forall|k: int| 0 <= k < i ==> !self.members@[k],
            decreases BUTTON_COUNT - i,
        {
            if self.members[i] {
                proof {
                    let b = Button::spec_at(i as int);
                    assert(b.spec_index() == i);
                    assert(self@.contains(b));
                }
                return false;
            }
            i += 1;
        }
        assert(self@ =~= Set::<Button>::empty());
        true
    }
}

/// Whether input `b` is held in a button mask and a d-pad code.
pub open spec fn spec_pressed(buttons: u32, dpad: u8, b: Button) -> bool {
    match b {
        Button::DPadUp => spec_dpad_up(dpad),
        Button::DPadRight => spec_dpad_right(dpad),
        Button::DPadDown => spec_dpad_down(dpad),
        Button::DPadLeft => spec_dpad_left(dpad),
        _ => buttons & b.spec_bitmask()->0 != 0,
    }
}

/// Whether the input at place `k` is held, is not disabled and stands for `target`.
pub open spec fn spec_fires(
    buttons: u32,
    dpad: u8,
    remap: Map<Button, Button>,
    disabled: Set<Button>,
    k: int,
    target: Button,
) -> bool {
    &&& spec_pressed(buttons, dpad, Button::spec_at(k))
    &&& !disabled.contains(Button::spec_at(k))
    &&& spec_target(remap, Button::spec_at(k)) == target
}

/// Whether one of the first `n` inputs is held, is not disabled and
/// stands for `target`.
pub open spec fn spec_emitted_by(
    buttons: u32,
    dpad: u8,
    remap: Map<Button, Button>,
    disabled: Set<Button>,
    n: int,
    target: Button,
) -> bool {
    exists|k: int| 0 <= k < n && #[trigger] spec_fires(buttons, dpad, remap, disabled, k, target)
}

/// Whether `target` is held after remapping: some input is held, is not
/// disabled and stands for it.
pub open spec fn spec_emitted(
    buttons: u32,
    dpad: u8,
    remap: Map<Button, Button>,
    disabled: Set<Button>,
    target: Button,
) -> bool {
    spec_emitted_by(buttons, dpad, remap, disabled, BUTTON_COUNT as int, target)
}

/// Whether `out`, a button mask and a d-pad code, is what remapping
/// makes of `buttons` and `dpad`: the mask holds the bits of the buttons
/// that are held after remapping and no other bit, and the code joins
/// the directions that are.
pub open spec fn spec_is_remapped(
    buttons: u32,
    dpad: u8,
    remap: Map<Button, Button>,
    disabled: Set<Button>,
    out: (u32, u8),
) -> bool {
    &&& out.0 <= BTN_ALL
    &&& forall|t: Button|
        t.spec_bitmask() is Some ==> ((out.0 & #[trigger] t.spec_bitmask()->0 != 0)
            <==> spec_emitted(buttons, dpad, remap, disabled, t))
    &&& out.1 == spec_dirs_to_dpad(
        spec_emitted(buttons, dpad, remap, disabled, Button::DPadUp),
        spec_emitted(buttons, dpad, remap, disabled, Button::DPadRight),
        spec_emitted(buttons, dpad, remap, disabled, Button::DPadDown),
        spec_emitted(buttons, dpad, remap, disabled, Button::DPadLeft),
    )
}

/// A bit of a union is set exactly when it is set in one of the two.
proof fn lemma_or_bits(a: u32, b: u32, m: u32)
    by (bit_vector)
    ensures
        ((a | b) & m != 0) <==> (a & m != 0 || b & m != 0),
        (a <= 0x7fffu32 && b <= 0x7fffu32) ==> (a | b) <= 0x7fffu32,
        0u32 & m == 0,
{
}

/// The place of a button's bit in a button mask.
pub open spec fn spec_bit(b: Button) -> u32 {
    b.spec_index() as u32
}

/// The masks of the buttons are single bits, one for each of the low
/// fifteen places.
proof fn lemma_masks_are_bits()
    ensures
        forall|b: Button| #[trigger]
            b.spec_bitmask() is Some ==> b.spec_bitmask()->0 == 1u32 << spec_bit(b) && spec_bit(b)
                < 15,
{
    assert(0x0001u32 == 1u32 << 0u32 && 0x0002u32 == 1u32 << 1u32 && 0x0004u32 == 1u32 << 2u32
        && 0x0008u32 == 1u32 << 3u32 && 0x0010u32 == 1u32 << 4u32 && 0x0020u32 == 1u32 << 5u32
        && 0x0040u32 == 1u32 << 6u32 && 0x0080u32 == 1u32 << 7u32 && 0x0100u32 == 1u32 << 8u32
        && 0x0200u32 == 1u32 << 9u32 && 0x0400u32 == 1u32 << 10u32 && 0x0800u32 == 1u32 << 11u32
        && 0x1000u32 == 1u32 << 12u32 && 0x2000u32 == 1u32 << 13u32 && 0x4000u32 == 1u32
        << 14u32) by (bit_vector);
    assert forall|b: Button| #[trigger] b.spec_bitmask() is Some implies b.spec_bitmask()->0
        == 1u32 << spec_bit(b) && spec_bit(b) < 15 by {
        match b {
            Button::Square => {},
            Button::Cross => {},
            Button::Circle => {},
            Button::Triangle => {},
            Button::L1 => {},
            Button::R1 => {},
            Button::L2 => {},
            Button::R2 => {},
            Button::Create => {},
            Button::Options => {},
            Button::L3 => {},
            Button::R3 => {},
            Button::PS => {},
            Button::Touchpad => {},
            Button::Mute => {},
            _ => {},
        }
    }
}

/// Two single bits meet exactly when they are the same bit, and a single
/// bit below place fifteen is a button bit.
proof fn lemma_single_bits(i: u32, j: u32)
    by (bit_vector)
    requires
        i < 15,
        j < 15,
    ensures
        ((1u32 << i) & (1u32 << j) != 0) <==> i == j,
        (1u32 << i) <= 0x7fffu32,
{
}

/// The masks of two buttons meet exactly when they are the same button.
proof fn lemma_masks_meet(a: Button, b: Button)
    requires
        a.spec_bitmask() is Some,
        b.spec_bitmask() is Some,
    ensures
        (a.spec_bitmask()->0 & b.spec_bitmask()->0 != 0) <==> a == b,
        a.spec_bitmask()->0 <= BTN_ALL,
{
    lemma_masks_are_bits();
    lemma_single_bits(spec_bit(a), spec_bit(b));
    assert(Button::spec_at(a.spec_index()) == a);
    assert(Button::spec_at(b.spec_index()) == b);
}

/// Setting the bit of a button in a mask sets that bit and no other, and
/// keeps a button mask a button mask.
proof fn lemma_encoded_bit(before: u32, target: Button, t: Button)
    requires
        target.spec_bitmask() is Some,
        t.spec_bitmask() is Some,
    ensures
        ((before | target.spec_bitmask()->0) & t.spec_bitmask()->0 != 0) <==> (before
            & t.spec_bitmask()->0 != 0 || t == target),
        before <= BTN_ALL ==> (before | target.spec_bitmask()->0) <= BTN_ALL,
{
    lemma_or_bits(before, target.spec_bitmask()->0, t.spec_bitmask()->0);
    lemma_masks_meet(target, t);
}

/// One of the first `k + 1` inputs presses `t` exactly when one of the
/// first `k` does or the input at place `k` does.
proof fn lemma_emitted_step(
    buttons: u32,
    dpad: u8,
    remap: Map<Button, Button>,
    disabled: Set<Button>,
    k: int,
    t: Button,
)
    ensures
        spec_emitted_by(buttons, dpad, remap, disabled, k + 1, t) <==> (spec_emitted_by(
            buttons,
            dpad,
            remap,
            disabled,
            k,
            t,
        ) || (0 <= k && spec_fires(buttons, dpad, remap, disabled, k, t))),
{
    if spec_emitted_by(buttons, dpad, remap, disabled, k + 1, t) {
        let w = choose|w: int|
            0 <= w < k + 1 && #[trigger] spec_fires(buttons, dpad, remap, disabled, w, t);
        if w < k {
            assert(spec_emitted_by(buttons, dpad, remap, disabled, k, t));
        }
    }
    if spec_emitted_by(buttons, dpad, remap, disabled, k, t) {
        let w = choose|w: int|
            0 <= w < k && #[trigger] spec_fires(buttons, dpad, remap, disabled, w, t);
        assert(spec_fires(buttons, dpad, remap, disabled, w, t));
    }
}

/// Marks input `btn` as held: a button gets its bit in `out`, a
/// direction of the d-pad its place in `dirs`.
pub fn encode_button(btn: &Button, out: &mut u32, dirs: &mut [bool; 4])
    ensures
        *final(out) == match btn.spec_bitmask() {
            Some(m) => *old(out) | m,
            None => *old(out),
        },
        final(dirs)@ == match *btn {
            Button::DPadUp => old(dirs)@.update(0, true),
            Button::DPadRight => old(dirs)@.update(1, true),
            Button::DPadDown => old(dirs)@.update(2, true),
            Button::DPadLeft => old(dirs)@.update(3, true),
            _ => old(dirs)@,
        },
{
    match btn {
        Button::DPadUp => {
            dirs[0] = true;
        },
        Button::DPadRight => {
            dirs[1] = true;
        },
        Button::DPadDown => {
            dirs[2] = true;
        },
        Button::DPadLeft => {
            dirs[3] = true;
        },
        _ => {
            match btn.to_bitmask() {
                Some(m) => {
                    *out = *out | m;
                },
                None => {},
            }
        },
    }
}

/// Whether input `btn` is held in a button mask and the directions of a d-pad.
fn is_pressed(buttons: u32, dpad: u8, dirs: &[bool; 4], btn: &Button) -> (yes: bool)
    requires
        dirs@ == seq![
            spec_dpad_up(dpad),
            spec_dpad_right(dpad),
            spec_dpad_down(dpad),
            spec_dpad_left(dpad),
        ],
    ensures
        yes == spec_pressed(buttons, dpad, *btn),
{
    match btn {
        Button::DPadUp => dirs[0],
        Button::DPadRight => dirs[1],
        Button::DPadDown => dirs[2],
        Button::DPadLeft => dirs[3],
        _ => match btn.to_bitmask() {
            Some(m) => buttons & m != 0,
            None => false,
        },
    }
}

/// Remaps the inputs that are held. Every held input that is not
/// disabled presses the input it stands for; a disabled input presses
/// nothing. The directions that are pressed are joined into a d-pad code.
pub fn remap_buttons(buttons: u32, dpad: u8, remap: &ButtonRemap, disabled: &ButtonSet) -> (out: (
    u32,
    u8,
))
    ensures
        spec_is_remapped(buttons, dpad, remap@, disabled@, out),
        out.0 <= BTN_ALL,
        out.1 <= DPAD_NEUTRAL,
{
    let dirs = dpad_to_dirs(dpad);
    let mut out_buttons: u32 = 0;
    let mut out_dirs: [bool; 4] = [false; 4];
    let mut i: usize = 0;
    proof {
        assert forall|t: Button|
            t.spec_bitmask() is Some implies !(out_buttons & #[trigger] t.spec_bitmask()->0
            != 0) by {
            lemma_or_bits(0, 0, t.spec_bitmask()->0);
        }
    }
    while i < BUTTON_COUNT
        invariant
            i <= BUTTON_COUNT,
            dirs@ == seq![
                spec_dpad_up(dpad),
                spec_dpad_right(dpad),
                spec_dpad_down(dpad),
                spec_dpad_left(dpad),
            ],
            out_buttons <= BTN_ALL,
            forall|t: Button|
                t.spec_bitmask() is Some ==> ((out_buttons & #[trigger] t.spec_bitmask()->0 != 0)
                    <==> spec_emitted_by(buttons, dpad, remap@, disabled@, i as int, t)),
            out_dirs@[0] == spec_emitted_by(
                buttons,
                dpad,
                remap@,
                disabled@,
                i as int,
                Button::DPadUp,
            ),
            out_dirs@[1] == spec_emitted_by(
                buttons,
                dpad,
                remap@,
                disabled@,
                i as int,
                Button::DPadRight,
            ),
            out_dirs@[2] == spec_emitted_by(
                buttons,
                dpad,
                remap@,
                disabled@,
                i as int,
                Button::DPadDown,
            ),
            out_dirs@[3] == spec_emitted_by(
                buttons,
                dpad,
                remap@,
                disabled@,
                i as int,
                Button::DPadLeft,
            ),
        decreases BUTTON_COUNT - i,
    {
        let btn = Button::at(i);
        let ghost before = out_buttons;
        let live = is_pressed(buttons, dpad, &dirs, &btn) && !disabled.contains(&btn);
        let target = remap.target(&btn);
        if live {
            encode_button(&target, &mut out_buttons, &mut out_dirs);
        }
        proof {
            let k = i as int;
            assert forall|t: Button| t.spec_bitmask() is Some implies ((out_buttons
                & #[trigger] t.spec_bitmask()->0 != 0) <==> spec_emitted_by(
                buttons,
                dpad,
                remap@,
                disabled@,
                k + 1,
                t,
            )) by {
                lemma_emitted_step(buttons, dpad, remap@, disabled@, k, t);
                if live && target.spec_bitmask() is Some {
                    lemma_encoded_bit(before, target, t);
                }
            }
            if live && target.spec_bitmask() is Some {
                lemma_encoded_bit(before, target, target);
            }
            lemma_emitted_step(buttons, dpad, remap@, disabled@, k, Button::DPadUp);
            lemma_emitted_step(buttons, dpad, remap@, disabled@, k, Button::DPadRight);
            lemma_emitted_step(buttons, dpad, remap@, disabled@, k, Button::DPadDown);
            lemma_emitted_step(buttons, dpad, remap@, disabled@, k, Button::DPadLeft);
        }
        i += 1;
    }
    (out_buttons, dirs_to_dpad(out_dirs))
}

/// Two button masks that agree on the bit of every button are the same mask.
proof fn lemma_button_bits_decide(a: u32, b: u32)
    by (bit_vector)
    requires
        a <= 0x7fffu32,
        b <= 0x7fffu32,
        (a & 0x0001u32 != 0) == (b & 0x0001u32 != 0),
        (a & 0x0002u32 != 0) == (b & 0x0002u32 != 0),
        (a & 0x0004u32 != 0) == (b & 0x0004u32 != 0),
        (a & 0x0008u32 != 0) == (b & 0x0008u32 != 0),
        (a & 0x0010u32 != 0) == (b & 0x0010u32 != 0),
        (a & 0x0020u32 != 0) == (b & 0x0020u32 != 0),
        (a & 0x0040u32 != 0) == (b & 0x0040u32 != 0),
        (a & 0x0080u32 != 0) == (b & 0x0080u32 != 0),
        (a & 0x0100u32 != 0) == (b & 0x0100u32 != 0),
        (a & 0x0200u32 != 0) == (b & 0x0200u32 != 0),
        (a & 0x0400u32 != 0) == (b & 0x0400u32 != 0),
        (a & 0x0800u32 != 0) == (b & 0x0800u32 != 0),
        (a & 0x1000u32 != 0) == (b & 0x1000u32 != 0),
        (a & 0x2000u32 != 0) == (b & 0x2000u32 != 0),
        (a & 0x4000u32 != 0) == (b & 0x4000u32 != 0),
    ensures
        a == b,
{
}

/// An input is held after remapping exactly when some input is held, is
/// not disabled and stands for it.
pub proof fn lemma_emitted_has_a_source(
    buttons: u32,
    dpad: u8,
    remap: Map<Button, Button>,
    disabled: Set<Button>,
    target: Button,
)
    ensures
        spec_emitted(buttons, dpad, remap, disabled, target) <==> exists|source: Button|
            #![trigger spec_pressed(buttons, dpad, source)]
            spec_pressed(buttons, dpad, source) && !disabled.contains(source) && spec_target(
                remap,
                source,
            ) == target,
{
    if spec_emitted(buttons, dpad, remap, disabled, target) {
        let k = choose|k: int|
            0 <= k < BUTTON_COUNT && #[trigger] spec_fires(
                buttons,
                dpad,
                remap,
                disabled,
                k,
                target,
            );
        assert(spec_pressed(buttons, dpad, Button::spec_at(k)));
    }
    if exists|source: Button|
        #![trigger spec_pressed(buttons, dpad, source)]
        spec_pressed(buttons, dpad, source) && !disabled.contains(source) && spec_target(
            remap,
            source,
        ) == target {
        let source = choose|source: Button|
            #![trigger spec_pressed(buttons, dpad, source)]
            spec_pressed(buttons, dpad, source) && !disabled.contains(source) && spec_target(
                remap,
                source,
            ) == target;
        assert(Button::spec_at(source.spec_index()) == source);
        assert(spec_fires(buttons, dpad, remap, disabled, source.spec_index(), target));
    }
}

/// Whether every input stands for itself under `remap`.
pub open spec fn spec_is_identity(remap: Map<Button, Button>) -> bool {
    forall|b: Button| #[trigger] remap.contains_key(b) ==> remap[b] == b
}

/// Under a remap that lets every input stand for itself, an input is held
/// after remapping exactly when it is held and not disabled.
pub proof fn lemma_identity_keeps_inputs(
    buttons: u32,
    dpad: u8,
    remap: Map<Button, Button>,
    disabled: Set<Button>,
    target: Button,
)
    requires
        spec_is_identity(remap),
    ensures
        spec_emitted(buttons, dpad, remap, disabled, target) <==> (spec_pressed(
            buttons,
            dpad,
            target,
        ) && !disabled.contains(target)),
{
    lemma_emitted_has_a_source(buttons, dpad, remap, disabled, target);
    if spec_emitted(buttons, dpad, remap, disabled, target) {
        let source = choose|source: Button|
            #![trigger spec_pressed(buttons, dpad, source)]
            spec_pressed(buttons, dpad, source) && !disabled.contains(source) && spec_target(
                remap,
                source,
            ) == target;
        assert(remap.contains_key(source) ==> remap[source] == source);
        assert(source == target);
    }
    if spec_pressed(buttons, dpad, target) && !disabled.contains(target) {
        assert(remap.contains_key(target) ==> remap[target] == target);
        assert(spec_target(remap, target) == target);
    }
}

/// Under a remap that lets every input stand for itself, the bit of a
/// button is the same after one remapping and after two.
proof fn lemma_identity_keeps_bit(
    buttons: u32,
    dpad: u8,
    remap: Map<Button, Button>,
    disabled: Set<Button>,
    once: (u32, u8),
    twice: (u32, u8),
    t: Button,
)
    requires
        spec_is_identity(remap),
        spec_is_remapped(buttons, dpad, remap, disabled, once),
        spec_is_remapped(once.0, once.1, remap, disabled, twice),
        t.spec_bitmask() is Some,
    ensures
        (once.0 & t.spec_bitmask()->0 != 0) == (twice.0 & t.spec_bitmask()->0 != 0),
{
    lemma_identity_keeps_inputs(buttons, dpad, remap, disabled, t);
    lemma_identity_keeps_inputs(once.0, once.1, remap, disabled, t);
    let m = t.spec_bitmask()->0;
    assert((once.0 & m != 0) <==> spec_emitted(buttons, dpad, remap, disabled, t));
    assert((twice.0 & m != 0) <==> spec_emitted(once.0, once.1, remap, disabled, t));
    assert(spec_pressed(once.0, once.1, t) == (once.0 & m != 0));
}

/// Remapping is idempotent when every input stands for itself: what has
/// been remapped once stays as it is when it is remapped again, whatever
/// is disabled.
pub proof fn lemma_identity_remap_is_idempotent(
    buttons: u32,
    dpad: u8,
    remap: Map<Button, Button>,
    disabled: Set<Button>,
    once: (u32, u8),
    twice: (u32, u8),
)
    requires
        spec_is_identity(remap),
        spec_is_remapped(buttons, dpad, remap, disabled, once),
        spec_is_remapped(once.0, once.1, remap, disabled, twice),
    ensures
        twice == once,
{
    let up = spec_emitted(buttons, dpad, remap, disabled, Button::DPadUp);
    let right = spec_emitted(buttons, dpad, remap, disabled, Button::DPadRight);
    let down = spec_emitted(buttons, dpad, remap, disabled, Button::DPadDown);
    let left = spec_emitted(buttons, dpad, remap, disabled, Button::DPadLeft);
    lemma_identity_keeps_inputs(buttons, dpad, remap, disabled, Button::DPadUp);
    lemma_identity_keeps_inputs(buttons, dpad, remap, disabled, Button::DPadRight);
    lemma_identity_keeps_inputs(buttons, dpad, remap, disabled, Button::DPadDown);
    lemma_identity_keeps_inputs(buttons, dpad, remap, disabled, Button::DPadLeft);
    lemma_identity_keeps_inputs(once.0, once.1, remap, disabled, Button::DPadUp);
    lemma_identity_keeps_inputs(once.0, once.1, remap, disabled, Button::DPadRight);
    lemma_identity_keeps_inputs(once.0, once.1, remap, disabled, Button::DPadDown);
    lemma_identity_keeps_inputs(once.0, once.1, remap, disabled, Button::DPadLeft);
    assert(once.1 == spec_dirs_to_dpad(up, right, down, left));
    assert(twice.1 == once.1);
    lemma_identity_keeps_bit(buttons, dpad, remap, disabled, once, twice, Button::Square);
    lemma_identity_keeps_bit(buttons, dpad, remap, disabled, once, twice, Button::Cross);
    lemma_identity_keeps_bit(buttons, dpad, remap, disabled, once, twice, Button::Circle);
    lemma_identity_keeps_bit(buttons, dpad, remap, disabled, once, twice, Button::Triangle);
    lemma_identity_keeps_bit(buttons, dpad, remap, disabled, once, twice, Button::L1);
    lemma_identity_keeps_bit(buttons, dpad, remap, disabled, once, twice, Button::R1);
    lemma_identity_keeps_bit(buttons, dpad, remap, disabled, once, twice, Button::L2);
    lemma_identity_keeps_bit(buttons, dpad, remap, disabled, once, twice, Button::R2);
    lemma_identity_keeps_bit(buttons, dpad, remap, disabled, once, twice, Button::Create);
    lemma_identity_keeps_bit(buttons, dpad, remap, disabled, once, twice, Button::Options);
    lemma_identity_keeps_bit(buttons, dpad, remap, disabled, once, twice, Button::L3);
    lemma_identity_keeps_bit(buttons, dpad, remap, disabled, once, twice, Button::R3);
    lemma_identity_keeps_bit(buttons, dpad, remap, disabled, once, twice, Button::PS);
    lemma_identity_keeps_bit(buttons, dpad, remap, disabled, once, twice, Button::Touchpad);
    lemma_identity_keeps_bit(buttons, dpad, remap, disabled, once, twice, Button::Mute);
    lemma_button_bits_decide(once.0, twice.0);
}

/// A disabled input is not held after remapping, unless another input
/// that is held and not disabled stands for it.
pub proof fn lemma_disabled_input_is_silent(
    buttons: u32,
    dpad: u8,
    remap: Map<Button, Button>,
    disabled: Set<Button>,
    input: Button,
    out: (u32, u8),
)
    requires
        spec_is_remapped(buttons, dpad, remap, disabled, out),
        disabled.contains(input),
        forall|other: Button|
            #![trigger spec_pressed(buttons, dpad, other)]
            other != input && spec_pressed(buttons, dpad, other) && !disabled.contains(other)
                ==> spec_target(remap, other) != input,
    ensures
        !spec_emitted(buttons, dpad, remap, disabled, input),
        !spec_pressed(out.0, out.1, input),
{
    lemma_emitted_has_a_source(buttons, dpad, remap, disabled, input);
    if spec_emitted(buttons, dpad, remap, disabled, input) {
        let source = choose|source: Button|
            #![trigger spec_pressed(buttons, dpad, source)]
            spec_pressed(buttons, dpad, source) && !disabled.contains(source) && spec_target(
                remap,
                source,
            ) == input;
        assert(source != input);
    }
    if input.spec_bitmask() is Some {
        assert((out.0 & input.spec_bitmask()->0 != 0) <==> spec_emitted(
            buttons,
            dpad,
            remap,
            disabled,
            input,
        ));
    }
}

/// The part of an input transform that works on whole numbers: the
/// bands of the two triggers, and which inputs are remapped or disabled.
/// The sticks are shaped by the caller.
#[derive(Clone, Copy, Debug, PartialEq, Eq)]
pub struct InputMapping {
    pub trigger_left: TriggerDeadband,
    pub trigger_right: TriggerDeadband,
    pub button_remap: ButtonRemap,
    pub disabled_buttons: ButtonSet,
}

impl Default for InputMapping {
    /// The mapping that changes nothing.
    fn default() -> (mapping: InputMapping)
        ensures
            mapping.trigger_left == TriggerDeadband::spec_default(),
            mapping.trigger_right == TriggerDeadband::spec_default(),
            mapping.button_remap@ == Map::<Button, Button>::empty(),
            mapping.disabled_buttons@ == Set::<Button>::empty(),
    {
        InputMapping {
            trigger_left: TriggerDeadband::default(),
            trigger_right: TriggerDeadband::default(),
            button_remap: ButtonRemap::new(),
            disabled_buttons: ButtonSet::new(),
        }
    }
}

impl InputMapping {
    /// Applies the mapping to a decoded state: the triggers go through
    /// their bands, then the buttons and the d-pad are remapped. Nothing
    /// else changes.
    pub fn apply(&self, s: &mut ControllerState)
        ensures
            final(s).l2 == spec_apply_trigger(old(s).l2, self.trigger_left),
            final(s).r2 == spec_apply_trigger(old(s).r2, self.trigger_right),
            spec_is_remapped(
                old(s).buttons,
                old(s).dpad,
                self.button_remap@,
                self.disabled_buttons@,
                (final(s).buttons, final(s).dpad),
            ),
            *final(s) == (ControllerState {
                l2: final(s).l2,
                r2: final(s).r2,
                buttons: final(s).buttons,
                dpad: final(s).dpad,
                ..*old(s)
            }),
    {
        s.l2 = apply_trigger(s.l2, &self.trigger_left);
        s.r2 = apply_trigger(s.r2, &self.trigger_right);
        let (buttons, dpad) = remap_buttons(
            s.buttons,
            s.dpad,
            &self.button_remap,
            &self.disabled_buttons,
        );
        s.buttons = buttons;
        s.dpad = dpad;
    }
}

} // verus!
