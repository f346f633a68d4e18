use vstd::prelude::*;

use crate::keys::{vk_code_spec, Key};
use crate::types::{mouse_slot, Modifiers, Mouse, MOUSE_BUTTON_COUNT};

verus! {

/// The number of slots in the key table, one per virtual-key code below it.
pub const KEY_COUNT: usize = 256;

/// The slot of a key in the key table, where its code has one.
pub open spec fn key_slot(key: Key) -> Option<int> {
    if vk_code_spec(key) < KEY_COUNT {
        Some(vk_code_spec(key) as int)
    } else {
        None
    }
}

/// A character that text input keeps: anything outside the Unicode control
/// characters (general category Cc, `U+0000..=U+001F` and `U+007F..=U+009F`).
pub open spec fn is_text_char(c: char) -> bool {
    let u = c as u32;
    !(u <= 0x1F || (0x7F <= u && u <= 0x9F))
}

/// Whether a character is a Unicode control character (general category Cc).
pub fn is_control_char(c: char) -> (r: bool)
    ensures
        r == !is_text_char(c),
{
    let u = c as u32;
    u <= 0x1F || (0x7F <= u && u <= 0x9F)
}

/// The abstract input state of one window during one frame.
///
/// Keys are tracked per slot of the key table and mouse buttons per slot of the
/// button table. `P` is the type of a pointer position; the state stores positions
/// but never looks inside them.
#[verifier::ext_equal]
pub struct InputView<P> {
    /// Which keys are held now.
    pub keys_down: Seq<bool>,
    /// Which keys were held when the frame began.
    pub keys_previous: Seq<bool>,
    /// Which keys received a key-down (a first press or a repeat) this frame.
    pub keys_pressed: Seq<bool>,
    /// Which buttons are held now.
    pub buttons_down: Seq<bool>,
    /// Which buttons were held when the frame began.
    pub buttons_previous: Seq<bool>,
    /// Where the pointer was when each button was last pressed.
    pub press_positions: Seq<Option<P>>,
    /// Where the pointer was when each button was released this frame.
    pub release_positions: Seq<Option<P>>,
    /// Whether the current press of each button began as a double click.
    pub press_was_double: Seq<bool>,
    /// Whether a double click of each button completed this frame.
    pub double_clicked: Seq<bool>,
    /// The keys that went from up to down this frame, in order.
    pub pressed_keys: Seq<Key>,
    /// The pointer position, while the pointer is over the window.
    pub mouse_pos: Option<P>,
    /// The modifiers reported with the latest event.
    pub modifiers: Modifiers,
    /// The text typed this frame.
    pub text_input: Seq<char>,
}

impl<P> InputView<P> {
    /// The tables have their sizes, and every key listed as pressed this frame is
    /// marked pressed in its slot.
    pub open spec fn wf(self) -> bool {
        &&& self.keys_down.len() == KEY_COUNT
        &&& self.keys_previous.len() == KEY_COUNT
        &&& self.keys_pressed.len() == KEY_COUNT
        &&& self.buttons_down.len() == MOUSE_BUTTON_COUNT
        &&& self.buttons_previous.len() == MOUSE_BUTTON_COUNT
        &&& self.press_positions.len() == MOUSE_BUTTON_COUNT
        &&& self.release_positions.len() == MOUSE_BUTTON_COUNT
        &&& self.press_was_double.len() == MOUSE_BUTTON_COUNT
        &&& self.double_clicked.len() == MOUSE_BUTTON_COUNT
        &&& forall|j: int|
            0 <= j < self.pressed_keys.len() ==> {
                &&& #[trigger] key_slot(self.pressed_keys[j]) is Some
                &&& self.keys_pressed[key_slot(self.pressed_keys[j])->0]
            }
    }

    /// The state of a window that has seen no input.
    pub open spec fn initial() -> Self {
        InputView {
            keys_down: Seq::new(KEY_COUNT as nat, |i: int| false),
            keys_previous: Seq::new(KEY_COUNT as nat, |i: int| false),
            keys_pressed: Seq::new(KEY_COUNT as nat, |i: int| false),
            buttons_down: Seq::new(MOUSE_BUTTON_COUNT as nat, |i: int| false),
            buttons_previous: Seq::new(MOUSE_BUTTON_COUNT as nat, |i: int| false),
            press_positions: Seq::new(MOUSE_BUTTON_COUNT as nat, |i: int| None),
            release_positions: Seq::new(MOUSE_BUTTON_COUNT as nat, |i: int| None),
            press_was_double: Seq::new(MOUSE_BUTTON_COUNT as nat, |i: int| false),
            double_clicked: Seq::new(MOUSE_BUTTON_COUNT as nat, |i: int| false),
            pressed_keys: Seq::empty(),
            mouse_pos: None,
            modifiers: Modifiers { shift: false, ctrl: false, alt: false, logo: false },
            text_input: Seq::empty(),
        }
    }

    pub open spec fn is_down(self, key: Key) -> bool {
        match key_slot(key) {
            Some(i) => self.keys_down[i],
            None => false,
        }
    }

    pub open spec fn pressed(self, key: Key) -> bool {
        match key_slot(key) {
            Some(i) => self.keys_pressed[i],
            None => false,
        }
    }

    pub open spec fn released(self, key: Key) -> bool {
        match key_slot(key) {
            Some(i) => !self.keys_down[i] && self.keys_previous[i],
            None => false,
        }
    }

    pub open spec fn mouse_down(self, button: Mouse) -> bool {
        self.buttons_down[mouse_slot(button)]
    }

    pub open spec fn mouse_pressed(self, button: Mouse) -> bool {
        self.buttons_down[mouse_slot(button)] && !self.buttons_previous[mouse_slot(button)]
    }

    pub open spec fn mouse_released(self, button: Mouse) -> bool {
        ||| self.release_positions[mouse_slot(button)] is Some
        ||| !self.buttons_down[mouse_slot(button)] && self.buttons_previous[mouse_slot(button)]
    }

    /// Where the button was pressed and where it was released, when both happened
    /// and the release was this frame.
    pub open spec fn click_positions(self, button: Mouse) -> Option<(P, P)> {
        match (
            self.press_positions[mouse_slot(button)],
            self.release_positions[mouse_slot(button)],
        ) {
            (Some(p), Some(q)) => Some((p, q)),
            _ => None,
        }
    }

    /// The click positions of a click that completed a double click this frame.
    pub open spec fn double_click_positions(self, button: Mouse) -> Option<(P, P)> {
        if self.double_clicked[mouse_slot(button)] {
            self.click_positions(button)
        } else {
            None
        }
    }

    /// A new frame begins: what was held is remembered as held before, and the
    /// per-frame records are cleared.
    pub open spec fn begin_frame(self) -> Self {
        InputView {
            keys_previous: self.keys_down,
            keys_pressed: Seq::new(KEY_COUNT as nat, |i: int| false),
            buttons_previous: self.buttons_down,
            release_positions: Seq::new(MOUSE_BUTTON_COUNT as nat, |i: int| None),
            double_clicked: Seq::new(MOUSE_BUTTON_COUNT as nat, |i: int| false),
            pressed_keys: Seq::empty(),
            text_input: Seq::empty(),
            ..self
        }
    }

    /// A key goes down; it is listed as pressed unless it was already held.
    pub open spec fn key_down(self, key: Key) -> Self {
        match key_slot(key) {
            Some(i) => InputView {
                pressed_keys: if self.keys_down[i] {
                    self.pressed_keys
                } else {
                    self.pressed_keys.push(key)
                },
                keys_pressed: self.keys_pressed.update(i, true),
                keys_down: self.keys_down.update(i, true),
                ..self
            },
            None => self,
        }
    }

    /// A key goes up.
    pub open spec fn key_up(self, key: Key) -> Self {
        match key_slot(key) {
            Some(i) => InputView { keys_down: self.keys_down.update(i, false), ..self },
            None => self,
        }
    }

    /// A button goes down with a single click; a fresh press records the pointer.
    pub open spec fn button_down(self, button: Mouse) -> Self {
        let i = mouse_slot(button);
        if !self.buttons_down[i] {
            InputView {
                press_positions: self.press_positions.update(i, self.mouse_pos),
                press_was_double: self.press_was_double.update(i, false),
                buttons_down: self.buttons_down.update(i, true),
                ..self
            }
        } else {
            InputView { buttons_down: self.buttons_down.update(i, true), ..self }
        }
    }

    /// A button goes down as the second click of a double click.
    pub open spec fn button_double_down(self, button: Mouse) -> Self {
        let i = mouse_slot(button);
        InputView {
            press_positions: if !self.buttons_down[i] {
                self.press_positions.update(i, self.mouse_pos)
            } else {
                self.press_positions
            },
            buttons_down: self.buttons_down.update(i, true),
            press_was_double: self.press_was_double.update(i, true),
            ..self
        }
    }

    /// A button goes up, recording the pointer and completing a pending double click.
    pub open spec fn button_up(self, button: Mouse) -> Self {
        let i = mouse_slot(button);
        InputView {
            double_clicked: if self.press_was_double[i] {
                self.double_clicked.update(i, true)
            } else {
                self.double_clicked
            },
            press_was_double: self.press_was_double.update(i, false),
            buttons_down: self.buttons_down.update(i, false),
            release_positions: self.release_positions.update(i, self.mouse_pos),
            ..self
        }
    }

    pub open spec fn move_to(self, pos: Option<P>) -> Self {
        InputView { mouse_pos: pos, ..self }
    }

    pub open spec fn with_modifiers(self, modifiers: Modifiers) -> Self {
        InputView { modifiers, ..self }
    }

    /// A typed character is kept unless it is a control character.
    pub open spec fn type_char(self, c: char) -> Self {
        if is_text_char(c) {
            InputView { text_input: self.text_input.push(c), ..self }
        } else {
            self
        }
    }
}

/// The keyboard and mouse state of a window, updated by the platform's events and
/// read by the application once per frame.
pub struct InputState<P> {
    current_keys: Vec<bool>,
    previous_keys: Vec<bool>,
    keys_pressed_this_frame: Vec<bool>,
    current_mouse: Vec<bool>,
    previous_mouse: Vec<bool>,
    mouse_press_positions: Vec<Option<P>>,
    mouse_release_positions: Vec<Option<P>>,
    mouse_press_was_double_click: Vec<bool>,
    mouse_double_clicked_this_frame: Vec<bool>,
    pressed_keys: Vec<Key>,
    mouse_pos: Option<P>,
    modifiers: Modifiers,
    text_input: Vec<char>,
}

impl<P> View for InputState<P> {
    type V = InputView<P>;

    closed spec fn view(&self) -> InputView<P> {
        InputView {
            keys_down: self.current_keys@,
            keys_previous: self.previous_keys@,
            keys_pressed: self.keys_pressed_this_frame@,
            buttons_down: self.current_mouse@,
            buttons_previous: self.previous_mouse@,
            press_positions: self.mouse_press_positions@,
            release_positions: self.mouse_release_positions@,
            press_was_double: self.mouse_press_was_double_click@,
            double_clicked: self.mouse_double_clicked_this_frame@,
            pressed_keys: self.pressed_keys@,
            mouse_pos: self.mouse_pos,
            modifiers: self.modifiers,
            text_input: self.text_input@,
        }
    }
}

fn bools(n: usize) -> (r: Vec<bool>)
    ensures
        r@ == Seq::new(n as nat, |i: int| false),
{
    let mut v: Vec<bool> = Vec::new();
    let mut k: usize = 0;
    while k < n
        invariant
            k <= n,
            v@ == Seq::new(k as nat, |i: int| false),
        decreases n - k,
    {
        v.push(false);
        k = k + 1;
    }
    v
}

fn nones<P>(n: usize) -> (r: Vec<Option<P>>)
    ensures
        r@ == Seq::new(n as nat, |i: int| None::<P>),
{
    let mut v: Vec<Option<P>> = Vec::new();
    let mut k: usize = 0;
    while k < n
        invariant
            k <= n,
            v@ == Seq::new(k as nat, |i: int| None::<P>),
        decreases n - k,
    {
        v.push(None);
        k = k + 1;
    }
    v
}

fn copy_bools(dst: &mut Vec<bool>, src: &Vec<bool>)
    requires
        old(dst)@.len() == src@.len(),
    ensures
        final(dst)@ == src@,
    no_unwind
{
    let n = src.len();
    let mut k: usize = 0;
    while k < n
        invariant
            k <= n,
            n == src@.len(),
            dst@.len() == n,
            forall|i: int| 0 <= i < k ==> dst@[i] == src@[i],
        decreases n - k,
    {
        dst[k] = src[k];
        k = k + 1;
    }
}

/// Writes `x` into slot `i` of `v`.
fn set_at<T>(v: &mut Vec<T>, i: usize, x: T)
    requires
        i < old(v)@.len(),
    ensures
        final(v)@ == old(v)@.update(i as int, x),
    no_unwind
{
    v[i] = x;
}

fn mouse_index(button: Mouse) -> (r: usize)
    ensures
        r == mouse_slot(button),
{
    match button {
        Mouse::Left => 0,
        Mouse::Right => 1,
        Mouse::Middle => 2,
        Mouse::Back => 3,
        Mouse::Forward => 4,
    }
}

fn key_index(key: Key) -> (r: Option<usize>)
    ensures
        match key_slot(key) {
            Some(i) => r == Some(i as usize),
            None => r is None,
        },
{
    let index = key.vk_code();
    if index < KEY_COUNT {
        Some(index)
    } else {
        None
    }
}

impl<P> InputState<P> {
    /// Every value of the type is well formed: its tables have their sizes and
    /// every key listed as pressed is marked pressed.
    #[verifier::type_invariant]
    spec fn wf(&self) -> bool {
        self@.wf()
    }
}

impl<P: Copy> InputState<P> {
    /// The state of a window that has seen no input.
    pub fn new() -> (r: Self)
        ensures
            r@ == InputView::<P>::initial(),
            r@.wf(),
    {
        let r = InputState {
            current_keys: bools(KEY_COUNT),
            previous_keys: bools(KEY_COUNT),
            keys_pressed_this_frame: bools(KEY_COUNT),
            current_mouse: bools(MOUSE_BUTTON_COUNT),
            previous_mouse: bools(MOUSE_BUTTON_COUNT),
            mouse_press_positions: nones(MOUSE_BUTTON_COUNT),
            mouse_release_positions: nones(MOUSE_BUTTON_COUNT),
            mouse_press_was_double_click: bools(MOUSE_BUTTON_COUNT),
            mouse_double_clicked_this_frame: bools(MOUSE_BUTTON_COUNT),
            pressed_keys: Vec::new(),
            mouse_pos: None,
            modifiers: Modifiers::default(),
            text_input: Vec::new(),
        };
        assert(r@ =~= InputView::<P>::initial());
        r
    }

    /// Starts a new frame: keys and buttons held now count as held before, and the
    /// per-frame records (presses, releases, double clicks, typed text) are cleared.
    pub fn begin_frame(&mut self)
        ensures
            final(self)@ == old(self)@.begin_frame(),
    {
        proof {
            use_type_invariant(&*self);
        }
        copy_bools(&mut self.previous_keys, &self.current_keys);
        self.pressed_keys = Vec::new();
        self.keys_pressed_this_frame = bools(KEY_COUNT);
        copy_bools(&mut self.previous_mouse, &self.current_mouse);
        self.mouse_release_positions = nones(MOUSE_BUTTON_COUNT);
        self.mouse_double_clicked_this_frame = bools(MOUSE_BUTTON_COUNT);
        self.text_input = Vec::new();
        assert(self@ =~= old(self)@.begin_frame());
    }

    pub fn is_down(&self, key: Key) -> (r: bool)
        ensures
            r == self@.is_down(key),
    {
        proof {
            use_type_invariant(&*self);
        }
        match key_index(key) {
            Some(index) => self.current_keys[index],
            None => false,
        }
    }

    pub fn is_up(&self, key: Key) -> (r: bool)
        ensures
            r == !self@.is_down(key),
    {
        proof {
            use_type_invariant(&*self);
        }
        !self.is_down(key)
    }

    /// The key received a key-down this frame, a first press or a repeat.
    pub fn pressed(&self, key: Key) -> (r: bool)
        ensures
            r == self@.pressed(key),
    {
        proof {
            use_type_invariant(&*self);
        }
        match key_index(key) {
            Some(index) => self.keys_pressed_this_frame[index],
            None => false,
        }
    }

    /// The key was held when the frame began and is up now.
    pub fn released(&self, key: Key) -> (r: bool)
        ensures
            r == self@.released(key),
    {
        proof {
            use_type_invariant(&*self);
        }
        match key_index(key) {
            Some(index) => !self.current_keys[index] && self.previous_keys[index],
            None => false,
        }
    }

    /// The keys that went from up to down this frame, in order.
    pub fn pressed_keys(&self) -> (r: &[Key])
        ensures
            r@ == self@.pressed_keys,
    {
        proof {
            use_type_invariant(&*self);
        }
        self.pressed_keys.as_slice()
    }

    pub fn mouse_down(&self, button: Mouse) -> (r: bool)
        ensures
            r == self@.mouse_down(button),
    {
        proof {
            use_type_invariant(&*self);
        }
        self.current_mouse[mouse_index(button)]
    }

    /// The button is held now and was not when the frame began.
    pub fn mouse_pressed(&self, button: Mouse) -> (r: bool)
        ensures
            r == self@.mouse_pressed(button),
    {
        proof {
            use_type_invariant(&*self);
        }
        let index = mouse_index(button);
        self.current_mouse[index] && !self.previous_mouse[index]
    }

    /// The button was released this frame, or was held when the frame began and is
    /// up now.
    pub fn mouse_released(&self, button: Mouse) -> (r: bool)
        ensures
            r == self@.mouse_released(button),
    {
        proof {
            use_type_invariant(&*self);
        }
        let index = mouse_index(button);
        self.mouse_release_positions[index].is_some() || (!self.current_mouse[index]
            && self.previous_mouse[index])
    }

    /// Where the button was pressed and released, when it was released this frame
    /// after a recorded press.
    pub fn mouse_click_positions(&self, button: Mouse) -> (r: Option<(P, P)>)
        ensures
            r == self@.click_positions(button),
    {
        proof {
            use_type_invariant(&*self);
        }
        let index = mouse_index(button);
        match (self.mouse_press_positions[index], self.mouse_release_positions[index]) {
            (Some(p), Some(q)) => Some((p, q)),
            _ => None,
        }
    }

    /// The click positions of a click that completed a double click this frame.
    pub fn mouse_double_click_positions(&self, button: Mouse) -> (r: Option<(P, P)>)
        ensures
            r == self@.double_click_positions(button),
    {
        proof {
            use_type_invariant(&*self);
        }
        let index = mouse_index(button);
        if self.mouse_double_clicked_this_frame[index] {
            self.mouse_click_positions(button)
        } else {
            None
        }
    }

    pub fn mouse_pos(&self) -> (r: Option<P>)
        ensures
            r == self@.mouse_pos,
    {
        proof {
            use_type_invariant(&*self);
        }
        self.mouse_pos
    }

    /// The text typed this frame.
    pub fn text_input(&self) -> (r: &[char])
        ensures
            r@ == self@.text_input,
    {
        proof {
            use_type_invariant(&*self);
        }
        self.text_input.as_slice()
    }

    pub fn modifiers(&self) -> (r: Modifiers)
        ensures
            r == self@.modifiers,
    {
        proof {
            use_type_invariant(&*self);
        }
        self.modifiers
    }

    /// Records a key-down for `key`.
    pub fn set_key_down(&mut self, key: Key)
        ensures
            final(self)@ == old(self)@.key_down(key),
    {
        proof {
            use_type_invariant(&*self);
        }
        let index = match key_index(key) {
            Some(index) => index,
            None => {
                return;
            },
        };
        let was_down = self.current_keys[index];
        set_at(&mut self.keys_pressed_this_frame, index, true);
        set_at(&mut self.current_keys, index, true);
        if !was_down {
            let mut pressed_keys = Vec::new();
            std::mem::swap(&mut pressed_keys, &mut self.pressed_keys);
            pressed_keys.push(key);
            self.pressed_keys = pressed_keys;
        }
        assert(self@ =~= old(self)@.key_down(key));
    }

    /// Records a key-up for `key`.
    pub fn set_key_up(&mut self, key: Key)
        ensures
            final(self)@ == old(self)@.key_up(key),
    {
        proof {
            use_type_invariant(&*self);
        }
        if let Some(index) = key_index(key) {
            set_at(&mut self.current_keys, index, false);
        }
        assert(self@ =~= old(self)@.key_up(key));
    }

    /// Records a single-click press of `button` at the current pointer position.
    pub fn set_mouse_down(&mut self, button: Mouse)
        ensures
            final(self)@ == old(self)@.button_down(button),
    {
        proof {
            use_type_invariant(&*self);
        }
        let index = mouse_index(button);
        if !self.current_mouse[index] {
            set_at(&mut self.mouse_press_positions, index, self.mouse_pos);
            set_at(&mut self.mouse_press_was_double_click, index, false);
        }
        set_at(&mut self.current_mouse, index, true);
        assert(self@ =~= old(self)@.button_down(button));
    }

    /// Records the press of `button` that makes a double click.
    pub fn set_mouse_double_down(&mut self, button: Mouse)
        ensures
            final(self)@ == old(self)@.button_double_down(button),
    {
        proof {
            use_type_invariant(&*self);
        }
        let index = mouse_index(button);
        if !self.current_mouse[index] {
            set_at(&mut self.mouse_press_positions, index, self.mouse_pos);
        }
        set_at(&mut self.current_mouse, index, true);
        set_at(&mut self.mouse_press_was_double_click, index, true);
        assert(self@ =~= old(self)@.button_double_down(button));
    }

    /// Records the release of `button` at the current pointer position.
    pub fn set_mouse_up(&mut self, button: Mouse)
        ensures
            final(self)@ == old(self)@.button_up(button),
    {
        proof {
            use_type_invariant(&*self);
        }
        let index = mouse_index(button);
        if self.mouse_press_was_double_click[index] {
            set_at(&mut self.mouse_double_clicked_this_frame, index, true);
        }
        set_at(&mut self.mouse_press_was_double_click, index, false);
        set_at(&mut self.current_mouse, index, false);
        set_at(&mut self.mouse_release_positions, index, self.mouse_pos);
        assert(self@ =~= old(self)@.button_up(button));
    }

    /// Records where the pointer is, or that it left the window.
    pub fn set_mouse_pos(&mut self, pos: Option<P>)
        ensures
            final(self)@ == old(self)@.move_to(pos),
    {
        proof {
            use_type_invariant(&*self);
        }
        self.mouse_pos = pos;
        assert(self@ =~= old(self)@.move_to(pos));
    }

    /// Records the modifiers reported with an event.
    pub fn set_modifiers(&mut self, modifiers: Modifiers)
        ensures
            final(self)@ == old(self)@.with_modifiers(modifiers),
    {
        proof {
            use_type_invariant(&*self);
        }
        self.modifiers = modifiers;
        assert(self@ =~= old(self)@.with_modifiers(modifiers));
    }

    /// Records a typed character; control characters are dropped.
    pub fn push_text(&mut self, c: char)
        ensures
            final(self)@ == old(self)@.type_char(c),
    {
        proof {
            use_type_invariant(&*self);
        }
        if !is_control_char(c) {
            let mut text = Vec::new();
            std::mem::swap(&mut text, &mut self.text_input);
            text.push(c);
            self.text_input = text;
        }
        assert(self@ =~= old(self)@.type_char(c));
    }
}

/// Every transition of the input state keeps it well formed.
pub proof fn lemma_transitions_keep_wf<P>(
    v: InputView<P>,
    key: Key,
    button: Mouse,
    pos: Option<P>,
    modifiers: Modifiers,
    c: char,
)
    requires
        v.wf(),
    ensures
        v.begin_frame().wf(),
        v.key_down(key).wf(),
        v.key_up(key).wf(),
        v.button_down(button).wf(),
        v.button_double_down(button).wf(),
        v.button_up(button).wf(),
        v.move_to(pos).wf(),
        v.with_modifiers(modifiers).wf(),
        v.type_char(c).wf(),
{
}

/// Every key listed as pressed this frame reports `pressed`.
pub proof fn lemma_pressed_keys_are_pressed<P>(v: InputView<P>, j: int)
    requires
        v.wf(),
        0 <= j < v.pressed_keys.len(),
    ensures
        v.pressed(v.pressed_keys[j]),
{
}

/// When a frame begins nothing has been pressed, released or typed in it yet.
pub proof fn lemma_begin_frame_clears<P>(v: InputView<P>, key: Key, button: Mouse)
    requires
        v.wf(),
    ensures
        !v.begin_frame().pressed(key),
        !v.begin_frame().released(key),
        v.begin_frame().is_down(key) == v.is_down(key),
        !v.begin_frame().mouse_pressed(button),
        !v.begin_frame().mouse_released(button),
        v.begin_frame().mouse_down(button) == v.mouse_down(button),
        v.begin_frame().pressed_keys.len() == 0,
        v.begin_frame().text_input.len() == 0,
{
}

/// A key pressed in one frame is held but neither pressed nor released in the
/// next; released in the frame after that it reports `released`.
pub proof fn lemma_key_press_hold_release<P>(v: InputView<P>, key: Key)
    requires
        v.wf(),
        key_slot(key) is Some,
    ensures
        v.key_down(key).is_down(key),
        v.key_down(key).pressed(key),
        v.key_down(key).begin_frame().is_down(key),
        !v.key_down(key).begin_frame().pressed(key),
        !v.key_down(key).begin_frame().released(key),
        v.key_down(key).begin_frame().key_up(key).released(key),
        !v.key_down(key).begin_frame().key_up(key).is_down(key),
{
}

/// A key that goes down while up is appended to the pressed keys; a repeat while
/// held appends nothing.
pub proof fn lemma_pressed_keys_on_key_down<P>(v: InputView<P>, key: Key)
    requires
        v.wf(),
        key_slot(key) is Some,
    ensures
        !v.is_down(key) ==> v.key_down(key).pressed_keys == v.pressed_keys.push(key),
        v.is_down(key) ==> v.key_down(key).pressed_keys == v.pressed_keys,
{
}

/// A button pressed with the pointer at `p` and released with it at `q` reports
/// a click from `p` to `q`, and a release.
pub proof fn lemma_click_positions<P>(v: InputView<P>, button: Mouse, p: P, q: P)
    requires
        v.wf(),
        !v.mouse_down(button),
    ensures
        v.move_to(Some(p)).button_down(button).move_to(Some(q)).button_up(
            button,
        ).click_positions(button) == Some((p, q)),
        v.move_to(Some(p)).button_down(button).move_to(Some(q)).button_up(
            button,
        ).mouse_released(button),
        !v.move_to(Some(p)).button_down(button).move_to(Some(q)).button_up(
            button,
        ).mouse_down(button),
{
}

/// A press that the system reports as a double click, followed by its release,
/// reports a double click from the press position to the release position.
pub proof fn lemma_double_click_positions<P>(v: InputView<P>, button: Mouse, p: P, q: P)
    requires
        v.wf(),
        !v.mouse_down(button),
    ensures
        v.move_to(Some(p)).button_double_down(button).move_to(Some(q)).button_up(
            button,
        ).double_click_positions(button) == Some((p, q)),
{
}

/// A single-click press clears a pending double click: its release completes no
/// double click of its own.
pub proof fn lemma_single_press_is_not_double<P>(v: InputView<P>, button: Mouse)
    requires
        v.wf(),
        !v.mouse_down(button),
    ensures
        v.button_down(button).button_up(button).double_clicked[mouse_slot(button)]
            == v.double_clicked[mouse_slot(button)],
{
}

/// Holding a button down (a repeated press report) keeps the position of the
/// press that began the hold.
pub proof fn lemma_held_button_keeps_press_position<P>(v: InputView<P>, button: Mouse)
    requires
        v.wf(),
        v.mouse_down(button),
    ensures
        v.button_down(button).press_positions == v.press_positions,
        v.button_double_down(button).press_positions == v.press_positions,
{
}

/// What happens to a held button before it is released: a drag report with the
/// pointer at a position, or the start of a new frame.
pub enum HoldStep<P> {
    Drag(Option<P>),
    NewFrame,
}

/// The input state after a run of hold steps for `button`.
pub open spec fn hold_run<P>(v: InputView<P>, button: Mouse, steps: Seq<HoldStep<P>>) -> InputView<P>
    decreases steps.len(),
{
    if steps.len() == 0 {
        v
    } else {
        let w = hold_run(v, button, steps.drop_last());
        match steps.last() {
            HoldStep::Drag(pos) => w.move_to(pos).button_down(button),
            HoldStep::NewFrame => w.begin_frame(),
        }
    }
}

/// Holding a button through drags and frame boundaries keeps it down and keeps
/// the position of the press; once a frame has begun during the hold, no click
/// is reported until the release.
proof fn lemma_hold_run<P>(v: InputView<P>, button: Mouse, p: P, steps: Seq<HoldStep<P>>)
    requires
        v.wf(),
        v.mouse_down(button),
        v.press_positions[mouse_slot(button)] == Some(p),
    ensures
        hold_run(v, button, steps).wf(),
        hold_run(v, button, steps).mouse_down(button),
        hold_run(v, button, steps).press_positions[mouse_slot(button)] == Some(p),
        steps.contains(HoldStep::NewFrame) ==> hold_run(v, button, steps).release_positions[mouse_slot(
            button,
        )] is None,
    decreases steps.len(),
{
    if steps.len() > 0 {
        let prefix = steps.drop_last();
        lemma_hold_run(v, button, p, prefix);
        if steps.contains(HoldStep::NewFrame) && !(steps.last() is NewFrame) {
            let i = choose|i: int| 0 <= i < steps.len() && steps[i] == HoldStep::<P>::NewFrame;
            assert(i != steps.len() - 1);
            assert(prefix[i] == HoldStep::<P>::NewFrame);
        }
    }
}

/// A click spans the whole hold: a button pressed (singly or as a double click)
/// with the pointer at `p`, then dragged any number of times across any number
/// of frames, and released with the pointer at `q`, reports a click from `p` to
/// `q`, however far the drags went. Until the release, no click is reported in
/// any frame after the one of the press.
pub proof fn lemma_click_spans_the_hold<P>(
    v: InputView<P>,
    button: Mouse,
    double: bool,
    p: P,
    q: P,
    steps: Seq<HoldStep<P>>,
)
    requires
        v.wf(),
        !v.mouse_down(button),
    ensures
        ({
            let pressed = if double {
                v.move_to(Some(p)).button_double_down(button)
            } else {
                v.move_to(Some(p)).button_down(button)
            };
            let held = hold_run(pressed, button, steps);
            &&& held.mouse_down(button)
            &&& steps.contains(HoldStep::NewFrame) ==> held.click_positions(button) is None
            &&& held.move_to(Some(q)).button_up(button).click_positions(button) == Some((p, q))
            &&& held.move_to(Some(q)).button_up(button).mouse_released(button)
        }),
{
    let pressed = if double {
        v.move_to(Some(p)).button_double_down(button)
    } else {
        v.move_to(Some(p)).button_down(button)
    };
    lemma_hold_run(pressed, button, p, steps);
}

} // verus!
