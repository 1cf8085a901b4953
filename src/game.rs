use vstd::prelude::*;

verus! {

/// Length of one fixed simulation step, in milliseconds (about 60 updates a second).
pub const STEP_RATE_IN_MILLISECONDS: u64 = 16;

/// Side of one block of the game grid, in pixels.
pub const BLOCK_SIZE_IN_PIXELS: i32 = 24;

/// Width of the game grid, in blocks.
pub const GAME_WIDTH: i32 = 24;

/// Height of the game grid, in blocks.
pub const GAME_HEIGHT: i32 = 18;

/// Width of the game's window, in pixels.
pub const WINDOW_WIDTH: i32 = BLOCK_SIZE_IN_PIXELS * GAME_WIDTH;

/// Height of the game's window, in pixels.
pub const WINDOW_HEIGHT: i32 = BLOCK_SIZE_IN_PIXELS * GAME_HEIGHT;

/// A keyboard scan code: the platform's number for a physical key.
///
/// The numbering is SDL's, which follows the USB HID keyboard usage page.
#[derive(Clone, Copy, Debug, PartialEq, Eq, Structural)]
pub struct Scancode(pub i32);

/// Scan code of the right arrow key.
pub const SCANCODE_RIGHT: i32 = 79;

/// Scan code of the left arrow key.
pub const SCANCODE_LEFT: i32 = 80;

/// Scan code of the down arrow key.
pub const SCANCODE_DOWN: i32 = 81;

/// An input event, as far as the game reads it.
#[derive(Clone, Copy, Debug, PartialEq, Eq, Structural)]
pub enum InputEvent {
    /// The user asked to quit.
    Quit,
    /// A key went down (or repeated while held).
    KeyDown(Scancode),
    /// A key went up.
    KeyUp(Scancode),
    /// Anything else.
    Other,
}

/// What the application loop is to do after an event or a frame.
#[derive(Clone, Copy, Debug, PartialEq, Eq, Structural)]
pub enum AppControl {
    /// Keep running.
    Continue,
    /// Stop, having done what was asked.
    Success,
    /// Stop on an error.
    Failure,
}

/// The abstract state of a game: which keys are held, which were pressed since
/// the last fixed update, the timing bookkeeping and the render toggles.
pub ghost struct GameModel {
    pub held: Set<Scancode>,
    pub just_pressed: Set<Scancode>,
    pub accumulated: nat,
    pub last_tick: nat,
    pub updates: nat,
    pub wire_frame: bool,
    pub small_viewport: bool,
    pub scissor_rect: bool,
}

impl GameModel {
    /// Time is consumed in whole steps, so that the updates applied so far
    /// account for all of the elapsed time but a remainder shorter than a
    /// step; and a key counts as just pressed only while it is held.
    pub open spec fn wf(self) -> bool {
        &&& self.accumulated < STEP_RATE_IN_MILLISECONDS
        &&& STEP_RATE_IN_MILLISECONDS * self.updates + self.accumulated == self.last_tick
        &&& self.just_pressed.subset_of(self.held)
    }
}

/// The state of a fresh game: nothing held, no time elapsed, all toggles off.
pub open spec fn initial_model() -> GameModel {
    GameModel {
        held: Set::empty(),
        just_pressed: Set::empty(),
        accumulated: 0,
        last_tick: 0,
        updates: 0,
        wire_frame: false,
        small_viewport: false,
        scissor_rect: false,
    }
}

/// The effect of a key going down: it becomes held, and it counts as just
/// pressed unless it was already held (a repeated press is no new press).
pub open spec fn pressed(m: GameModel, k: Scancode) -> GameModel {
    if m.held.contains(k) {
        m
    } else {
        GameModel { held: m.held.insert(k), just_pressed: m.just_pressed.insert(k), ..m }
    }
}

/// The effect of a key going up: it is neither held nor just pressed.
pub open spec fn released(m: GameModel, k: Scancode) -> GameModel {
    GameModel { held: m.held.remove(k), just_pressed: m.just_pressed.remove(k), ..m }
}

/// Time that `ticks` adds to the model: the distance from the last tick
/// seen, or none for a tick earlier than that one.
pub open spec fn elapsed(m: GameModel, ticks: nat) -> nat {
    if ticks >= m.last_tick {
        (ticks - m.last_tick) as nat
    } else {
        0
    }
}

/// One fixed update: each arrow key that was just pressed flips its toggle
/// (left the wire frame mode, down the small viewport, right the scissor
/// rectangle).
pub open spec fn toggled(m: GameModel) -> GameModel {
    GameModel {
        wire_frame: m.wire_frame != m.just_pressed.contains(Scancode(SCANCODE_LEFT)),
        small_viewport: m.small_viewport != m.just_pressed.contains(Scancode(SCANCODE_DOWN)),
        scissor_rect: m.scissor_rect != m.just_pressed.contains(Scancode(SCANCODE_RIGHT)),
        ..m
    }
}

/// The effect of `step(ticks)`: the elapsed time joins the remainder, every
/// whole step in it is one fixed update, and what is left is kept. The first
/// of those updates applies the just-pressed keys, which then count as just
/// pressed no more; the later ones find none.
pub open spec fn stepped(m: GameModel, ticks: nat) -> GameModel {
    let total = m.accumulated + elapsed(m, ticks);
    let n = total / (STEP_RATE_IN_MILLISECONDS as nat);
    let timed = GameModel {
        accumulated: total % (STEP_RATE_IN_MILLISECONDS as nat),
        last_tick: if ticks >= m.last_tick { ticks } else { m.last_tick },
        updates: m.updates + n,
        ..m
    };
    if n == 0 {
        timed
    } else {
        GameModel { just_pressed: Set::empty(), ..toggled(timed) }
    }
}

/// A key is in a sequence after a push exactly when it was in it before or
/// is the pushed key.
proof fn lemma_push_contains(s: Seq<Scancode>, x: Scancode, y: Scancode)
    ensures
        s.push(x).contains(y) <==> (s.contains(y) || y == x),
{
    if s.contains(y) {
        let j = choose|j: int| 0 <= j < s.len() && s[j] == y;
        assert(s.push(x)[j] == y);
    }
    if y == x {
        assert(s.push(x)[s.len() as int] == y);
    }
    if s.push(x).contains(y) {
        let j = choose|j: int| 0 <= j < s.push(x).len() && s.push(x)[j] == y;
        if j < s.len() {
            assert(s[j] == y);
        }
    }
}

/// Whether `keys` holds `k`.
fn has_key(keys: &Vec<Scancode>, k: Scancode) -> (r: bool)
    ensures
        r == keys@.contains(k),
{
    let mut i: usize = 0;
    while i < keys.len()
        invariant
            0 <= i <= keys@.len(),
            forall|j: int| 0 <= j < i ==> keys@[j] != k,
        decreases keys@.len() - i,
    {
        if keys[i] == k {
            return true;
        }
        i = i + 1;
    }
    false
}

/// The keys of `keys` other than `k`, in their order.
fn without_key(keys: &Vec<Scancode>, k: Scancode) -> (r: Vec<Scancode>)
    ensures
        r@.to_set() == keys@.to_set().remove(k),
{
    let mut r: Vec<Scancode> = Vec::new();
    let mut i: usize = 0;
    while i < keys.len()
        invariant
            0 <= i <= keys@.len(),
            forall|x: Scancode| r@.contains(x) <==> (keys@.subrange(0, i as int).contains(x) && x != k),
        decreases keys@.len() - i,
    {
        let x = keys[i];
        let ghost before = r@;
        proof {
            assert(keys@.subrange(0, i + 1) == keys@.subrange(0, i as int).push(x));
            assert forall|y: Scancode| #[trigger] keys@.subrange(0, i + 1).contains(y)
                <==> (keys@.subrange(0, i as int).contains(y) || y == x) by {
                lemma_push_contains(keys@.subrange(0, i as int), x, y);
            }
        }
        if x != k {
            r.push(x);
            proof {
                assert forall|y: Scancode| #[trigger] r@.contains(y) <==> (before.contains(y) || y == x) by {
                    lemma_push_contains(before, x, y);
                }
            }
        }
        i = i + 1;
    }
    proof {
        assert(keys@.subrange(0, keys@.len() as int) == keys@);
        assert(r@.to_set() =~= keys@.to_set().remove(k));
    }
    r
}

/// The state of the game loop: time bookkeeping for fixed updates, the keys
/// that are held, and the render toggles that the arrow keys flip.
pub struct GameState {
    accumulated_ticks: u64,
    last_step: u64,
    fixed_steps: u64,
    keys_down: Vec<Scancode>,
    keys_just_pressed: Vec<Scancode>,
    pub use_wire_frame_mode: bool,
    pub use_small_viewport: bool,
    pub use_scissor_rect: bool,
}

impl View for GameState {
    type V = GameModel;

    closed spec fn view(&self) -> GameModel {
        GameModel {
            held: self.keys_down@.to_set(),
            just_pressed: self.keys_just_pressed@.to_set(),
            accumulated: self.accumulated_ticks as nat,
            last_tick: self.last_step as nat,
            updates: self.fixed_steps as nat,
            wire_frame: self.use_wire_frame_mode,
            small_viewport: self.use_small_viewport,
            scissor_rect: self.use_scissor_rect,
        }
    }
}

impl GameState {
    /// A fresh game: no key held, no time elapsed, every toggle off.
    pub fn new() -> (r: Self)
        ensures
            r@ == initial_model(),
            r@.wf(),
    {
        let r = GameState {
            accumulated_ticks: 0,
            last_step: 0,
            fixed_steps: 0,
            keys_down: Vec::new(),
            keys_just_pressed: Vec::new(),
            use_wire_frame_mode: false,
            use_small_viewport: false,
            use_scissor_rect: false,
        };
        assert(r@.held =~= Set::empty());
        assert(r@.just_pressed =~= Set::empty());
        r
    }

    /// Records that `scan_code` went down. Pressing a key that is already
    /// held changes nothing.
    pub fn key_pressed(&mut self, scan_code: Scancode)
        requires
            old(self)@.wf(),
        ensures
            final(self)@ == pressed(old(self)@, scan_code),
            final(self)@.wf(),
    {
        if !has_key(&self.keys_down, scan_code) {
            let ghost down = self.keys_down@;
            let ghost just = self.keys_just_pressed@;
            self.keys_down.push(scan_code);
            self.keys_just_pressed.push(scan_code);
            proof {
                assert forall|y: Scancode| #[trigger] self.keys_down@.contains(y) <==> (down.contains(y) || y == scan_code) by {
                    lemma_push_contains(down, scan_code, y);
                }
                assert forall|y: Scancode| #[trigger] self.keys_just_pressed@.contains(y) <==> (just.contains(y) || y == scan_code) by {
                    lemma_push_contains(just, scan_code, y);
                }
            }
            assert(self@.held =~= old(self)@.held.insert(scan_code));
            assert(self@.just_pressed =~= old(self)@.just_pressed.insert(scan_code));
        }
    }

    /// Records that `scan_code` went up. Releasing a key that is not held
    /// changes nothing.
    pub fn key_released(&mut self, scan_code: Scancode)
        requires
            old(self)@.wf(),
        ensures
            final(self)@ == released(old(self)@, scan_code),
            final(self)@.wf(),
    {
        self.keys_down = without_key(&self.keys_down, scan_code);
        self.keys_just_pressed = without_key(&self.keys_just_pressed, scan_code);
    }

    /// Applies an input event: a key going down or up is recorded, a request
    /// to quit ends the loop, and anything else is ignored.
    pub fn handle_event(&mut self, event: InputEvent) -> (r: AppControl)
        requires
            old(self)@.wf(),
        ensures
            final(self)@.wf(),
            match event {
                InputEvent::Quit => r == AppControl::Success && final(self)@ == old(self)@,
                InputEvent::KeyDown(k) => r == AppControl::Continue && final(self)@ == pressed(
                    old(self)@,
                    k,
                ),
                InputEvent::KeyUp(k) => r == AppControl::Continue && final(self)@ == released(
                    old(self)@,
                    k,
                ),
                InputEvent::Other => r == AppControl::Continue && final(self)@ == old(self)@,
            },
    {
        match event {
            InputEvent::Quit => AppControl::Success,
            InputEvent::KeyDown(k) => {
                self.key_pressed(k);
                AppControl::Continue
            },
            InputEvent::KeyUp(k) => {
                self.key_released(k);
                AppControl::Continue
            },
            InputEvent::Other => AppControl::Continue,
        }
    }

    /// Whether `scan_code` is held.
    pub fn is_key_down(&self, scan_code: Scancode) -> (r: bool)
        ensures
            r == self@.held.contains(scan_code),
    {
        has_key(&self.keys_down, scan_code)
    }

    /// Whether `scan_code` went down since the last fixed update.
    pub fn is_key_just_pressed(&self, scan_code: Scancode) -> (r: bool)
        ensures
            r == self@.just_pressed.contains(scan_code),
    {
        has_key(&self.keys_just_pressed, scan_code)
    }

    /// The number of fixed updates applied so far.
    pub fn fixed_steps(&self) -> (r: u64)
        ensures
            r == self@.updates,
    {
        self.fixed_steps
    }

    /// Time built up towards the next fixed update.
    pub fn accumulated_ticks(&self) -> (r: u64)
        ensures
            r == self@.accumulated,
    {
        self.accumulated_ticks
    }

    /// The last tick that `step` was given (the largest, if they ever went
    /// back).
    pub fn last_step(&self) -> (r: u64)
        ensures
            r == self@.last_tick,
    {
        self.last_step
    }

    /// Advances the clock to `ticks` and applies one fixed update for each
    /// whole step of time that has built up. A tick earlier than the last one
    /// seen adds no time and leaves the clock where it was.
    pub fn step(&mut self, ticks: u64)
        requires
            old(self)@.wf(),
        ensures
            final(self)@ == stepped(old(self)@, ticks as nat),
            final(self)@.wf(),
    {
        let ghost m0 = self@;
        let ghost down0 = self.keys_down@;
        let ghost just0 = self.keys_just_pressed@;
        let new_ticks: u64 = if ticks >= self.last_step {
            ticks - self.last_step
        } else {
            0
        };
        self.accumulated_ticks = self.accumulated_ticks + new_ticks;
        if ticks > self.last_step {
            self.last_step = ticks;
        }
        let ghost total: nat = m0.accumulated + elapsed(m0, ticks as nat);
        while self.accumulated_ticks >= STEP_RATE_IN_MILLISECONDS
            invariant
                m0.wf(),
                self.last_step as nat == stepped(m0, ticks as nat).last_tick,
                self.keys_down@ == down0,
                down0.to_set() == m0.held,
                just0.to_set() == m0.just_pressed,
                self.fixed_steps >= m0.updates,
                STEP_RATE_IN_MILLISECONDS * (self.fixed_steps - m0.updates) + self.accumulated_ticks
                    == total,
                total + STEP_RATE_IN_MILLISECONDS * m0.updates == self.last_step,
                self.fixed_steps == m0.updates ==> {
                    &&& self.keys_just_pressed@ == just0
                    &&& self.use_wire_frame_mode == m0.wire_frame
                    &&& self.use_small_viewport == m0.small_viewport
                    &&& self.use_scissor_rect == m0.scissor_rect
                },
                self.fixed_steps > m0.updates ==> {
                    &&& self.keys_just_pressed@.len() == 0
                    &&& self.use_wire_frame_mode == toggled(m0).wire_frame
                    &&& self.use_small_viewport == toggled(m0).small_viewport
                    &&& self.use_scissor_rect == toggled(m0).scissor_rect
                },
            decreases self.accumulated_ticks,
        {
            self.accumulated_ticks = self.accumulated_ticks - STEP_RATE_IN_MILLISECONDS;
            let ghost first = self.fixed_steps == m0.updates;
            proof {
                if !first {
                    assert(self@.just_pressed =~= Set::empty());
                } else {
                    assert(self@.just_pressed == m0.just_pressed);
                }
            }
            self.fixed_steps = self.fixed_steps + 1;
            self.fixed_step();

            self.keys_just_pressed.clear();
        }
        proof {
            let q = self.fixed_steps - m0.updates;
            let r = self.accumulated_ticks as int;
            vstd::arithmetic::div_mod::lemma_fundamental_div_mod_converse(
                total as int,
                STEP_RATE_IN_MILLISECONDS as int,
                q,
                r,
            );
            assert(self@.held =~= m0.held);
            if q == 0 {
                assert(self@.just_pressed =~= m0.just_pressed);
            } else {
                assert(self@.just_pressed =~= Set::empty());
            }
        }
    }

    /// One fixed update of the game: flips the toggle of each arrow key that
    /// was pressed since the previous update.
    fn fixed_step(&mut self)
        ensures
            final(self).keys_down@ == old(self).keys_down@,
            final(self).keys_just_pressed@ == old(self).keys_just_pressed@,
            final(self).accumulated_ticks == old(self).accumulated_ticks,
            final(self).last_step == old(self).last_step,
            final(self).fixed_steps == old(self).fixed_steps,
            final(self)@ == toggled(old(self)@),
    {
        if has_key(&self.keys_just_pressed, Scancode(SCANCODE_LEFT)) {
            self.use_wire_frame_mode = !self.use_wire_frame_mode;
        }
        if has_key(&self.keys_just_pressed, Scancode(SCANCODE_DOWN)) {
            self.use_small_viewport = !self.use_small_viewport;
        }
        if has_key(&self.keys_just_pressed, Scancode(SCANCODE_RIGHT)) {
            self.use_scissor_rect = !self.use_scissor_rect;
        }
    }
}

} // verus!
