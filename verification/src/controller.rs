use vstd::prelude::*;

verus! {

/// The byte that a standard NES controller reports for the given buttons:
/// A in bit 7, then B, Select, Start, Up, Down, Left, and Right in bit 0.
pub open spec fn buttons_byte(
    a: bool,
    b: bool,
    select: bool,
    start: bool,
    up: bool,
    down: bool,
    left: bool,
    right: bool,
) -> u8 {
    ((if a { 0x80int } else { 0 }) + (if b { 0x40int } else { 0 }) + (if select { 0x20int } else { 0 })
        + (if start { 0x10int } else { 0 }) + (if up { 0x08int } else { 0 }) + (if down { 0x04int } else { 0 })
        + (if left { 0x02int } else { 0 }) + (if right { 0x01int } else { 0 })) as u8
}

/// The shift register after `k` reads that started from `t`.
pub open spec fn shifted(t: u8, k: nat) -> u8
    decreases k,
{
    if k == 0 {
        t
    } else {
        ((shifted(t, (k - 1) as nat) as int * 2) % 256) as u8
    }
}

/// A standard controller: the live button state, and a shift register that
/// is loaded from it on a write and shifted out, one bit per read.
#[derive(Debug, Copy, Clone, PartialEq, Eq, Structural)]
pub struct Controller {
    state: u8,
    temp_state: u8,
}

impl Controller {
    /// The live button state.
    pub closed spec fn spec_state(&self) -> u8 {
        self.state
    }

    /// The shift register.
    pub closed spec fn spec_shift_register(&self) -> u8 {
        self.temp_state
    }

    /// The controller after a read: the shift register moved one bit on.
    pub closed spec fn spec_after_read(self) -> Controller {
        Controller { temp_state: shifted(self.temp_state, 1), ..self }
    }

    /// The controller after a write: the shift register loaded from the buttons.
    pub closed spec fn spec_after_write(self) -> Controller {
        Controller { temp_state: self.state, ..self }
    }

    /// The bit that a read returns: 1 when the next button is held.
    pub open spec fn spec_read_value(self) -> u8 {
        if self.spec_shift_register() >= 0x80 {
            1
        } else {
            0
        }
    }

    /// A controller with no button pressed.
    pub fn new() -> (c: Self)
        ensures
            c.spec_state() == 0,
            c.spec_shift_register() == 0,
    {
        Self { state: 0, temp_state: 0 }
    }

    /// The live button state.
    pub fn get_state(&self) -> (s: u8)
        ensures
            s == self.spec_state(),
    {
        self.state
    }

    /// Records which buttons are held down.
    #[allow(clippy::too_many_arguments)]
    pub fn check_inputs(
        &mut self,
        a: bool,
        b: bool,
        select: bool,
        start: bool,
        up: bool,
        down: bool,
        left: bool,
        right: bool,
    )
        ensures
            final(self).spec_state() == buttons_byte(a, b, select, start, up, down, left, right),
            final(self).spec_shift_register() == old(self).spec_shift_register(),
    {
        let mut state: u8 = 0x00;
        state = state + if a { 0x80 } else { 0x00 };
        state = state + if b { 0x40 } else { 0x00 };
        state = state + if select { 0x20 } else { 0x00 };
        state = state + if start { 0x10 } else { 0x00 };
        state = state + if up { 0x08 } else { 0x00 };
        state = state + if down { 0x04 } else { 0x00 };
        state = state + if left { 0x02 } else { 0x00 };
        state = state + if right { 0x01 } else { 0x00 };
        self.state = state;
    }

    /// Shifts out the next button: 1 when it is held, 0 otherwise; 0 once
    /// all eight have been read.
    pub fn read(&mut self) -> (data: u8)
        ensures
            data == (if old(self).spec_shift_register() >= 0x80 { 1u8 } else { 0u8 }),
            data == old(self).spec_read_value(),
            *final(self) == old(self).spec_after_read(),
            final(self).spec_shift_register() == shifted(old(self).spec_shift_register(), 1),
            final(self).spec_state() == old(self).spec_state(),
    {
        let data = if self.temp_state >= 0x80 {
            0x01
        } else {
            0x00
        };

        self.temp_state = ((self.temp_state as u16 * 2) % 256) as u8;
        proof {
            reveal_with_fuel(shifted, 2);
        }

        data
    }

    /// Latches the live button state into the shift register.
    pub fn write(&mut self)
        ensures
            *final(self) == old(self).spec_after_write(),
            final(self).spec_shift_register() == old(self).spec_state(),
            final(self).spec_state() == old(self).spec_state(),
    {
        self.temp_state = self.state;
    }
}

/// A read shifts the register one bit on, a write loads it from the
/// buttons; neither changes the buttons.
pub proof fn lemma_controller_transitions(c: Controller)
    ensures
        c.spec_after_read().spec_state() == c.spec_state(),
        c.spec_after_read().spec_shift_register() == shifted(c.spec_shift_register(), 1),
        c.spec_after_write().spec_state() == c.spec_state(),
        c.spec_after_write().spec_shift_register() == c.spec_state(),
{
}

/// The `k`-th read after a latch of `t` gives bit `7 - k` of `t`, and 0 once
/// all eight bits are out.
pub proof fn lemma_controller_read_order(t: u8, k: nat)
    ensures
        (shifted(t, k) >= 0x80) == (k < 8 && (t >> ((7 - k) as u8)) & 1 == 1),
    decreases k,
{
    lemma_shifted_is_shift(t, k);
    if k < 8 {
        let kk = k as u8;
        lemma_shift_register_bits(t, kk);
    }
}

/// The bits of a byte shifted left by `k`.
proof fn lemma_shift_register_bits(t: u8, k: u8)
    ensures
        k < 8 ==> (((t << k) >= 0x80) == ((t >> (7 - k) as u8) & 1 == 1)),
        t << 0u8 == t,
        1 <= k < 8 ==> ((t << ((k - 1) as u8)) as int * 2) % 256 == (t << k) as int,
        ((t << 7u8) as int * 2) % 256 == 0,
{
    assert({
        &&& k < 8 ==> (((t << k) >= 0x80) == ((t >> (7 - k) as u8) & 1 == 1))
        &&& t << 0u8 == t
        &&& 1 <= k < 8 ==> ((t << ((k - 1) as u8)) as int * 2) % 256 == (t << k) as int
        &&& ((t << 7u8) as int * 2) % 256 == 0
    }) by (bit_vector)
    ;
}

/// After `k` reads the shift register holds `t << k` (nothing after eight).
proof fn lemma_shifted_is_shift(t: u8, k: nat)
    ensures
        k < 8 ==> shifted(t, k) == t << (k as u8),
        k >= 8 ==> shifted(t, k) == 0,
    decreases k,
{
    if k == 0 {
        lemma_shift_register_bits(t, 0);
    } else {
        lemma_shifted_is_shift(t, (k - 1) as nat);
        let p = shifted(t, (k - 1) as nat);
        if k < 8 {
            let kk = k as u8;
            lemma_shift_register_bits(t, kk);
        } else if k == 8 {
            lemma_shift_register_bits(t, 7);
        }
    }
}

/// The controller after `k` reads.
pub open spec fn after_reads(c: Controller, k: nat) -> Controller
    decreases k,
{
    if k == 0 {
        c
    } else {
        after_reads(c, (k - 1) as nat).spec_after_read()
    }
}

/// Whether the `k`-th button in report order (A, B, Select, Start, Up,
/// Down, Left, Right) is held.
pub open spec fn button_held(
    k: nat,
    a: bool,
    b: bool,
    select: bool,
    start: bool,
    up: bool,
    down: bool,
    left: bool,
    right: bool,
) -> bool {
    if k == 0 {
        a
    } else if k == 1 {
        b
    } else if k == 2 {
        select
    } else if k == 3 {
        start
    } else if k == 4 {
        up
    } else if k == 5 {
        down
    } else if k == 6 {
        left
    } else if k == 7 {
        right
    } else {
        false
    }
}

/// Reads shift the register on and leave the buttons alone.
proof fn lemma_after_reads(c: Controller, k: nat)
    ensures
        after_reads(c, k).spec_shift_register() == shifted(c.spec_shift_register(), k),
        after_reads(c, k).spec_state() == c.spec_state(),
    decreases k,
{
    if k > 0 {
        lemma_after_reads(c, (k - 1) as nat);
        reveal_with_fuel(shifted, 2);
    }
}

/// The bits of the button byte, A in bit 7 down to Right in bit 0.
proof fn lemma_buttons_bits(
    a: bool,
    b: bool,
    select: bool,
    start: bool,
    up: bool,
    down: bool,
    left: bool,
    right: bool,
)
    ensures
        ({
            let t = buttons_byte(a, b, select, start, up, down, left, right);
            &&& ((t >> 7u8) & 1 == 1) == a
            &&& ((t >> 6u8) & 1 == 1) == b
            &&& ((t >> 5u8) & 1 == 1) == select
            &&& ((t >> 4u8) & 1 == 1) == start
            &&& ((t >> 3u8) & 1 == 1) == up
            &&& ((t >> 2u8) & 1 == 1) == down
            &&& ((t >> 1u8) & 1 == 1) == left
            &&& ((t >> 0u8) & 1 == 1) == right
        }),
{
    let t = buttons_byte(a, b, select, start, up, down, left, right);
    let ta: u8 = if a { 0x80 } else { 0 };
    let tb: u8 = if b { 0x40 } else { 0 };
    let tc: u8 = if select { 0x20 } else { 0 };
    let td: u8 = if start { 0x10 } else { 0 };
    let te: u8 = if up { 0x08 } else { 0 };
    let tf: u8 = if down { 0x04 } else { 0 };
    let tg: u8 = if left { 0x02 } else { 0 };
    let th: u8 = if right { 0x01 } else { 0 };
    assert(t == ta | tb | tc | td | te | tf | tg | th) by (bit_vector)
        requires
            t == (ta + tb + tc + td + te + tf + tg + th) as u8,
            ta == 0x80 || ta == 0,
            tb == 0x40 || tb == 0,
            tc == 0x20 || tc == 0,
            td == 0x10 || td == 0,
            te == 0x08 || te == 0,
            tf == 0x04 || tf == 0,
            tg == 0x02 || tg == 0,
            th == 0x01 || th == 0,
    ;
    assert({
        &&& ((t >> 7u8) & 1 == 1) == (ta != 0)
        &&& ((t >> 6u8) & 1 == 1) == (tb != 0)
        &&& ((t >> 5u8) & 1 == 1) == (tc != 0)
        &&& ((t >> 4u8) & 1 == 1) == (td != 0)
        &&& ((t >> 3u8) & 1 == 1) == (te != 0)
        &&& ((t >> 2u8) & 1 == 1) == (tf != 0)
        &&& ((t >> 1u8) & 1 == 1) == (tg != 0)
        &&& ((t >> 0u8) & 1 == 1) == (th != 0)
    }) by (bit_vector)
        requires
            t == ta | tb | tc | td | te | tf | tg | th,
            ta == 0x80 || ta == 0,
            tb == 0x40 || tb == 0,
            tc == 0x20 || tc == 0,
            td == 0x10 || td == 0,
            te == 0x08 || te == 0,
            tf == 0x04 || tf == 0,
            tg == 0x02 || tg == 0,
            th == 0x01 || th == 0,
    ;
}

/// Once the buttons are recorded and latched by a write, the reads report
/// them one at a time: the `k`-th read after the write gives 1 when the
/// `k`-th button (A, B, Select, Start, Up, Down, Left, Right) is held and 0
/// when it is not, and every read after the eighth gives 0.
pub proof fn lemma_controller_reports_buttons(
    c: Controller,
    a: bool,
    b: bool,
    select: bool,
    start: bool,
    up: bool,
    down: bool,
    left: bool,
    right: bool,
    k: nat,
)
    requires
        c.spec_state() == buttons_byte(a, b, select, start, up, down, left, right),
    ensures
        after_reads(c.spec_after_write(), k).spec_read_value() == if button_held(
            k,
            a,
            b,
            select,
            start,
            up,
            down,
            left,
            right,
        ) {
            1u8
        } else {
            0u8
        },
{
    let t = c.spec_state();
    lemma_after_reads(c.spec_after_write(), k);
    lemma_controller_read_order(t, k);
    lemma_buttons_bits(a, b, select, start, up, down, left, right);
}

} // verus!
