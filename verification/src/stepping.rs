use vstd::prelude::*;
use crate::nes::{Nes, NesView, spec_nes_tick};
use crate::ppu::PpuView;

verus! {

/// What a run of clock ticks waits for.
#[derive(Clone, Copy, Debug, PartialEq, Eq, Structural)]
pub enum TickGoal {
    /// The PPU has finished a frame.
    FrameComplete,
    /// The CPU has used up the cycles of its instruction.
    InstructionComplete,
    /// The CPU is inside an instruction.
    InstructionStarted,
}

/// Whether the console in state `s` has reached `goal`.
pub open spec fn goal_met(goal: TickGoal, s: NesView) -> bool {
    match goal {
        TickGoal::FrameComplete => s.ppu.is_frame_complete,
        TickGoal::InstructionComplete => s.cpu.cycles == 0,
        TickGoal::InstructionStarted => s.cpu.cycles != 0,
    }
}

/// The console after `k` clock ticks.
pub open spec fn nes_ticks(s: NesView, k: nat) -> NesView
    decreases k,
{
    if k == 0 {
        s
    } else {
        spec_nes_tick(nes_ticks(s, (k - 1) as nat))
    }
}

/// Ticking from `s` until `goal` holds, looking after each tick, takes `k`
/// ticks; a run also ends when the tick counter has reached its largest
/// value, before the next tick.
pub open spec fn ticks_until(s: NesView, goal: TickGoal, k: nat) -> bool {
    &&& forall|j: nat|
        j < k ==> (#[trigger] nes_ticks(s, j)).total_clock_ticks < u128::MAX && (j == 0
            || !goal_met(goal, nes_ticks(s, j)))
    &&& (goal_met(goal, nes_ticks(s, k)) && k > 0) || nes_ticks(s, k).total_clock_ticks
        == u128::MAX
}

/// Whether `e` is what ticking from `s` until `goal` leads to.
pub open spec fn ran_until(s: NesView, goal: TickGoal, e: NesView) -> bool {
    exists|k: nat| ticks_until(s, goal, k) && e == nes_ticks(s, k)
}

/// The console with the PPU's frame-complete flag cleared.
pub open spec fn frame_cleared(s: NesView) -> NesView {
    NesView { ppu: PpuView { is_frame_complete: false, ..s.ppu }, ..s }
}

impl Nes {
    /// Ticks the clock at least once and until `goal` holds. Returns whether
    /// it was reached: the run stops without it only when the tick counter
    /// has reached its largest value.
    fn tick_until(&mut self, goal: TickGoal) -> (reached: bool)
        requires
            old(self).wf(),
            old(self).has_cartridge(),
        ensures
            final(self).wf(),
            final(self).has_cartridge(),
            ran_until(old(self).view(), goal, final(self).view()),
            reached ==> goal_met(goal, final(self).view()),
            !reached ==> final(self).view().total_clock_ticks == u128::MAX,
    {
        let ghost s0 = self.view();
        let ghost mut k: nat = 0;
        loop
            invariant
                s0 == old(self).view(),
                self.wf(),
                self.has_cartridge(),
                self.view() == nes_ticks(s0, k),
                self.view().total_clock_ticks == s0.total_clock_ticks + k,
                forall|j: nat|
                    j < k ==> (#[trigger] nes_ticks(s0, j)).total_clock_ticks < u128::MAX && (j
                        == 0 || !goal_met(goal, nes_ticks(s0, j))),
                k > 0 ==> !goal_met(goal, nes_ticks(s0, k)),
            decreases u128::MAX - self.view().total_clock_ticks,
        {
            if self.get_total_clock_ticks() == u128::MAX {
                proof {
                    assert(ticks_until(s0, goal, k) && self.view() == nes_ticks(s0, k));
                    assert(ran_until(s0, goal, self.view()));
                }
                return false;
            }
            self.tick();
            proof {
                let k1 = (k + 1) as nat;
                assert(nes_ticks(s0, k1) == spec_nes_tick(nes_ticks(s0, k)));
                assert forall|j: nat| j < k1 implies (#[trigger] nes_ticks(
                    s0,
                    j,
                )).total_clock_ticks < u128::MAX && (j == 0 || !goal_met(goal, nes_ticks(s0, j))) by {
                    if j == k {
                    }
                }
                k = k1;
            }
            let met = match goal {
                TickGoal::FrameComplete => self.is_ppu_frame_complete(),
                TickGoal::InstructionComplete => self.is_cpu_instruction_complete(),
                TickGoal::InstructionStarted => !self.is_cpu_instruction_complete(),
            };
            if met {
                proof {
                    assert(ticks_until(s0, goal, k) && self.view() == nes_ticks(s0, k));
                    assert(ran_until(s0, goal, self.view()));
                }
                return true;
            }
        }
    }

    /// The console's frame: ticks until the PPU finishes a frame, then
    /// clears the frame-complete flag. Returns false, with the flag left as
    /// it is, when the tick counter reaches its largest value first.
    pub fn run_frame(&mut self) -> (completed: bool)
        requires
            old(self).wf(),
            old(self).has_cartridge(),
        ensures
            final(self).wf(),
            final(self).has_cartridge(),
            exists|m: NesView|
                {
                    &&& #[trigger] ran_until(old(self).view(), TickGoal::FrameComplete, m)
                    &&& completed ==> m.ppu.is_frame_complete && final(self).view()
                        == frame_cleared(m)
                    &&& !completed ==> m.total_clock_ticks == u128::MAX && final(self).view()
                        == m
                },
    {
        let done = self.tick_until(TickGoal::FrameComplete);
        let ghost m = self.view();
        if done {
            self.set_ppu_frame_complete(false);
        }
        assert({
            &&& ran_until(old(self).view(), TickGoal::FrameComplete, m)
            &&& done ==> m.ppu.is_frame_complete && self.view() == frame_cleared(m)
            &&& !done ==> m.total_clock_ticks == u128::MAX && self.view() == m
        });
        done
    }

    /// Steps one instruction for the debugger: ticks until the CPU has
    /// finished its instruction, then until it is inside the next one.
    /// Returns false when the tick counter reaches its largest value first.
    pub fn step_instruction(&mut self) -> (completed: bool)
        requires
            old(self).wf(),
            old(self).has_cartridge(),
        ensures
            final(self).wf(),
            final(self).has_cartridge(),
            exists|m: NesView|
                {
                    &&& #[trigger] ran_until(old(self).view(), TickGoal::InstructionComplete, m)
                    &&& completed ==> m.cpu.cycles == 0 && ran_until(
                        m,
                        TickGoal::InstructionStarted,
                        final(self).view(),
                    ) && final(self).view().cpu.cycles != 0
                    &&& !completed ==> final(self).view().total_clock_ticks == u128::MAX
                },
    {
        let done = self.tick_until(TickGoal::InstructionComplete);
        let ghost m = self.view();
        if !done {
            assert(ran_until(old(self).view(), TickGoal::InstructionComplete, m));
            return false;
        }
        let started = self.tick_until(TickGoal::InstructionStarted);
        assert(ran_until(old(self).view(), TickGoal::InstructionComplete, m));
        started
    }

    /// Steps one frame for the debugger: ticks until the PPU finishes a
    /// frame, then until the CPU has finished its instruction, then clears
    /// the frame-complete flag. Returns false, leaving the flag, when the tick
    /// counter reaches its largest value first.
    pub fn step_frame(&mut self) -> (completed: bool)
        requires
            old(self).wf(),
            old(self).has_cartridge(),
        ensures
            final(self).wf(),
            final(self).has_cartridge(),
            exists|m1: NesView|
                {
                    &&& #[trigger] ran_until(old(self).view(), TickGoal::FrameComplete, m1)
                    &&& completed ==> m1.ppu.is_frame_complete && exists|m2: NesView|
                        {
                            &&& #[trigger] ran_until(m1, TickGoal::InstructionComplete, m2)
                            &&& m2.cpu.cycles == 0
                            &&& final(self).view() == frame_cleared(m2)
                        }
                    &&& !completed ==> final(self).view().total_clock_ticks == u128::MAX
                },
    {
        let frame = self.tick_until(TickGoal::FrameComplete);
        let ghost m1 = self.view();
        if !frame {
            assert(ran_until(old(self).view(), TickGoal::FrameComplete, m1));
            return false;
        }
        let done = self.tick_until(TickGoal::InstructionComplete);
        let ghost m2 = self.view();
        if done {
            self.set_ppu_frame_complete(false);
        }
        assert(ran_until(old(self).view(), TickGoal::FrameComplete, m1));
        assert(ran_until(m1, TickGoal::InstructionComplete, m2));
        done
    }
}

} // verus!
