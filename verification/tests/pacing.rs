use ox_chip8::error::{Chip8Error, Fault};
use ox_chip8::machine::Chip8;
use ox_chip8::scheduler::{RunState, Scheduler};
use ox_chip8::stack::Stack;
use ox_chip8::timers::Timers;

fn boot(program: &[u8]) -> Chip8 {
    let mut vm = Chip8::new();
    vm.init();
    assert_eq!(vm.load_program(program), Ok(()));
    vm
}

#[test]
fn timers_count_down_to_zero_and_stay_there() {
    let mut timers = Timers { delay: 2, sound: 1 };
    timers.tick();
    assert_eq!(timers, Timers { delay: 1, sound: 0 });
    timers.tick();
    assert_eq!(timers, Timers { delay: 0, sound: 0 });
    for _ in 0..1000 {
        timers.tick();
        assert_eq!(timers, Timers { delay: 0, sound: 0 });
    }
}

#[test]
fn new_timers_are_at_zero() {
    let mut timers = Timers::new();
    assert_eq!(timers, Timers { delay: 0, sound: 0 });
    timers.tick();
    assert_eq!(timers, Timers { delay: 0, sound: 0 });
}

#[test]
fn timer_from_the_top_takes_255_ticks() {
    let mut timers = Timers { delay: 255, sound: 255 };
    for _ in 0..254 {
        timers.tick();
    }
    assert_eq!(timers, Timers { delay: 1, sound: 1 });
    timers.tick();
    timers.tick();
    assert_eq!(timers, Timers { delay: 0, sound: 0 });
}

#[test]
fn stack_is_last_in_first_out() {
    let mut stack = Stack::new();
    assert_eq!(stack.len(), 0);
    assert_eq!(stack.push(0x202), Ok(()));
    assert_eq!(stack.push(0x404), Ok(()));
    assert_eq!(stack.len(), 2);
    assert_eq!(stack.pop(), Ok(0x404));
    assert_eq!(stack.pop(), Ok(0x202));
    assert_eq!(stack.pop(), Err(Chip8Error::StackUnderflow));
    assert_eq!(stack.len(), 0);
}

#[test]
fn stack_holds_sixteen_addresses() {
    let mut stack = Stack::new();
    for i in 0..16u16 {
        assert_eq!(stack.push(0x200 + i), Ok(()));
    }
    assert_eq!(stack.push(0x999), Err(Chip8Error::StackOverflow));
    assert_eq!(stack.len(), 16);
    for i in (0..16u16).rev() {
        assert_eq!(stack.pop(), Ok(0x200 + i));
    }
}

#[test]
fn a_tick_falls_due_every_sixtieth_of_a_second() {
    let mut scheduler = Scheduler::new(10);
    assert_eq!(scheduler.elapse(16_666_666), 0);
    assert_eq!(scheduler.elapse(1), 1);
    assert_eq!(scheduler.elapse(0), 0);
    assert_eq!(scheduler.elapse(1_000_000_000), 60);
    assert_eq!(scheduler.elapse(50_000_000), 3);
}

#[test]
fn no_time_is_lost_between_calls() {
    let mut scheduler = Scheduler::new(10);
    let mut ticks = 0;
    for _ in 0..1000 {
        ticks += scheduler.elapse(1_000_000);
    }
    assert_eq!(ticks, 60);
    let mut scheduler = Scheduler::new(10);
    let mut ticks = 0;
    for _ in 0..3 {
        ticks += scheduler.elapse(5_555_556);
    }
    assert_eq!(ticks, 1);
}

#[test]
fn very_long_pauses_are_counted_exactly() {
    let mut scheduler = Scheduler::new(10);
    assert_eq!(scheduler.elapse(u64::MAX), 1_106_804_644_422);
    // 60 * (2^64 - 1) leaves 573_096_900 pending
    assert_eq!(scheduler.nanos_until_tick(), 7_115_052);
}

#[test]
fn wait_until_the_next_tick() {
    let mut scheduler = Scheduler::new(10);
    assert_eq!(scheduler.nanos_until_tick(), 16_666_667);
    assert_eq!(scheduler.elapse(16_000_000), 0);
    assert_eq!(scheduler.nanos_until_tick(), 666_667);
    assert_eq!(scheduler.elapse(666_666), 0);
    assert_eq!(scheduler.nanos_until_tick(), 1);
    assert_eq!(scheduler.elapse(1), 1);
    assert_eq!(scheduler.nanos_until_tick(), 16_666_667);
}

#[test]
fn new_scheduler_runs() {
    let scheduler = Scheduler::new(12);
    assert_eq!(scheduler.status(), RunState::Running);
    assert_eq!(scheduler.cycles_per_tick(), 12);
}

#[test]
fn a_tick_runs_its_cycles_and_then_the_timers() {
    // V0 := 5; delay := V0; then count in V1 for ever
    let mut vm = boot(&[0x60, 0x05, 0xF0, 0x15, 0x71, 0x01, 0x12, 0x04]);
    let mut scheduler = Scheduler::new(4);
    assert_eq!(scheduler.run_tick(&mut vm), RunState::Running);
    assert_eq!(vm.register(1), 1);
    assert_eq!(vm.pc(), 0x204);
    assert_eq!(vm.delay_timer(), 4);
    assert_eq!(scheduler.run_tick(&mut vm), RunState::Running);
    assert_eq!(vm.register(1), 3);
    assert_eq!(vm.delay_timer(), 3);
}

#[test]
fn a_tick_without_cycles_still_ticks_the_timers() {
    let mut vm = boot(&[0x60, 0x05, 0xF0, 0x18]);
    assert_eq!(vm.step(0), Ok(()));
    assert_eq!(vm.step(0), Ok(()));
    let mut scheduler = Scheduler::new(0);
    assert_eq!(scheduler.run_tick(&mut vm), RunState::Running);
    assert_eq!(vm.sound_timer(), 4);
    assert_eq!(vm.pc(), 0x204);
}

#[test]
fn a_fault_halts_the_scheduler() {
    let mut vm = boot(&[0x60, 0x03, 0xF0, 0x15, 0x61, 0x01, 0x50, 0x01, 0x62, 0x02]);
    let mut scheduler = Scheduler::new(8);
    let fault =
        Fault { error: Chip8Error::UnsupportedOpcode, address: 0x206, opcode: Some(0x5001) };
    assert_eq!(scheduler.run_tick(&mut vm), RunState::Halted(fault));
    assert_eq!(scheduler.status(), RunState::Halted(fault));
    assert_eq!(vm.pc(), 0x206);
    assert_eq!(vm.register(1), 1);
    assert_eq!(vm.register(2), 0);
    // the tick was cut short: the timers did not tick
    assert_eq!(vm.delay_timer(), 3);
    // nothing falls due and nothing runs once halted
    assert_eq!(scheduler.elapse(1_000_000_000), 0);
    assert_eq!(scheduler.run_tick(&mut vm), RunState::Halted(fault));
    assert_eq!(vm.delay_timer(), 3);
    scheduler.stop();
    assert_eq!(scheduler.status(), RunState::Halted(fault));
}

#[test]
fn stop_ends_the_run() {
    let mut vm = boot(&[0x70, 0x01, 0x12, 0x00]);
    let mut scheduler = Scheduler::new(2);
    assert_eq!(scheduler.elapse(20_000_000), 1);
    assert_eq!(scheduler.run_tick(&mut vm), RunState::Running);
    assert_eq!(vm.register(0), 1);
    scheduler.stop();
    assert_eq!(scheduler.status(), RunState::Stopped);
    assert_eq!(scheduler.elapse(1_000_000_000), 0);
    assert_eq!(scheduler.run_tick(&mut vm), RunState::Stopped);
    assert_eq!(vm.register(0), 1);
    assert_eq!(vm.pc(), 0x200);
}
