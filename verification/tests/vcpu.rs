use realm_monitor::realm::context::Context;
use realm_monitor::realm::rd::Rd;
use realm_monitor::realm::registers::{bits_in_reg, vmpidr, vttbr};
use realm_monitor::realm::registry::VmidSet;
use realm_monitor::realm::vcpu::{create_vcpu, current, remove, Arena, State, VCPU};
use realm_monitor::rmi::error::Error;

#[test]
fn states_have_their_numbers() {
    assert_eq!(State::Null.value(), 0);
    assert_eq!(State::Ready.value(), 1);
    assert_eq!(State::Running.value(), 2);
}

#[test]
fn a_new_vcpu_is_ready_and_unbound() {
    let mut arena = Arena::new(4);
    assert_eq!(arena.len(), 0);
    assert_eq!(arena.cpus(), 4);
    let handle = VCPU::new(&mut arena);
    assert_eq!(handle, 0);
    assert_eq!(arena.len(), 1);
    let vcpu = arena.get(handle).unwrap();
    assert_eq!(vcpu.state, State::Ready);
    assert_eq!(vcpu.pcpu, None);
    assert_eq!(vcpu.me, handle);
    assert_eq!(vcpu.context, Context::new());
    assert_eq!(vcpu.context.sys_regs.vttbr, 0);
    assert_eq!(vcpu.context.sys_regs.vmpidr, 0);
    assert!(!vcpu.is_realm_dead());
    for cpu in 0..8 {
        assert!(current(&arena, cpu).is_none());
    }
    assert!(arena.get(1).is_none());
}

#[test]
fn vcpu_lifecycle() {
    let mut arena = Arena::new(4);
    let first = VCPU::new(&mut arena);
    let second = VCPU::new(&mut arena);
    assert_eq!((first, second), (0, 1));

    arena.into_current(second, 2);
    assert_eq!(arena.get(second).unwrap().state, State::Running);
    assert_eq!(arena.get(second).unwrap().pcpu, Some(2));
    assert_eq!(current(&arena, 2).unwrap().me, second);
    assert_eq!(arena.get(first).unwrap().state, State::Ready);
    for cpu in [0, 1, 3] {
        assert!(current(&arena, cpu).is_none());
    }

    arena.into_current(first, 0);
    assert_eq!(current(&arena, 0).unwrap().me, first);
    assert_eq!(current(&arena, 2).unwrap().me, second);

    arena.from_current(second);
    assert_eq!(arena.get(second).unwrap().state, State::Ready);
    assert_eq!(arena.get(second).unwrap().pcpu, None);
    assert!(current(&arena, 2).is_none());
    assert_eq!(current(&arena, 0).unwrap().me, first);

    arena.from_current(first);
    for cpu in 0..4 {
        assert!(current(&arena, cpu).is_none());
    }
}

#[test]
fn a_vcpu_may_move_to_another_physical_cpu() {
    let mut arena = Arena::new(2);
    let handle = VCPU::new(&mut arena);
    arena.into_current(handle, 0);
    arena.from_current(handle);
    arena.into_current(handle, 1);
    assert!(current(&arena, 0).is_none());
    assert_eq!(current(&arena, 1).unwrap().pcpu, Some(1));
}

#[test]
fn binding_registers_follow_the_vcpu() {
    let mut arena = Arena::new(1);
    let handle = VCPU::new(&mut arena);
    let mut vcpu = VCPU { context: Context::new(), state: State::Ready, pcpu: None, me: handle };
    let mut register = None;
    vcpu.into_current(5, &mut register);
    assert_eq!(vcpu.state, State::Running);
    assert_eq!(vcpu.pcpu, Some(5));
    assert_eq!(register, Some(handle));
    vcpu.from_current(&mut register);
    assert_eq!(vcpu.state, State::Ready);
    assert_eq!(vcpu.pcpu, None);
    assert_eq!(register, None);
}

fn ready(_: &VCPU, _: &Rd) -> Result<(), Error> {
    Ok(())
}

fn broken(_: &VCPU, _: &Rd) -> Result<(), Error> {
    Err(Error::RmiErrorInput)
}

#[test]
fn create_vcpu_programs_the_registers_and_returns_the_index() {
    let mut arena = Arena::new(2);
    let other = VCPU::new(&mut arena);
    assert_eq!(other, 0);

    let mut rd = Rd::new(5, 0x8000_1000);
    assert_eq!(rd.id(), 5);
    assert_eq!(rd.s2_table(), 0x8000_1000);
    assert_eq!(create_vcpu(&mut arena, &mut rd, 3, ready, ready), Ok(0));
    assert_eq!(create_vcpu(&mut arena, &mut rd, 0x0000_0001_0000_0100, ready, ready), Ok(1));
    assert_eq!(rd.vcpus, vec![1, 2]);
    assert_eq!(arena.len(), 3);

    let vcpu = arena.get(1).unwrap();
    assert_eq!(vcpu.state, State::Ready);
    assert_eq!(vcpu.pcpu, None);
    assert_eq!(vcpu.me, 1);
    assert_eq!(vcpu.context.sys_regs.vttbr, 0x0005_0000_8000_1000);
    assert_eq!(vcpu.context.sys_regs.vmpidr, 0x8000_0003);

    let vcpu = arena.get(2).unwrap();
    assert_eq!(vcpu.context.sys_regs.vttbr, 0x0005_0000_8000_1000);
    assert_eq!(vcpu.context.sys_regs.vmpidr, 0x0000_0001_8000_0100);
    assert!(current(&arena, 0).is_none());
    assert!(current(&arena, 1).is_none());
}

#[test]
fn create_vcpu_hands_the_programmed_vcpu_to_the_devices() {
    let mut arena = Arena::new(1);
    let mut rd = Rd::new(0x12, 0x4000_0000);
    let mut seen = Vec::new();
    let mut order = Vec::new();
    let created = create_vcpu(
        &mut arena,
        &mut rd,
        1,
        |vcpu: &VCPU, rd: &Rd| {
            seen.push((vcpu.me, vcpu.state, vcpu.context.sys_regs.vttbr, rd.id, rd.vcpus.len()));
            order.push("timer");
            Ok(())
        },
        |vcpu: &VCPU, rd: &Rd| {
            assert_eq!(vcpu.context.sys_regs.vmpidr, 0x8000_0001);
            assert_eq!(rd.s2_table, 0x4000_0000);
            Ok(())
        },
    );
    assert_eq!(created, Ok(0));
    assert_eq!(seen, vec![(0, State::Ready, 0x0012_0000_4000_0000, 0x12, 0)]);
    assert_eq!(order, vec!["timer"]);
}

#[test]
fn create_vcpu_gives_up_where_the_timer_fails() {
    let mut arena = Arena::new(1);
    let mut rd = Rd::new(1, 0);
    assert_eq!(create_vcpu(&mut arena, &mut rd, 0, ready, ready), Ok(0));

    let mut gic_ran = false;
    let failed = create_vcpu(&mut arena, &mut rd, 1, broken, |_: &VCPU, _: &Rd| {
        gic_ran = true;
        Ok(())
    });
    assert_eq!(failed, Err(Error::RmiErrorInput));
    assert!(!gic_ran);
    assert_eq!(arena.len(), 1);
    assert_eq!(rd.vcpus, vec![0]);
    assert_eq!(create_vcpu(&mut arena, &mut rd, 2, ready, ready), Ok(1));
    assert_eq!(rd.vcpus, vec![0, 1]);
}

#[test]
fn create_vcpu_gives_up_where_the_interrupt_controller_fails() {
    let mut arena = Arena::new(1);
    let mut rd = Rd::new(1, 0);
    assert_eq!(create_vcpu(&mut arena, &mut rd, 1, ready, broken), Err(Error::RmiErrorInput));
    assert_eq!(arena.len(), 0);
    assert!(arena.get(0).is_none());
    assert!(rd.vcpus.is_empty());
    assert_eq!(rd.id(), 1);
}

#[test]
fn translation_register_holds_identifier_and_table() {
    assert_eq!(vttbr(0, 0), 0);
    assert_eq!(vttbr(1, 0), 0x0001_0000_0000_0000);
    assert_eq!(vttbr(0xffff, 0), 0xffff_0000_0000_0000);
    assert_eq!(vttbr(0x1_0002, 0), 0x0002_0000_0000_0000);
    assert_eq!(vttbr(0, 0x8000_1000), 0x0000_0000_8000_1000);
    assert_eq!(vttbr(0, 0x8000_1001), 0x0000_0000_8000_1000);
    assert_eq!(vttbr(0, u64::MAX), 0x0000_ffff_ffff_fffe);
    assert_eq!(vttbr(0xabcd, 0x0000_1234_5678_9000), 0xabcd_1234_5678_9000);
}

#[test]
fn identity_register_has_its_fixed_bit() {
    assert_eq!(vmpidr(0), 0x8000_0000);
    assert_eq!(vmpidr(3), 0x8000_0003);
    assert_eq!(vmpidr(0x8000_0000), 0x8000_0000);
    assert_eq!(vmpidr(0xff_0000_0000), 0xff_8000_0000);
}

#[test]
fn bits_land_in_their_field() {
    assert_eq!(bits_in_reg(0xff00, 0x12), 0x1200);
    assert_eq!(bits_in_reg(0xff00, 0x123), 0x2300);
    assert_eq!(bits_in_reg(0x1, 1), 1);
    assert_eq!(bits_in_reg(0x8000_0000_0000_0000, 1), 0x8000_0000_0000_0000);
    assert_eq!(bits_in_reg(0xffff_0000_0000_0000, 5), 0x0005_0000_0000_0000);
}

#[test]
fn registry_removal() {
    let mut vmids = VmidSet::new();
    assert!(vmids.insert(7));
    assert!(vmids.contains(7));
    assert_eq!(remove(&mut vmids, 7), Ok(()));
    assert!(!vmids.contains(7));
    assert_eq!(remove(&mut vmids, 7), Err(Error::RmiErrorInput));
    assert_eq!(remove(&mut vmids, 9), Err(Error::RmiErrorInput));
}

#[test]
fn an_identifier_is_a_member_at_most_once() {
    let mut vmids = VmidSet::new();
    assert!(vmids.insert(3));
    assert!(!vmids.insert(3));
    assert!(vmids.insert(4));
    assert_eq!(vmids.remove(3), Ok(()));
    assert_eq!(vmids.remove(3), Err(Error::RmiErrorInput));
    assert!(vmids.contains(4));
    assert!(!vmids.contains(3));
}

#[test]
fn a_torn_down_vcpu_is_null_and_keeps_its_handle() {
    let mut arena = Arena::new(2);
    let first = VCPU::new(&mut arena);
    let second = VCPU::new(&mut arena);
    arena.into_current(second, 1);
    arena.teardown(first);
    assert_eq!(arena.get(first).unwrap().state, State::Null);
    assert_eq!(arena.get(first).unwrap().pcpu, None);
    assert_eq!(arena.get(first).unwrap().me, first);
    assert_eq!(arena.get(second).unwrap().state, State::Running);
    assert_eq!(current(&arena, 1).unwrap().me, second);
    assert_eq!(arena.len(), 2);
}

#[test]
fn set_context_replaces_the_registers_only() {
    let mut arena = Arena::new(2);
    let handle = VCPU::new(&mut arena);
    arena.into_current(handle, 1);
    let mut context = Context::new();
    context.sys_regs.vttbr = 0x1234;
    context.sys_regs.vmpidr = 0x8000_0001;
    arena.set_context(handle, context);
    let vcpu = arena.get(handle).unwrap();
    assert_eq!(vcpu.context, context);
    assert_eq!(vcpu.state, State::Running);
    assert_eq!(vcpu.pcpu, Some(1));
    assert_eq!(current(&arena, 1).unwrap().context.sys_regs.vttbr, 0x1234);
}
