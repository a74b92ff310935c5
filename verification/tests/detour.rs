use allocation_catcher::detour::{
    allocation_event, check_installed, check_located, deallocation_event, reallocation_event,
    AllocationHandler, Base, DetourCall, Error, Hook, HookStep, HookSwitch, NoopAllocationHandler,
    HEAP_NO_SERIALIZE,
};
use allocation_catcher::flag::{DetourFlag, DetourFlagSet, TlsSlotAcquisition};

fn base() -> Base {
    Base {
        heap_handle: 0xAA,
        return_address: Some(0x1),
        address_of_return_address: Some(0x2),
        stack_frame_address: Some(0x3),
    }
}

#[test]
fn flag_masks() {
    assert_eq!(DetourFlag::Alloc.mask(), 1);
    assert_eq!(DetourFlag::Free.mask(), 2);
    assert_eq!(DetourFlag::Lock.mask(), usize::MAX);
}

#[test]
fn slot_acquire_returns_only_the_bits_newly_taken() {
    let mut slot = TlsSlotAcquisition::new();
    assert_eq!(slot.get(), 0);
    assert_eq!(slot.acquire(0b0101), 0b0101);
    assert_eq!(slot.get(), 0b0101);
    assert_eq!(slot.acquire(0b0110), 0b0010);
    assert_eq!(slot.get(), 0b0111);
    assert_eq!(slot.acquire(0b0111), 0);
    assert_eq!(slot.get(), 0b0111);
    slot.release(0b0010);
    assert_eq!(slot.get(), 0b0101);
    slot.release(0b1111);
    assert_eq!(slot.get(), 0);
}

#[test]
fn scoped_acquisition_releases_exactly_what_it_took() {
    let mut flags = DetourFlagSet::new();
    let alloc = flags.acquire(DetourFlag::Alloc).expect("alloc is free");
    assert_eq!(alloc.acquisition(), 1);
    assert!(flags.is_acquired(DetourFlag::Alloc));
    assert!(!flags.is_acquired(DetourFlag::Free));
    let lock = flags.acquire(DetourFlag::Lock).expect("some bits are free");
    assert_eq!(lock.acquisition(), usize::MAX & !1);
    assert!(flags.is_acquired(DetourFlag::Free));
    flags.release(lock);
    assert!(flags.is_acquired(DetourFlag::Alloc));
    assert!(!flags.is_acquired(DetourFlag::Free));
    flags.release(alloc);
    assert!(!flags.is_acquired(DetourFlag::Alloc));
    assert!(!flags.is_acquired(DetourFlag::Lock));
}

#[test]
fn nested_acquisition_takes_nothing() {
    let mut flags = DetourFlagSet::new();
    let outer = flags.acquire(DetourFlag::Lock).expect("fresh thread");
    assert!(flags.acquire(DetourFlag::Lock).is_none());
    assert!(flags.acquire(DetourFlag::Alloc).is_none());
    assert!(flags.acquire(DetourFlag::Free).is_none());
    flags.release(outer);
    assert!(flags.acquire(DetourFlag::Lock).is_some());
}

#[test]
fn forgotten_full_acquisition_marks_the_thread_for_good() {
    let mut flags = DetourFlagSet::new();
    flags.acquire_all().expect("fresh thread").forget();
    assert!(flags.is_acquired(DetourFlag::Lock));
    assert!(flags.acquire(DetourFlag::Lock).is_none());
    assert!(flags.acquire_all().is_none());
    let call = DetourCall::enter(&mut flags);
    assert!(!call.should_handle(0));
    call.leave(&mut flags);
    assert!(flags.is_acquired(DetourFlag::Alloc));
}

#[test]
fn outermost_call_is_handled_and_leaves_no_trace() {
    let mut flags = DetourFlagSet::new();
    let call = DetourCall::enter(&mut flags);
    assert!(call.should_handle(0));
    assert!(call.should_handle(0x8));
    call.leave(&mut flags);
    assert!(!flags.is_acquired(DetourFlag::Lock));
}

#[test]
fn reentrant_call_is_not_handled() {
    let mut flags = DetourFlagSet::new();
    let outer = DetourCall::enter(&mut flags);
    assert!(outer.should_handle(0));
    let inner = DetourCall::enter(&mut flags);
    assert!(!inner.should_handle(0));
    inner.leave(&mut flags);
    assert!(flags.is_acquired(DetourFlag::Lock));
    outer.leave(&mut flags);
    assert!(!flags.is_acquired(DetourFlag::Lock));
}

#[test]
fn heap_no_serialize_is_not_handled() {
    assert_eq!(HEAP_NO_SERIALIZE, 1);
    let mut flags = DetourFlagSet::new();
    let call = DetourCall::enter(&mut flags);
    assert!(!call.should_handle(HEAP_NO_SERIALIZE));
    assert!(!call.should_handle(HEAP_NO_SERIALIZE | 0x8));
    call.leave(&mut flags);
}

#[test]
fn events_report_a_null_result_as_failure() {
    let a = allocation_event(base(), 64, 0x5000);
    assert_eq!(a.size, 64);
    assert_eq!(a.allocated_base_address, Some(0x5000));
    assert_eq!(a.base.heap_handle, 0xAA);
    assert_eq!(allocation_event(base(), 64, 0).allocated_base_address, None);

    let r = reallocation_event(base(), 0x5000, 128, 0x6000);
    assert_eq!(r.base_address, 0x5000);
    assert_eq!(r.allocation.size, 128);
    assert_eq!(r.allocation.allocated_base_address, Some(0x6000));
    assert_eq!(reallocation_event(base(), 0x5000, 128, 0).allocation.allocated_base_address, None);

    let d = deallocation_event(base(), 0x6000, 1);
    assert_eq!(d.base_address, 0x6000);
    assert!(d.success);
    assert!(deallocation_event(base(), 0x6000, -1).success);
    assert!(!deallocation_event(base(), 0x6000, 0).success);
}

#[test]
fn noop_handler_wants_no_stack() {
    let mut handler = NoopAllocationHandler;
    assert!(handler.stack_request(&base()).is_none());
    handler.on_allocation(allocation_event(base(), 1, 2), None);
    handler.on_reallocation(reallocation_event(base(), 2, 3, 4), None);
    handler.on_deallocation(deallocation_event(base(), 4, 1));
}

#[test]
fn search_for_the_routines() {
    assert_eq!(check_located(0, 1, 2, 3), Err(Error::CouldNotFindModule));
    assert_eq!(check_located(0, 0, 0, 0), Err(Error::CouldNotFindModule));
    assert_eq!(check_located(9, 0, 2, 3), Err(Error::CouldNotFindProc));
    assert_eq!(check_located(9, 1, 0, 3), Err(Error::CouldNotFindProc));
    assert_eq!(check_located(9, 1, 2, 0), Err(Error::CouldNotFindProc));
    assert_eq!(check_located(9, 1, 2, 3), Ok(()));
}

#[test]
fn installation_of_the_hooks() {
    assert_eq!(check_installed(true, true, true), Ok(()));
    assert_eq!(check_installed(false, true, true), Err(Error::HookInitializeFailed));
    assert_eq!(check_installed(true, false, true), Err(Error::HookInitializeFailed));
    assert_eq!(check_installed(true, true, false), Err(Error::HookInitializeFailed));
}

#[test]
fn switching_all_hooks_succeeds() {
    let mut switch = HookSwitch::start(true);
    assert_eq!(switch.step(), HookStep::Apply(Hook::Allocate));
    switch.report(true);
    assert_eq!(switch.step(), HookStep::Apply(Hook::Reallocate));
    switch.report(true);
    assert_eq!(switch.step(), HookStep::Apply(Hook::Free));
    switch.report(true);
    assert_eq!(switch.step(), HookStep::Succeeded);
}

#[test]
fn failed_enable_is_rolled_back() {
    let mut switch = HookSwitch::start(true);
    switch.report(true);
    switch.report(true);
    assert_eq!(switch.step(), HookStep::Apply(Hook::Free));
    switch.report(false);
    assert_eq!(switch.step(), HookStep::Revert(Hook::Reallocate));
    switch.report(true);
    assert_eq!(switch.step(), HookStep::Revert(Hook::Allocate));
    switch.report(false);
    assert_eq!(switch.step(), HookStep::Failed(Error::HookEnableFailed));
}

#[test]
fn failed_disable_reports_its_own_error() {
    let mut switch = HookSwitch::start(false);
    assert_eq!(switch.step(), HookStep::Apply(Hook::Allocate));
    switch.report(false);
    assert_eq!(switch.step(), HookStep::Failed(Error::HookDisableFailed));

    let mut switch = HookSwitch::start(false);
    switch.report(true);
    switch.report(false);
    assert_eq!(switch.step(), HookStep::Revert(Hook::Allocate));
    switch.report(true);
    assert_eq!(switch.step(), HookStep::Failed(Error::HookDisableFailed));
}
