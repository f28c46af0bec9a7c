use jit_unwind::bytes::{encode_uint, Endian};
use jit_unwind::call_site::{CallSite, UnwindKind};
use jit_unwind::custom::{check_sites_fit, CustomUnwinder, LandingPadLookup, SearchOutcome};
use jit_unwind::fast_lsda::{fast_personality, generate_fast_lsda, PersonalityOutcome};

const HOST_RETURN: u64 = 0x7000;
const DO_THROW: u64 = 0x1000;
const TRY_CATCH: u64 = 0x2000;

fn do_throw_sites() -> Vec<CallSite> {
    // `throw 42` calls the throw routine outside any protected region.
    vec![CallSite { ret_addr: 0x8, kind: UnwindKind::NoCleanup, landing_pad: 0 }]
}

fn try_catch_sites() -> Vec<CallSite> {
    // `try { try { do_throw() } finally { c = 1 } } catch e { r = e + c }`:
    // the call to do_throw sits in the finally region, the resume call at the
    // end of the cleanup pad in the catch region.
    vec![
        CallSite { ret_addr: 0x10, kind: UnwindKind::Cleanup, landing_pad: 0x40 },
        CallSite { ret_addr: 0x50, kind: UnwindKind::Catch, landing_pad: 0x80 },
    ]
}

fn registered() -> CustomUnwinder {
    let mut u = CustomUnwinder::new();
    u.register_function(DO_THROW, &do_throw_sites());
    u.register_function(TRY_CATCH, &try_catch_sites());
    u
}

#[test]
fn new_unwinder_has_no_entries() {
    let mut u = CustomUnwinder::new();
    assert!(!u.exception_happened());
    assert_eq!(u.payload(), 0);
    assert!(!u.knows(0x1234));
}

#[test]
fn lookup_by_kind() {
    let mut u = registered();
    u.throw(5);
    assert_eq!(u.find_landing_pad(DO_THROW + 0x8), LandingPadLookup::Continue);
    assert_eq!(u.find_landing_pad(TRY_CATCH + 0x10), LandingPadLookup::LandingPad(TRY_CATCH + 0x40));
    assert!(u.exception_happened());
    assert_eq!(u.find_landing_pad(TRY_CATCH + 0x50), LandingPadLookup::LandingPad(TRY_CATCH + 0x80));
    assert!(!u.exception_happened());
    assert!(!u.knows(TRY_CATCH + 0x51));
    assert!(u.knows(TRY_CATCH + 0x50));
}

#[test]
fn catcher_return_address_stops_the_walk() {
    let mut u = registered();
    assert!(!u.knows(HOST_RETURN));
    let saved = u.begin_catch(HOST_RETURN);
    assert_eq!(saved, 0);
    assert!(u.knows(HOST_RETURN));
    assert_eq!(u.find_landing_pad(HOST_RETURN), LandingPadLookup::Catcher);
}

#[test]
fn registering_twice_changes_nothing() {
    let mut u = registered();
    u.register_function(TRY_CATCH, &try_catch_sites());
    u.throw(1);
    assert_eq!(u.find_landing_pad(TRY_CATCH + 0x10), LandingPadLookup::LandingPad(TRY_CATCH + 0x40));
}

#[test]
fn normal_return_is_ok() {
    let mut u = registered();
    let saved = u.begin_catch(HOST_RETURN);
    assert_eq!(u.finish_catch(55, saved), Ok(55));
}

#[test]
fn uncaught_throw_is_err() {
    let mut u = registered();
    let saved = u.begin_catch(HOST_RETURN);
    u.throw(42);
    let frames = vec![DO_THROW + 0x8, HOST_RETURN];
    assert_eq!(u.search(&frames), SearchOutcome::ReachedCatcher { frame: 1 });
    assert_eq!(u.finish_catch(42, saved), Err(42));
}

#[test]
fn unregistered_frame_ends_the_search() {
    let mut u = registered();
    u.begin_catch(HOST_RETURN);
    u.throw(3);
    assert_eq!(u.search(&vec![DO_THROW + 0x8, 0x9999, HOST_RETURN]), SearchOutcome::NoEntry { frame: 1 });
    assert_eq!(u.search(&vec![DO_THROW + 0x8]), SearchOutcome::OutOfFrames);
}

#[test]
fn nested_catchers_restore_the_outer_one() {
    let mut u = registered();
    let outer = u.begin_catch(HOST_RETURN);
    let inner = u.begin_catch(0x7100);
    assert_eq!(inner, HOST_RETURN);
    assert_eq!(u.finish_catch(1, inner), Ok(1));
    assert_eq!(u.find_landing_pad(HOST_RETURN), LandingPadLookup::Catcher);
    assert_eq!(u.finish_catch(2, outer), Ok(2));
}

/// Runs `try_catch(1)` through the table-free unwinder.
fn try_catch_custom(u: &mut CustomUnwinder) -> Result<u64, u64> {
    let saved = u.begin_catch(HOST_RETURN);
    let mut c = 0;
    u.throw(42);
    let landing = u.search(&vec![DO_THROW + 0x8, TRY_CATCH + 0x10, HOST_RETURN]);
    assert_eq!(landing, SearchOutcome::Landed { frame: 1, landing_pad: TRY_CATCH + 0x40 });
    // The cleanup pad runs the finally block, then resumes unwinding.
    c += 1;
    let landing = u.search(&vec![TRY_CATCH + 0x50, HOST_RETURN]);
    assert_eq!(landing, SearchOutcome::Landed { frame: 0, landing_pad: TRY_CATCH + 0x80 });
    // The catch pad binds e to the payload and the function returns r.
    let r = u.payload() + c;
    u.finish_catch(r, saved)
}

#[test]
fn try_catch_with_finally_returns_43() {
    let mut u = registered();
    assert_eq!(try_catch_custom(&mut u), Ok(43));
}

#[test]
fn try_catch_with_finally_fast_tables() {
    let e = Endian::Little;
    let mut table = generate_fast_lsda(&try_catch_sites(), e);
    table[..8].copy_from_slice(&encode_uint(TRY_CATCH, 8, e));
    let exc = 0xe000;
    // Search phase: the cleanup frame is passed, the catch frame handles.
    assert_eq!(fast_personality(&table, TRY_CATCH + 0x10, 1, exc, e), PersonalityOutcome::ContinueUnwind);
    // Cleanup phase: the finally pad is installed.
    assert_eq!(
        fast_personality(&table, TRY_CATCH + 0x10, 2, exc, e),
        PersonalityOutcome::InstallContext { ip: TRY_CATCH + 0x40, exception: exc }
    );
    // After the finally block resumes, the catch pad is found and installed.
    assert_eq!(fast_personality(&table, TRY_CATCH + 0x50, 1, exc, e), PersonalityOutcome::HandlerFound);
    assert_eq!(
        fast_personality(&table, TRY_CATCH + 0x50, 2 | 4, exc, e),
        PersonalityOutcome::InstallContext { ip: TRY_CATCH + 0x80, exception: exc }
    );
}

#[test]
fn many_throws_each_caught() {
    let mut u = CustomUnwinder::new();
    let bench = 0x3000;
    u.register_function(DO_THROW, &do_throw_sites());
    u.register_function(bench, &vec![CallSite { ret_addr: 0x20, kind: UnwindKind::Catch, landing_pad: 0x30 }]);
    let saved = u.begin_catch(HOST_RETURN);
    let frames = vec![DO_THROW + 0x8, bench + 0x20, HOST_RETURN];
    let mut n: u64 = 100_000;
    while n != 0 {
        u.throw(42);
        assert_eq!(u.search(&frames), SearchOutcome::Landed { frame: 1, landing_pad: bench + 0x30 });
        n -= 1;
    }
    assert_eq!(u.finish_catch(0, saved), Ok(0));
}

#[test]
fn sites_must_fit_in_the_address_space() {
    assert!(check_sites_fit(TRY_CATCH, &try_catch_sites()));
    assert!(check_sites_fit(u64::MAX - 0x80, &try_catch_sites()));
    assert!(!check_sites_fit(u64::MAX - 0x7f, &try_catch_sites()));
    assert!(check_sites_fit(u64::MAX, &vec![]));
}
