use tally_odbc_relay::driver::{
    dat_is_newer, dll_path_for_dat, ensure_dll_driver, is_dat_path, is_dll_path, DriverAction,
    DriverEvent, DriverFix, DriverFixError, FixStage, RegistryFailure,
};

const INST_KEY: &str = r"Software\ODBC\ODBCINST.INI\Tally ODBC Driver64";
const DSN_KEY: &str = r"Software\ODBC\ODBC.INI\TallyODBC64_9000";
const DAT: &str = r"C:\Program Files\TallyPrime\TallyWin.Dat";
const DLL: &str = r"C:\Program Files\TallyPrime\TallyWin.dll";

fn feed(fix: &mut DriverFix, event: DriverEvent) -> DriverAction {
    assert!(fix.accepts(&event));
    fix.step(event)
}

fn expect_read(action: DriverAction, key: &str, name: &str) {
    match action {
        DriverAction::ReadValue { key: k, name: n } => {
            assert_eq!(k, key);
            assert_eq!(n, name);
        }
        other => panic!("expected ReadValue, got {:?}", other),
    }
}

fn expect_check(action: DriverAction, path: &str) {
    match action {
        DriverAction::CheckFile { path: p } => assert_eq!(p, path),
        other => panic!("expected CheckFile {}, got {:?}", path, other),
    }
}

fn expect_write(action: DriverAction, key: &str, name: &str, value: &str) {
    match action {
        DriverAction::WriteValue { key: k, name: n, value: v } => {
            assert_eq!(k, key);
            assert_eq!(n, name);
            assert_eq!(v, value);
        }
        other => panic!("expected WriteValue, got {:?}", other),
    }
}

fn finished(action: DriverAction) -> Result<Option<String>, String> {
    match action {
        DriverAction::Finish(r) => r.map_err(|e| e.message()),
        other => panic!("expected Finish, got {:?}", other),
    }
}

/// Starts a fix and answers the registry reads.
fn start(inst: Option<&str>, dsn_lower: Option<&str>, dsn_upper: Option<&str>) -> (DriverFix, DriverAction) {
    let (mut fix, a) = ensure_dll_driver("TallyODBC64_9000");
    expect_read(a, INST_KEY, "Driver");
    let a = feed(&mut fix, DriverEvent::Value(inst.map(|s| s.to_string())));
    expect_read(a, DSN_KEY, "driver");
    let mut a = feed(&mut fix, DriverEvent::Value(dsn_lower.map(|s| s.to_string())));
    if dsn_lower.is_none() {
        expect_read(a, DSN_KEY, "Driver");
        a = feed(&mut fix, DriverEvent::Value(dsn_upper.map(|s| s.to_string())));
    }
    (fix, a)
}

#[test]
fn detects_dat_and_dll_suffixes() {
    assert!(is_dat_path(r"C:\Program Files\TallyPrime\TallyWin.Dat"));
    assert!(is_dat_path("TallyWin.dat"));
    assert!(is_dll_path(r"C:\Program Files\TallyPrime\TallyWin.dll"));
    assert!(!is_dll_path(r"C:\Program Files\TallyPrime\TallyWin.Dat"));
}

#[test]
fn maps_dat_to_sibling_dll() {
    let dll = dll_path_for_dat("TallyWin.Dat");
    assert_eq!(dll, "TallyWin.dll");
}

#[test]
fn paths_without_the_extension_are_neither() {
    assert!(!is_dll_path("TallyWin"));
    assert!(!is_dat_path(".dat"));
    assert!(!is_dll_path("TallyWin.dllx"));
    assert_eq!(dll_path_for_dat("TallyWin"), "TallyWin.dll");
}

#[test]
fn size_comparison_decides_the_copy() {
    assert!(!dat_is_newer(Some(12), Some(12)));
    assert!(dat_is_newer(Some(15), Some(12)));
    assert!(dat_is_newer(None, Some(12)));
    assert!(dat_is_newer(Some(12), None));
}

#[test]
fn registered_dll_already_in_place_needs_nothing() {
    let (mut fix, a) = start(Some(DLL), Some(DLL), None);
    expect_check(a, DLL);
    assert_eq!(finished(feed(&mut fix, DriverEvent::IsFile(true))), Ok(None));
    assert_eq!(fix.stage(), FixStage::Done);
}

#[test]
fn registered_dll_gets_the_dsn_pointed_at_it() {
    let (mut fix, a) = start(Some(DLL), None, Some(DAT));
    expect_check(a, DLL);
    expect_write(feed(&mut fix, DriverEvent::IsFile(true)), DSN_KEY, "driver", DLL);
    assert_eq!(
        finished(feed(&mut fix, DriverEvent::Written(Ok(())))),
        Ok(Some(format!("pointed DSN TallyODBC64_9000 at {DLL}")))
    );
}

#[test]
fn registered_dat_is_copied_and_registered() {
    let (mut fix, a) = start(Some(DAT), Some(DAT), None);
    expect_check(a, DAT);
    expect_check(feed(&mut fix, DriverEvent::IsFile(true)), DLL);
    match feed(&mut fix, DriverEvent::IsFile(false)) {
        DriverAction::Copy { from, to } => {
            assert_eq!(from, DAT);
            assert_eq!(to, DLL);
        }
        other => panic!("unexpected {:?}", other),
    }
    expect_write(feed(&mut fix, DriverEvent::Copied(Ok(()))), INST_KEY, "Driver", DLL);
    expect_write(feed(&mut fix, DriverEvent::Written(Ok(()))), DSN_KEY, "driver", DLL);
    match feed(&mut fix, DriverEvent::Written(Ok(()))) {
        DriverAction::RegisterDriver { key, name, value } => {
            assert_eq!(key, r"Software\ODBC\ODBCINST.INI\ODBC Drivers");
            assert_eq!(name, "Tally ODBC Driver64");
            assert_eq!(value, "Installed");
        }
        other => panic!("unexpected {:?}", other),
    }
    assert_eq!(
        finished(feed(&mut fix, DriverEvent::Registered)),
        Ok(Some(format!("prepared Wine-compatible ODBC driver at {DLL}")))
    );
}

#[test]
fn up_to_date_dll_is_not_copied_again() {
    let (mut fix, a) = start(Some(DAT), Some(DAT), None);
    expect_check(a, DAT);
    expect_check(feed(&mut fix, DriverEvent::IsFile(true)), DLL);
    match feed(&mut fix, DriverEvent::IsFile(true)) {
        DriverAction::ReadLengths { dat, dll } => {
            assert_eq!(dat, DAT);
            assert_eq!(dll, DLL);
        }
        other => panic!("unexpected {:?}", other),
    }
    expect_write(
        feed(&mut fix, DriverEvent::Lengths { dat: Some(7), dll: Some(7) }),
        INST_KEY,
        "Driver",
        DLL,
    );
}

#[test]
fn changed_dat_is_copied_over_the_dll() {
    let (mut fix, _) = start(Some(DAT), Some(DAT), None);
    feed(&mut fix, DriverEvent::IsFile(true));
    feed(&mut fix, DriverEvent::IsFile(true));
    assert!(matches!(
        feed(&mut fix, DriverEvent::Lengths { dat: Some(15), dll: Some(12) }),
        DriverAction::Copy { .. }
    ));
}

#[test]
fn stale_dll_registration_leads_to_its_dat() {
    // The registry names a .dll that exists; its sibling .dat is the source.
    let dll_elsewhere = r"D:\Tally\TallyWin.DLL";
    let (mut fix, a) = start(Some(dll_elsewhere), Some(DAT), None);
    expect_check(a, dll_elsewhere);
    // The registered .dll is gone: look for a .dat instead.
    expect_check(feed(&mut fix, DriverEvent::IsFile(false)), dll_elsewhere);
    expect_check(feed(&mut fix, DriverEvent::IsFile(false)), dll_elsewhere);
    // Not a file either way: the DSN's value is followed next.
    expect_check(feed(&mut fix, DriverEvent::IsFile(false)), DAT);
    expect_check(feed(&mut fix, DriverEvent::IsFile(true)), DLL);
}

#[test]
fn existing_dll_value_leads_to_the_dat_beside_it() {
    let dll = r"D:\Tally\TallyWin.dll";
    let dat = r"D:\Tally\TallyWin.dat";
    let (mut fix, _) = start(None, Some(dll), None);
    // FirstCheck: it is a file, but not a .dat.
    expect_check(feed(&mut fix, DriverEvent::IsFile(true)), dll);
    // SecondCheck: a .dll that exists: its .dat sibling is checked.
    expect_check(feed(&mut fix, DriverEvent::IsFile(true)), dat);
    expect_check(feed(&mut fix, DriverEvent::IsFile(true)), dll);
}

#[test]
fn relative_dat_value_is_searched_for() {
    let (mut fix, a) = start(Some("TallyWin.Dat"), Some(DAT), None);
    expect_check(a, "TallyWin.Dat");
    expect_check(feed(&mut fix, DriverEvent::IsFile(false)), "TallyWin.Dat");
    expect_check(feed(&mut fix, DriverEvent::IsFile(false)), DAT);
    expect_check(
        feed(&mut fix, DriverEvent::IsFile(false)),
        r"C:\Program Files\TallyPrimeEL\TallyWin.Dat",
    );
    expect_check(
        feed(&mut fix, DriverEvent::IsFile(true)),
        r"C:\Program Files\TallyPrimeEL\TallyWin.dll",
    );
}

#[test]
fn missing_absolute_dat_value_is_not_searched_for() {
    // An absolute path on this platform: when it is not a file, the
    // install locations are not searched on its account.
    let (mut fix, a) = start(Some("/opt/tally/TallyWin.dat"), None, None);
    expect_check(a, "/opt/tally/TallyWin.dat");
    expect_check(feed(&mut fix, DriverEvent::IsFile(false)), "/opt/tally/TallyWin.dat");
    // Straight to the fallback search of the install locations.
    expect_check(feed(&mut fix, DriverEvent::IsFile(false)), DAT);
    expect_check(
        feed(&mut fix, DriverEvent::IsFile(false)),
        r"C:\Program Files\TallyPrimeEL\TallyWin.Dat",
    );
    assert_eq!(fix.stage(), FixStage::FallbackSearch);
}

#[test]
fn nothing_found_is_an_error() {
    let (mut fix, a) = start(None, None, None);
    expect_check(a, DAT);
    expect_check(
        feed(&mut fix, DriverEvent::IsFile(false)),
        r"C:\Program Files\TallyPrimeEL\TallyWin.Dat",
    );
    expect_check(
        feed(&mut fix, DriverEvent::IsFile(false)),
        r"C:\Program Files (x86)\TallyPrime\TallyWin.Dat",
    );
    expect_check(
        feed(&mut fix, DriverEvent::IsFile(false)),
        r"C:\Program Files (x86)\TallyPrimeEL\TallyWin.Dat",
    );
    assert_eq!(
        finished(feed(&mut fix, DriverEvent::IsFile(false))),
        Err("could not find TallyWin.Dat next to the ODBC driver or in Program Files".to_string())
    );
}

#[test]
fn copy_failure_is_reported() {
    let (mut fix, _) = start(Some(DAT), Some(DAT), None);
    feed(&mut fix, DriverEvent::IsFile(true));
    feed(&mut fix, DriverEvent::IsFile(false));
    assert_eq!(
        finished(feed(&mut fix, DriverEvent::Copied(Err("Access is denied.".to_string())))),
        Err(format!("failed to copy {DAT} to {DLL}: Access is denied."))
    );
}

#[test]
fn registry_failures_are_reported() {
    let (mut fix, _) = start(Some(DAT), Some(DAT), None);
    feed(&mut fix, DriverEvent::IsFile(true));
    feed(&mut fix, DriverEvent::IsFile(false));
    feed(&mut fix, DriverEvent::Copied(Ok(())));
    assert_eq!(
        finished(feed(
            &mut fix,
            DriverEvent::Written(Err(RegistryFailure::SetValue("denied".to_string())))
        )),
        Err(format!(r"registry {INST_KEY}\Driver: denied"))
    );

    let (mut fix, _) = start(Some(DLL), Some(DAT), None);
    feed(&mut fix, DriverEvent::IsFile(true));
    assert_eq!(
        finished(feed(
            &mut fix,
            DriverEvent::Written(Err(RegistryFailure::OpenKey("denied".to_string())))
        )),
        Err(format!("registry {DSN_KEY}: denied"))
    );
}

#[test]
fn driver_fix_error_keeps_its_message() {
    let e = DriverFixError::from_msg("x".to_string());
    assert_eq!(e.message(), "x");
}

#[test]
fn events_out_of_turn_are_refused_by_the_fix() {
    let (fix, _) = ensure_dll_driver("X");
    assert!(!fix.accepts(&DriverEvent::IsFile(true)));
    assert!(!fix.accepts(&DriverEvent::Registered));
    assert!(fix.accepts(&DriverEvent::Value(None)));
}

#[test]
fn windows_dat_maps_to_the_dll_in_its_folder() {
    assert_eq!(dll_path_for_dat(DAT), DLL);
    assert_eq!(dll_path_for_dat(r"D:\Tally\Prime.7\TallyWin.DAT"), r"D:\Tally\Prime.7\TallyWin.dll");
    assert_eq!(dll_path_for_dat("archive.tar.Dat"), "archive.tar.dll");
}

#[test]
fn extension_is_read_after_the_last_separator() {
    assert!(is_dll_path(r"C:\Program Files\TallyPrime\TALLYWIN.DLL"));
    assert!(is_dat_path(r"C:\Program Files (x86)\TallyPrimeEL\TallyWin.Dat"));
    assert!(!is_dat_path(r"C:\Program Files\TallyPrime\TallyWin.Dat.bak"));
    assert!(!is_dll_path("C:/drivers/.dll"));
}

#[test]
fn no_path_is_both_a_dll_and_a_dat() {
    for p in [DAT, DLL, "TallyWin.dat", "x.DLL", "x.dAt", ".dat", "x", "x.dll.dat", "x.dat.dll"] {
        assert!(!(is_dll_path(p) && is_dat_path(p)), "{p}");
    }
}

#[test]
fn second_run_after_success_does_nothing() {
    // First run: the `.Dat` is registered and the `.dll` is prepared.
    let (mut fix, a) = start(Some(DAT), None, None);
    expect_check(a, DAT);
    expect_check(feed(&mut fix, DriverEvent::IsFile(true)), DLL);
    assert!(matches!(feed(&mut fix, DriverEvent::IsFile(false)), DriverAction::Copy { .. }));
    expect_write(feed(&mut fix, DriverEvent::Copied(Ok(()))), INST_KEY, "Driver", DLL);
    expect_write(feed(&mut fix, DriverEvent::Written(Ok(()))), DSN_KEY, "driver", DLL);
    assert!(matches!(
        feed(&mut fix, DriverEvent::Written(Ok(()))),
        DriverAction::RegisterDriver { .. }
    ));
    assert!(finished(feed(&mut fix, DriverEvent::Registered)).is_ok());
    // Second run: both values now name the existing `.dll`.
    let (mut again, a) = start(Some(DLL), Some(DLL), None);
    expect_check(a, DLL);
    assert_eq!(finished(feed(&mut again, DriverEvent::IsFile(true))), Ok(None));
}

#[test]
fn drive_relative_and_unc_dat_map_to_their_dll() {
    assert_eq!(dll_path_for_dat("C:TallyWin.Dat"), "C:TallyWin.dll");
    assert_eq!(dll_path_for_dat(r"\\srv\share\TallyWin.Dat"), r"\\srv\share\TallyWin.dll");
    assert!(is_dat_path(r"\\srv\share\TallyWin.Dat"));
    assert!(is_dll_path("C:TallyWin.dll"));
}
