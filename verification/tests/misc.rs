use glib::construct_cell::ConstructCell;
use glib::enums::UserDirectory;
use glib::exit_code::ExitCode;
use glib::quark::{option_quark_into_glib, GlibNoneError, Quark};
use glib::source::{fnmut_callback_wrapper, fnmut_callback_wrapper_local, Continue, Pid, Priority, SourceId};

#[test]
fn exit_codes() {
    assert_eq!(ExitCode::success().value(), 0);
    assert_eq!(ExitCode::failure().value(), 1);
    assert_eq!(ExitCode::from_i32(42).into_i32(), 42);
    assert_eq!(ExitCode::from_i32(42).exit_byte(), 42);
    assert_eq!(ExitCode::from_i32(-3).exit_byte(), 255);
    assert_eq!(ExitCode::from_i32(300).exit_byte(), 255);
    assert_eq!(i32::from(ExitCode::from(7)), 7);
    assert_eq!(ExitCode::continue_().value(), -1);
}

#[test]
fn quarks() {
    let q = Quark::from_glib(7);
    assert_eq!(q.into_glib(), 7);
    assert_eq!(Quark::try_from_glib(0), Err(GlibNoneError));
    assert_eq!(Quark::try_from_glib(9).map(|q| q.into_glib()), Ok(9));
    assert_eq!(option_quark_into_glib(None), 0);
    assert_eq!(option_quark_into_glib(Some(Quark::from_glib(3))), 3);
    assert!(Quark::from_glib(1) < Quark::from_glib(2));
}

#[test]
fn user_directories() {
    assert_eq!(UserDirectory::Desktop.into_glib(), 0);
    assert_eq!(UserDirectory::Downloads.into_glib(), 2);
    assert_eq!(UserDirectory::Videos.into_glib(), 7);
    assert_eq!(UserDirectory::NDirectories.into_glib(), 8);
}

#[test]
fn construct_cells() {
    let mut c: ConstructCell<i32> = ConstructCell::new_empty();
    assert_eq!(c.value(), None);
    c.set(5);
    assert_eq!(c.get(|v| *v + 1), 6);
    assert_eq!(c.take(), Some(5));
    assert_eq!(c.value(), None);
    let d = ConstructCell::new("x");
    assert_eq!(d.value(), Some(&"x"));
    let e: ConstructCell<u8> = Default::default();
    assert_eq!(e.value(), None);
}

#[test]
fn sources_and_priorities() {
    let id = SourceId::from_glib(12);
    assert_eq!(id.as_raw(), 12);
    assert_eq!(Continue(true).into_glib(), 1);
    assert_eq!(Continue(false).into_glib(), 0);
    assert_eq!(Priority::high().into_glib(), -100);
    assert_eq!(Priority::default().into_glib(), 0);
    assert_eq!(Priority::default_priority(), Priority::default());
    assert_eq!(Priority::high_idle().into_glib(), 100);
    assert_eq!(Priority::default_idle().into_glib(), 200);
    assert_eq!(Priority::low().into_glib(), 300);
    assert_eq!(Priority::from_glib(5).into_glib(), 5);
}

#[test]
fn once_callbacks_run_once() {
    let mut hits = 0;
    {
        let mut cb = fnmut_callback_wrapper_local(|| hits += 1);
        assert_eq!(cb.call(), Continue(false));
    }
    assert_eq!(hits, 1);
    let mut cb2 = fnmut_callback_wrapper(|| ());
    assert_eq!(cb2.call(), Continue(false));
}

#[test]
fn process_ids() {

    assert_eq!(Pid::from_glib(42).into_glib(), 42);
    assert_eq!(Pid(7), Pid::from_glib(7));
}
