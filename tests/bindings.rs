use ndless_async::fs::{File, FileAttr, FileDesc, FilePermissions, OpenOptions, SystemTime};
use ndless_async::hw::{has_colors, has_touchpad, hw_type, is_classic, is_cm, lcd_type, Screen, Type};
use ndless_async::image;
use ndless_async::input::{get_keys, key_index, raw_key_at, table_key, Key, TouchpadReport, KEY_COUNT};
use ndless_async::memchr::{memchr, memrchr};
use ndless_async::msg::Button;
use ndless_async::nsdl::FontOptions;
use ndless_async::process::{report_result, ProgramState, Termination};
use ndless_async::sdl::{init_mask, set_flags, Error, InitFlag, Rect};
use ndless_async::sys::{decode_error_kind, ErrorKind};

#[test]
fn hardware_decoding() {
    assert_eq!(hw_type(0), Type::Nspire);
    assert_eq!(hw_type(1), Type::NspireCX);
    assert_eq!(hw_type(7), Type::Future(7));
    assert!(is_classic(0));
    assert!(!has_colors(0));
    assert!(has_colors(1));
    assert!(is_cm(1));
    assert!(!is_cm(0));
    assert!(has_touchpad(1));
    assert!(!has_touchpad(0));
    assert_eq!(lcd_type(0), Screen::Screen320x240x565);
    assert_eq!(lcd_type(1), Screen::Screen320x240x4);
    assert_eq!(lcd_type(6), Screen::Screen240x320x555);
    assert_eq!(lcd_type(-1), Screen::Unknown);
}

#[test]
fn scan_table_lookups() {
    assert_eq!(KEY_COUNT, 91);
    assert_eq!(table_key(0), Key::Key0);
    assert_eq!(table_key(31), Key::Esc);
    assert_eq!(key_index(Key::Esc), 31);
    for i in 0..KEY_COUNT {
        assert_eq!(key_index(table_key(i)), i);
    }
    let esc = raw_key_at(31);
    assert_eq!((esc.row, esc.col, esc.tpad_row, esc.tpad_col, esc.tpad_arrow), (0x1C, 0x80, 0x1C, 0x80, 0));
    let click = raw_key_at(key_index(Key::Click));
    assert_eq!(click.tpad_arrow, 9);
}

#[test]
fn pressed_flags_to_keys() {
    let mut flags = vec![false; KEY_COUNT];
    flags[31] = true;
    flags[0] = true;
    flags[key_index(Key::Enter)] = true;
    assert_eq!(get_keys(&flags), vec![Key::Key0, Key::Enter, Key::Esc]);
    assert!(get_keys(&vec![false; KEY_COUNT]).is_empty());
}

#[test]
fn touchpad_reports() {
    assert_eq!(Key::from_arrow(9), Some(Key::Click));
    assert_eq!(Key::from_arrow(5), Some(Key::Down));
    assert_eq!(Key::from_arrow(0), None);
    let r = TouchpadReport::from_raw(2, 10, 300, 200, 1, 2, 3);
    assert!(r.contact);
    assert!(r.pressed);
    assert_eq!((r.proximity, r.x, r.y, r.x_vel, r.y_vel), (10, 300, 200, 1, 2));
    assert_eq!(r.arrow, Some(Key::Right));
    assert!(!TouchpadReport::from_raw(0, 0, 0, 0, 0, 0, 0).contact);
}

#[test]
fn byte_search() {
    let hay = b"the quick brown fox";
    assert_eq!(memchr(b'k', hay), Some(8));
    assert_eq!(memrchr(b'o', hay), Some(17));
    assert_eq!(memchr(b'z', hay), None);
    assert_eq!(memrchr(b'z', hay), None);
    assert_eq!(memrchr(b'a', b""), None);
}

#[test]
fn error_numbers() {
    assert_eq!(decode_error_kind(2), ErrorKind::NotFound);
    assert_eq!(decode_error_kind(1), ErrorKind::PermissionDenied);
    assert_eq!(decode_error_kind(13), ErrorKind::PermissionDenied);
    assert_eq!(decode_error_kind(11), ErrorKind::WouldBlock);
    assert_eq!(decode_error_kind(111), ErrorKind::ConnectionRefused);
    assert_eq!(decode_error_kind(9999), ErrorKind::Other);
}

#[test]
fn sdl_values() {
    assert_eq!(Rect::new(1, -2, 3, 4), Rect { x: 1, y: -2, w: 3, h: 4 });
    assert_eq!(ndless_async::sdl::Rect(5, 6, 7, 8), Rect { x: 5, y: 6, w: 7, h: 8 });
    assert_eq!(init_mask(&vec![InitFlag::Timer, InitFlag::Video]), 0x21);
    assert_eq!(init_mask(&vec![]), 0);
    assert_eq!(set_flags(0x21), vec![InitFlag::Timer, InitFlag::Video, InitFlag::Everything]);
    assert_eq!(set_flags(0x100000), vec![InitFlag::NoParachute]);
    assert_eq!(Error::Seek.code(), 3);
    assert_eq!(FontOptions::VGA.code(), 2);
    assert_eq!(image::init_mask(&vec![image::InitFlag::PNG, image::InitFlag::TIF]), 6);
    assert_eq!(image::set_flags(5), vec![image::InitFlag::JPG, image::InitFlag::TIF]);
}

#[test]
fn dialogs_and_exit_codes() {
    assert_eq!(Button::from_code(2, 3), Some(Button::Two));
    assert_eq!(Button::from_code(3, 2), None);
    assert_eq!(Button::from_code(0, 3), None);
    assert_eq!(Button::Three.code(), 3);
    assert_eq!(ProgramState::default(), ProgramState::Normal);
    assert_eq!(().report(), 0);
    assert_eq!(5i32.report(), 5);
    assert_eq!(report_result::<u8>(Ok(())), 0);
    assert_eq!(report_result(Err(4u8)), 1);
}

#[test]
fn file_metadata() {
    let attr = FileAttr { st_size: 12, st_mode: 0o644, st_atime: 1, st_mtime: 2, st_ctime: 3 };
    assert_eq!(attr.size(), 12);
    assert_eq!(attr.modified(), Ok(SystemTime { secs: 2 }));
    assert_eq!(attr.accessed(), Ok(SystemTime { secs: 1 }));
    assert_eq!(attr.created(), Ok(SystemTime { secs: 3 }));
    let f = File::from_fd(FileDesc::new(4));
    assert!(f.fsync().is_ok());
    assert!(f.datasync().is_ok());
    assert!(f.flush().is_ok());
    assert_eq!(f.fd().raw(), 4);
    assert_eq!(f.into_fd().raw(), 4);
}

#[test]
fn permissions_and_types() {
    let mut p = FilePermissions::from_mode(0o644);
    assert!(!p.readonly());
    p.set_readonly(true);
    assert_eq!(p.mode(), 0o444);
    assert!(p.readonly());
    p.set_readonly(false);
    assert_eq!(p.mode(), 0o666);
    let dir = FileAttr { st_size: 0, st_mode: 0o040755, st_atime: 0, st_mtime: 0, st_ctime: 0 };
    assert!(dir.file_type().is_dir());
    assert!(!dir.file_type().is_file());
    assert_eq!(dir.perm().mode(), 0o040755);
    let mut o = OpenOptions::new();
    assert_eq!(o.c_mode(), "r");
    o.write = true;
    assert_eq!(o.c_mode(), "w");
    o.read = true;
    assert_eq!(o.c_mode(), "r+");
    o.create = true;
    assert_eq!(o.c_mode(), "w+");
    o.append = true;
    assert_eq!(o.c_mode(), "a+");
    o.read = false;
    assert_eq!(o.c_mode(), "a");
}
