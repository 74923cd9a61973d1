use meta_remap::event::{Direction, SyntheticKeyEvent};
use meta_remap::hook::{
    ACTION_CODE, KEY_DOWN_MESSAGE, KEY_UP_MESSAGE, SYSTEM_KEY_DOWN_MESSAGE, SYSTEM_KEY_UP_MESSAGE,
};
use meta_remap::injector::{descriptor, KEY_UP_FLAG};
use meta_remap::keys::{LEFT_CONTROL, LEFT_META, RIGHT_CONTROL, RIGHT_META};
use windows::Win32::UI::Input::KeyboardAndMouse::{
    KEYBDINPUT, KEYBD_EVENT_FLAGS, KEYEVENTF_KEYUP, VIRTUAL_KEY, VK_LCONTROL, VK_LWIN,
    VK_RCONTROL, VK_RWIN,
};
use windows::Win32::UI::WindowsAndMessaging::{
    HC_ACTION, WM_KEYDOWN, WM_KEYUP, WM_SYSKEYDOWN, WM_SYSKEYUP,
};

#[test]
fn key_codes_are_those_of_the_platform() {
    assert_eq!(LEFT_META, VK_LWIN.0 as u32);
    assert_eq!(RIGHT_META, VK_RWIN.0 as u32);
    assert_eq!(LEFT_CONTROL, VK_LCONTROL.0);
    assert_eq!(RIGHT_CONTROL, VK_RCONTROL.0);
}

#[test]
fn hook_constants_are_those_of_the_platform() {
    assert_eq!(ACTION_CODE, HC_ACTION as i32);
    assert_eq!(KEY_DOWN_MESSAGE, WM_KEYDOWN as usize);
    assert_eq!(KEY_UP_MESSAGE, WM_KEYUP as usize);
    assert_eq!(SYSTEM_KEY_DOWN_MESSAGE, WM_SYSKEYDOWN as usize);
    assert_eq!(SYSTEM_KEY_UP_MESSAGE, WM_SYSKEYUP as usize);
    assert_eq!(KEY_UP_FLAG, KEYEVENTF_KEYUP.0);
}

#[test]
fn descriptor_fills_the_platform_record() {
    let input = descriptor(SyntheticKeyEvent { key: LEFT_CONTROL, direction: Direction::Up });
    let record = KEYBDINPUT {
        wVk: VIRTUAL_KEY(input.virtual_key),
        wScan: input.scan_code,
        dwFlags: KEYBD_EVENT_FLAGS(input.flags),
        time: input.time,
        dwExtraInfo: input.extra_info,
    };
    assert_eq!(record.wVk, VK_LCONTROL);
    assert_eq!(record.dwFlags, KEYEVENTF_KEYUP);
    assert_eq!(record.wScan, 0);
    assert_eq!(record.time, 0);
    assert_eq!(record.dwExtraInfo, 0);

    let input = descriptor(SyntheticKeyEvent { key: RIGHT_CONTROL, direction: Direction::Down });
    assert_eq!(VIRTUAL_KEY(input.virtual_key), VK_RCONTROL);
    assert_eq!(KEYBD_EVENT_FLAGS(input.flags), KEYBD_EVENT_FLAGS(0));
}
