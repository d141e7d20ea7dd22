use openbolo::devices::{device_list, find_device, DeviceInfo};
use openbolo::trim::{backward_windows, forward_windows, trim_range};

#[test]
fn front_windows_step_by_half_a_window() {
    assert_eq!(forward_windows(0), vec![]);
    assert_eq!(forward_windows(100), vec![(0, 100)]);
    assert_eq!(forward_windows(240), vec![(0, 240)]);
    assert_eq!(forward_windows(600), vec![(0, 480), (240, 600), (480, 600)]);
    assert_eq!(forward_windows(960), vec![(0, 480), (240, 720), (480, 960), (720, 960)]);
}

#[test]
fn back_windows_end_after_each_scanned_sample() {
    assert_eq!(backward_windows(0), vec![]);
    assert_eq!(backward_windows(1), vec![(0, 1)]);
    assert_eq!(backward_windows(600), vec![(119, 600), (0, 360), (0, 120)]);
    assert_eq!(backward_windows(241), vec![(0, 241), (0, 1)]);
}

#[test]
fn trimmed_range_between_first_loud_windows() {
    // 600 samples: front windows start at 0, 240, 480; back windows end at 600, 360, 120
    assert_eq!(trim_range(600, &vec![false, true, true], &vec![false, true, true]), Some((240, 360)));
    assert_eq!(trim_range(600, &vec![true, false, false], &vec![true, false, false]), Some((0, 600)));
    // the loud front window starts after the loud back window ends: nothing kept
    assert_eq!(trim_range(600, &vec![false, false, true], &vec![false, false, true]), None);
    // silence throughout: nothing is kept
    assert_eq!(trim_range(600, &vec![false, false, false], &vec![false, false, false]), None);
    assert_eq!(trim_range(2000, &vec![false; 9], &vec![false; 9]), None);
    // where only one scan finds a loud window, the other end stays put
    assert_eq!(trim_range(600, &vec![false, false, false], &vec![false, true, false]), Some((0, 360)));
    assert_eq!(trim_range(600, &vec![false, true, false], &vec![false, false, false]), Some((240, 600)));
    assert_eq!(trim_range(241, &vec![false, true], &vec![false, false]), Some((240, 241)));
    assert_eq!(trim_range(0, &vec![], &vec![]), None);
}

#[test]
fn trimmed_range_of_a_short_recording() {
    assert_eq!(trim_range(100, &vec![true], &vec![true]), Some((0, 100)));
    assert_eq!(trim_range(100, &vec![false], &vec![true]), Some((0, 100)));
    assert_eq!(trim_range(100, &vec![false], &vec![false]), None);
}

#[test]
fn device_entries_mark_the_default() {
    let names = vec![
        Some("Built-in Microphone".to_string()),
        None,
        Some("USB Mic".to_string()),
    ];
    let list = device_list(&names, &Some("USB Mic".to_string()));
    assert_eq!(
        list,
        vec![
            DeviceInfo { name: "Built-in Microphone".to_string(), is_default: false },
            DeviceInfo { name: "USB Mic".to_string(), is_default: true },
        ]
    );
    let list = device_list(&names, &None);
    assert_eq!(list.len(), 2);
    assert!(list.iter().all(|d| !d.is_default));
    assert_eq!(device_list(&vec![], &Some("x".to_string())), vec![]);
    let d = list[0].clone();
    assert_eq!(d, list[0]);
}

#[test]
fn device_found_by_first_readable_name() {
    let names = vec![
        None,
        Some("USB Mic".to_string()),
        Some("Built-in Microphone".to_string()),
        Some("USB Mic".to_string()),
    ];
    assert_eq!(find_device(&names, "USB Mic"), Some(1));
    assert_eq!(find_device(&names, "Built-in Microphone"), Some(2));
    assert_eq!(find_device(&names, "usb mic"), None);
    assert_eq!(find_device(&names, ""), None);
    assert_eq!(find_device(&vec![], "USB Mic"), None);
}
