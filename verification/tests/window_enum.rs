use galahad_encoder::window_enum::{list_windows, WindowRecord};

fn record(id: isize, title: &str, path: Option<&str>) -> WindowRecord {
    WindowRecord {
        id,
        visible: true,
        owned: false,
        title: title.into(),
        pid: 100 + id as u32,
        path: path.map(str::to_string),
    }
}

#[test]
fn lists_titled_top_level_windows_by_process() {
    let mut hidden = record(9, "hidden", Some("C:\\a\\hidden.exe"));
    hidden.visible = false;
    let mut owned = record(8, "tool", Some("C:\\a\\tool.exe"));
    owned.owned = true;
    let records = vec![
        record(1, "Zed", Some("C:\\z\\Zed.exe")),
        record(2, "First", Some("C:/games/CS2.exe")),
        hidden,
        record(3, "  ", Some("C:\\blank.exe")),
        owned,
        record(4, "Second", Some("D:\\other\\cs2.exe")),
        record(5, "No path", None),
        record(6, "App", Some("app.exe")),
    ];
    let listed: Vec<(isize, String)> =
        list_windows(&records).into_iter().map(|w| (w.id, w.process_name)).collect();
    assert_eq!(
        listed,
        vec![
            (6, "app.exe".to_string()),
            (2, "CS2.exe".to_string()),
            (4, "cs2.exe".to_string()),
            (5, "unknown".to_string()),
            (1, "Zed.exe".to_string()),
        ]
    );
}

#[test]
fn a_window_of_no_process_is_unknown() {
    let mut w = record(1, "Title", Some("C:\\x.exe"));
    w.pid = 0;
    let listed = list_windows(&vec![w]);
    assert_eq!(listed[0].process_name, "unknown");
    assert_eq!(listed[0].title, "Title");
    assert_eq!(listed[0].pid, 0);
}
