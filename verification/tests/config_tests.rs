use oxide_dock::config::{
    flatten_shortcuts, link_buffer_target, split_link_name, with_pinned, Category, Config, Shortcut,
};

fn shortcut(name: &str, path: &str) -> Shortcut {
    Shortcut { name: name.to_string(), path: path.to_string() }
}

#[test]
fn with_pinned_empty_keeps_config() {
    let config = Config {
        categories: vec![Category { name: "Tools".to_string(), shortcuts: vec![shortcut("a", "a.exe")] }],
    };
    let merged = with_pinned(config, vec![]);
    assert_eq!(merged.categories.len(), 1);
    assert_eq!(merged.categories[0].name, "Tools");
}

#[test]
fn with_pinned_appends_category() {
    let config = Config {
        categories: vec![Category { name: "Tools".to_string(), shortcuts: vec![shortcut("a", "a.exe")] }],
    };
    let merged = with_pinned(config, vec![shortcut("p", "p.exe"), shortcut("q", "q.exe")]);
    assert_eq!(merged.categories.len(), 2);
    assert_eq!(merged.categories[0].name, "Tools");
    assert_eq!(merged.categories[1].name, "Pinned");
    assert_eq!(merged.categories[1].shortcuts.len(), 2);
    assert_eq!(merged.categories[1].shortcuts[0].name, "p");
}

// Flattening keeps category order and in-category order: that order is
// the icons' stable index assignment.
#[test]
fn flatten_keeps_order() {
    let config = Config {
        categories: vec![
            Category { name: "A".to_string(), shortcuts: vec![shortcut("a1", "1"), shortcut("a2", "2")] },
            Category { name: "B".to_string(), shortcuts: vec![] },
            Category { name: "C".to_string(), shortcuts: vec![shortcut("c1", "3")] },
        ],
    };
    let flat = flatten_shortcuts(&config);
    let names: Vec<&str> = flat.iter().map(|s| s.name.as_str()).collect();
    assert_eq!(names, vec!["a1", "a2", "c1"]);
}

#[test]
fn split_link_name_accepts_lnk() {
    let stem = split_link_name(&b"notepad.lnk".to_vec());
    assert_eq!(stem, Some(b"notepad".to_vec()));
    assert_eq!(split_link_name(&b".lnk".to_vec()), Some(Vec::new()));
}

#[test]
fn split_link_name_rejects_others() {
    assert_eq!(split_link_name(&b"notepad.exe".to_vec()), None);
    assert_eq!(split_link_name(&b"lnk".to_vec()), None);
    assert_eq!(split_link_name(&b"".to_vec()), None);
    assert_eq!(split_link_name(&b"x.LNK".to_vec()), None);
}

#[test]
fn link_buffer_trims_zero_padding() {
    let mut buf: Vec<u16> = vec![0, 0];
    buf.extend("C:\\x.exe".encode_utf16());
    buf.extend([0u16; 5]);
    let target = link_buffer_target(&buf);
    let expected: Vec<u16> = "C:\\x.exe".encode_utf16().collect();
    assert_eq!(target, Some(expected));
}

#[test]
fn link_buffer_all_zero_is_none() {
    assert_eq!(link_buffer_target(&vec![0u16; 260]), None);
    assert_eq!(link_buffer_target(&Vec::new()), None);
}

// The verified UTF-16 encoder agrees with the standard library's,
// surrogate pairs and terminator included.
#[test]
fn to_wide_matches_std_utf16() {
    for s in ["", "C:\\Program Files\\app.exe", "caf\u{e9} \u{20ac} \u{1F600}", "\u{10FFFF}"] {
        let chars: Vec<char> = s.chars().collect();
        let expected: Vec<u16> = s.encode_utf16().chain(std::iter::once(0)).collect();
        assert_eq!(oxide_dock::config::to_wide(&chars), expected);
    }
}
