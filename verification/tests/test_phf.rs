use charmap::{CharMapAction, CharMapper, MapCharsIter};

fn test_keys() -> [char; 4] {
    ['d', 'e', 'l', 'o']
}

fn test_actions() -> [CharMapAction<'static>; 4] {
    [
        CharMapAction::SubChar('m'),
        CharMapAction::SubStr("eeee"),
        CharMapAction::Delete,
        CharMapAction::Pass,
    ]
}

fn phf_hash_charmap() -> phf::Map<char, CharMapAction<'static>> {
    let keys = test_keys();
    let actions = test_actions();
    let state = phf_generator::generate_hash(&keys);
    let entries: Vec<(char, CharMapAction<'static>)> =
        state.map.iter().map(|&i| (keys[i], actions[i])).collect();
    phf::Map {
        key: state.key,
        disps: Box::leak(state.disps.into_boxed_slice()),
        entries: Box::leak(entries.into_boxed_slice()),
    }
}

fn phf_ordered_charmap() -> phf::OrderedMap<char, CharMapAction<'static>> {
    let keys = test_keys();
    let actions = test_actions();
    let state = phf_generator::generate_hash(&keys);
    let entries: Vec<(char, CharMapAction<'static>)> =
        keys.iter().copied().zip(actions.iter().copied()).collect();
    phf::OrderedMap {
        key: state.key,
        disps: Box::leak(state.disps.into_boxed_slice()),
        idxs: Box::leak(state.map.into_boxed_slice()),
        entries: Box::leak(entries.into_boxed_slice()),
    }
}

fn test_strings_pass() -> [(&'static str, &'static str); 8] {
    [
        ("", ""),
        ("ddddd", "mmmmm"),
        ("ee", "eeeeeeee"),
        ("lllllll", ""),
        ("ooooo", "ooooo"),
        ("teehee", "teeeeeeeeheeeeeeee"),
        ("Hello, world!", "Heeeeo, worm!"),
        ("Foo Bar", "Foo Bar"),
    ]
}

fn test_strings_delete() -> [(&'static str, &'static str); 8] {
    [
        ("", ""),
        ("ddddd", "mmmmm"),
        ("ee", "eeeeeeee"),
        ("lllllll", ""),
        ("ooooo", "ooooo"),
        ("teehee", "eeeeeeeeeeeeeeee"),
        ("Hello, world!", "eeeeoom"),
        ("Foo Bar", "oo"),
    ]
}

fn test_strings_sub_x() -> [(&'static str, &'static str); 8] {
    [
        ("", ""),
        ("ddddd", "mmmmm"),
        ("ee", "eeeeeeee"),
        ("lllllll", ""),
        ("ooooo", "ooooo"),
        ("teehee", "xeeeeeeeexeeeeeeee"),
        ("Hello, world!", "xeeeeoxxxoxmx"),
        ("Foo Bar", "xooxxxx"),
    ]
}

fn test_chars_pass() -> [(char, &'static str); 5] {
    [('m', "m"), ('e', "eeee"), ('l', ""), ('o', "o"), ('n', "n")]
}

fn test_chars_delete() -> [(char, &'static str); 5] {
    [('m', ""), ('e', "eeee"), ('l', ""), ('o', "o"), ('n', "")]
}

fn test_chars_sub_x() -> [(char, &'static str); 5] {
    [('m', "x"), ('e', "eeee"), ('l', ""), ('o', "o"), ('n', "x")]
}

#[test]
fn phf_hashmap_default_pass() {
    let charmap = phf_hash_charmap();
    let mapper = CharMapper::new(&charmap, CharMapAction::Pass);

    for (input, expected) in test_strings_pass() {
        let mapped: String = input.map_chars(&mapper).collect_string();
        assert_eq!(mapped, expected);

        let mapped: String = input.chars().map_chars(&mapper).collect_string();
        assert_eq!(mapped, expected);
    }

    for (input, expected) in test_chars_pass() {
        let mapped: String = input.map_chars(&mapper).collect_string();
        assert_eq!(mapped, expected);
    }
}

#[test]
fn phf_hashmap_default_delete() {
    let charmap = phf_hash_charmap();
    let mapper = CharMapper::new(&charmap, CharMapAction::Delete);

    for (input, expected) in test_strings_delete() {
        let mapped: String = input.map_chars(&mapper).collect_string();
        assert_eq!(mapped, expected);

        let mapped: String = input.chars().map_chars(&mapper).collect_string();
        assert_eq!(mapped, expected);
    }

    for (input, expected) in test_chars_delete() {
        let mapped: String = input.map_chars(&mapper).collect_string();
        assert_eq!(mapped, expected);
    }
}

#[test]
fn phf_hashmap_default_sub_x() {
    let charmap = phf_hash_charmap();
    let mapper = CharMapper::new(&charmap, CharMapAction::SubStr("x"));

    for (input, expected) in test_strings_sub_x() {
        let mapped: String = input.map_chars(&mapper).collect_string();
        assert_eq!(mapped, expected);

        let mapped: String = input.chars().map_chars(&mapper).collect_string();
        assert_eq!(mapped, expected);
    }

    for (input, expected) in test_chars_sub_x() {
        let mapped: String = input.map_chars(&mapper).collect_string();
        assert_eq!(mapped, expected);
    }
}

#[test]
fn phf_hashmap_default_sub_empty() {
    let charmap = phf_hash_charmap();
    let mapper = CharMapper::new(&charmap, CharMapAction::SubStr(""));

    for (input, expected) in test_strings_delete() {
        let mapped: String = input.map_chars(&mapper).collect_string();
        assert_eq!(mapped, expected);

        let mapped: String = input.chars().map_chars(&mapper).collect_string();
        assert_eq!(mapped, expected);
    }

    for (input, expected) in test_chars_delete() {
        let mapped: String = input.map_chars(&mapper).collect_string();
        assert_eq!(mapped, expected);
    }
}

#[test]
fn phf_orderedmap_default_pass() {
    let charmap = phf_ordered_charmap();
    let mapper = CharMapper::new(&charmap, CharMapAction::Pass);

    for (input, expected) in test_strings_pass() {
        let mapped: String = input.map_chars(&mapper).collect_string();
        assert_eq!(mapped, expected);

        let mapped: String = input.chars().map_chars(&mapper).collect_string();
        assert_eq!(mapped, expected);
    }

    for (input, expected) in test_chars_pass() {
        let mapped: String = input.map_chars(&mapper).collect_string();
        assert_eq!(mapped, expected);
    }
}

#[test]
fn phf_orderedmap_default_delete() {
    let charmap = phf_ordered_charmap();
    let mapper = CharMapper::new(&charmap, CharMapAction::Delete);

    for (input, expected) in test_strings_delete() {
        let mapped: String = input.map_chars(&mapper).collect_string();
        assert_eq!(mapped, expected);

        let mapped: String = input.chars().map_chars(&mapper).collect_string();
        assert_eq!(mapped, expected);
    }

    for (input, expected) in test_chars_delete() {
        let mapped: String = input.map_chars(&mapper).collect_string();
        assert_eq!(mapped, expected);
    }
}

#[test]
fn phf_orderedmap_default_sub_x() {
    let charmap = phf_ordered_charmap();
    let mapper = CharMapper::new(&charmap, CharMapAction::SubStr("x"));

    for (input, expected) in test_strings_sub_x() {
        let mapped: String = input.map_chars(&mapper).collect_string();
        assert_eq!(mapped, expected);

        let mapped: String = input.chars().map_chars(&mapper).collect_string();
        assert_eq!(mapped, expected);
    }

    for (input, expected) in test_chars_sub_x() {
        let mapped: String = input.map_chars(&mapper).collect_string();
        assert_eq!(mapped, expected);
    }
}

#[test]
fn phf_orderedmap_default_sub_empty() {
    let charmap = phf_ordered_charmap();
    let mapper = CharMapper::new(&charmap, CharMapAction::SubStr(""));

    for (input, expected) in test_strings_delete() {
        let mapped: String = input.map_chars(&mapper).collect_string();
        assert_eq!(mapped, expected);

        let mapped: String = input.chars().map_chars(&mapper).collect_string();
        assert_eq!(mapped, expected);
    }

    for (input, expected) in test_chars_delete() {
        let mapped: String = input.map_chars(&mapper).collect_string();
        assert_eq!(mapped, expected);
    }
}
