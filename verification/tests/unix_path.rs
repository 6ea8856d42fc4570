use polkadot_kit::unix_path::{join, pop};
use std::path::PathBuf;

/// All texts of up to `len` characters over a small alphabet.
fn texts(len: usize) -> Vec<String> {
    let mut all = vec![String::new()];
    let mut last = vec![String::new()];
    for _ in 0..len {
        let mut next = Vec::new();
        for text in &last {
            for letter in ['/', '.', 'a', 'b'] {
                let mut longer = text.clone();
                longer.push(letter);
                next.push(longer);
            }
        }
        all.extend(next.iter().cloned());
        last = next;
    }
    all
}

fn text_of(path: &PathBuf) -> String {
    path.to_str().unwrap().to_string()
}

#[test]
fn pop_agrees_with_the_standard_library() {
    for text in texts(6) {
        let mut ours = text.as_bytes().to_vec();
        let mut theirs = PathBuf::from(&text);
        let dropped = pop(&mut ours);
        assert_eq!(dropped, theirs.pop(), "{:?}", text);
        assert_eq!(String::from_utf8(ours).unwrap(), text_of(&theirs), "{:?}", text);
    }
}

#[test]
fn join_agrees_with_the_standard_library() {
    let names = texts(3);
    for dir in texts(3) {
        for name in &names {
            let ours = join(dir.as_bytes(), name.as_bytes());
            let mut theirs = PathBuf::from(&dir);
            theirs.push(name);
            assert_eq!(String::from_utf8(ours).unwrap(), text_of(&theirs), "{:?} {:?}", dir, name);
        }
    }
}

#[test]
fn popping_undoes_joining_a_plain_name() {
    let mut path = join(b"/usr/bin", b"polkadot");
    assert_eq!(path, b"/usr/bin/polkadot".to_vec());
    assert!(pop(&mut path));
    assert_eq!(path, b"/usr/bin".to_vec());
}

#[test]
fn the_root_has_nothing_to_drop() {
    for text in ["", "/", "//", "/.", "/./."] {
        let mut path = text.as_bytes().to_vec();
        assert!(!pop(&mut path));
        assert_eq!(path, text.as_bytes().to_vec());
    }
}

#[test]
fn dropping_keeps_the_beginning() {
    let mut path = b"/a//b/./".to_vec();
    assert!(pop(&mut path));
    assert_eq!(path, b"/a".to_vec());
}
