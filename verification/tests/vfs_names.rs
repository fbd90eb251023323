use helium::vfs::name::{InvalidName, Name};
use helium::vfs::path::{InvalidPath, Path};

fn name(s: &str) -> Name {
    Name::new(String::from(s)).unwrap()
}

#[test]
fn name_accepts_a_plain_name() {
    let n = Name::new(String::from("shell.elf")).unwrap();
    assert_eq!(n.as_str(), "shell.elf");
}

#[test]
fn name_rejects_empty() {
    assert_eq!(Name::validate(""), Err(InvalidName::Empty));
    assert!(matches!(Name::new(String::new()), Err(InvalidName::Empty)));
}

#[test]
fn name_rejects_slash_and_nul() {
    assert_eq!(Name::validate("a/b"), Err(InvalidName::InvalidChar));
    assert_eq!(Name::validate("a\0b"), Err(InvalidName::InvalidChar));
}

#[test]
fn name_length_limit_is_in_bytes() {
    let ok = "a".repeat(255);
    assert_eq!(Name::validate(&ok), Ok(()));
    let long = "a".repeat(256);
    assert_eq!(Name::validate(&long), Err(InvalidName::TooLong));
    // 128 two-byte characters: 256 bytes, though only 128 characters.
    let wide = "é".repeat(128);
    assert_eq!(Name::validate(&wide), Err(InvalidName::TooLong));
    let wide_ok = "é".repeat(127);
    assert_eq!(Name::validate(&wide_ok), Ok(()));
}

#[test]
fn name_too_long_wins_over_bad_char() {
    let mut s = "a".repeat(300);
    s.push('/');
    assert_eq!(Name::validate(&s), Err(InvalidName::TooLong));
}

#[test]
fn name_dots() {
    assert!(name(".").is_dot());
    assert!(!name(".").is_dot_dot());
    assert!(name("..").is_dot_dot());
    assert!(!name("...").is_dot());
    assert!(!name("...").is_dot_dot());
    assert!(name("abc").same_as(&name("abc")));
    assert!(!name("abc").same_as(&name("abd")));
}

#[test]
fn path_absolute_components() {
    let p = Path::new("/usr/bin/shell").unwrap();
    assert!(p.is_absolute());
    assert!(!p.is_relative());
    assert_eq!(p.count(), 3);
    let parts: Vec<&str> = p.iter().iter().map(|n| n.as_str()).collect();
    assert_eq!(parts, vec!["usr", "bin", "shell"]);
}

#[test]
fn path_relative_and_empty_components() {
    let p = Path::new("a//b/./").unwrap();
    assert!(p.is_relative());
    let parts: Vec<&str> = p.iter().iter().map(|n| n.as_str()).collect();
    assert_eq!(parts, vec!["a", "b", "."]);
}

#[test]
fn path_root_only() {
    let p = Path::new("/").unwrap();
    assert!(p.is_absolute());
    assert_eq!(p.count(), 0);
    let r = Path::root();
    assert!(r.is_absolute());
    assert_eq!(r.count(), 0);
}

#[test]
fn path_errors() {
    assert!(matches!(Path::new(""), Err(InvalidPath::Empty)));
    assert!(matches!(Path::new("/a\0b"), Err(InvalidPath::InvalidChar)));
    let long = format!("/{}", "a".repeat(4096));
    assert!(matches!(Path::new(&long), Err(InvalidPath::TooLong)));
    let long_name = format!("/{}/b", "a".repeat(256));
    assert!(matches!(Path::new(&long_name), Err(InvalidPath::NameTooLong)));
    assert_eq!(Path::validate("/ok"), Ok(()));
}

#[test]
fn path_max_len_is_accepted() {
    let p = "a".repeat(4096);
    assert_eq!(Path::validate(&p), Ok(()));
}

#[test]
fn path_push_pop() {
    let mut p = Path::new("/usr").unwrap();
    p.push(name("bin"));
    assert_eq!(p.count(), 2);
    let last = p.pop().unwrap();
    assert_eq!(last.as_str(), "bin");
    assert_eq!(p.count(), 1);
    assert_eq!(p.pop().unwrap().as_str(), "usr");
    assert!(p.pop().is_none());
    assert!(p.is_absolute());
}

#[test]
fn path_to_string() {
    assert_eq!(Path::new("/usr//bin/").unwrap().to_string(), "/usr/bin");
    assert_eq!(Path::new("a/b").unwrap().to_string(), "a/b");
    assert_eq!(Path::root().to_string(), "/");
    assert_eq!(Path::from(vec![name("x")]).to_string(), "x");
}

#[test]
fn path_from_components() {
    let comps = vec![name("a"), name("b"), name("c")];
    let p = Path::from_components(&comps, 1);
    assert!(!p.is_absolute());
    assert_eq!(p.to_string(), "b/c");
    let q = Path::from_components(&comps, 3);
    assert_eq!(q.count(), 0);
}

#[test]
fn invalid_name_becomes_invalid_path() {
    assert_eq!(InvalidPath::from(InvalidName::TooLong), InvalidPath::NameTooLong);
    assert_eq!(InvalidPath::from(InvalidName::Empty), InvalidPath::Empty);
    assert_eq!(InvalidPath::from(InvalidName::InvalidChar), InvalidPath::InvalidChar);
    assert_eq!(InvalidPath::from(InvalidName::NotUTF8), InvalidPath::NotUTF8);
}

#[test]
fn parsing_a_written_path_gives_it_back() {
    for s in ["/usr/bin", "a/b/c", "/", "..", "./x/../y", "/a.b/c d"] {
        let p = Path::new(s).unwrap();
        let q = Path::new(&p.to_string()).unwrap();
        assert_eq!(q.is_absolute(), p.is_absolute());
        let a: Vec<&str> = p.iter().iter().map(|n| n.as_str()).collect();
        let b: Vec<&str> = q.iter().iter().map(|n| n.as_str()).collect();
        assert_eq!(a, b);
    }
}
