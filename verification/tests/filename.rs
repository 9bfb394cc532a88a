use rust_dsa::filename::FileName;

#[test]
fn a_file_name_keeps_its_parts() {
    let f = FileName::new(String::from("main"), String::from("rs"));
    assert_eq!(f.name(), "main");
    assert_eq!(f.ext(), "rs");
}

#[test]
fn clones_share_nothing_but_the_text() {
    let f = FileName::new(String::from("lib"), String::from("rs"));
    let g = f.clone();
    assert_eq!(g.name(), f.name());
    assert_eq!(g.ext(), f.ext());
}
