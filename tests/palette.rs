use dymium_term::palette::{css_names, vim_names};

#[test]
fn assert_sorted() {
    let names = css_names();
    for i in 0..names.len() - 1 {
        let x = names[i].name;
        let y = names[i + 1].name;
        assert!(x < y, "not sorted: {x:?} > {y:?}");
    }
}

#[test]
fn vim_table_sorted() {
    let names = vim_names();
    for i in 0..names.len() - 1 {
        assert!(names[i].name < names[i + 1].name);
    }
}

#[test]
fn css_table_holds_red() {
    let names = css_names();
    let red = names.iter().find(|n| n.name == "red").unwrap();
    assert_eq!(red.rgb, (255, 0, 0));
}
