use std::collections::HashSet;

use hotload::{Artifact, ArtifactLocator};

fn locator() -> ArtifactLocator {
    ArtifactLocator::new(
        "./target/debug/reloaded/libstate_manipulation".to_string(),
        ".so".to_string(),
        "./target/debug/libstate_manipulation.so".to_string(),
    )
}

fn locate_on(disk: &[usize]) -> Artifact {
    let present: HashSet<usize> = disk.iter().copied().collect();
    locator().locate(|g| present.contains(&g))
}

#[test]
fn generation_paths_carry_decimal_suffix() {
    let loc = locator();
    assert_eq!(loc.generation_path(0), "./target/debug/reloaded/libstate_manipulation0.so");
    assert_eq!(loc.generation_path(7), "./target/debug/reloaded/libstate_manipulation7.so");
    assert_eq!(loc.generation_path(10), "./target/debug/reloaded/libstate_manipulation10.so");
    assert_eq!(
        loc.generation_path(4096),
        "./target/debug/reloaded/libstate_manipulation4096.so"
    );
    assert_eq!(
        loc.generation_path(usize::MAX),
        format!("./target/debug/reloaded/libstate_manipulation{}.so", usize::MAX)
    );
}

#[test]
fn windows_style_names() {
    let loc = ArtifactLocator::new(
        "./target/debug/reloaded/state_manipulation".to_string(),
        ".dll".to_string(),
        "./target/debug/state_manipulation.dll".to_string(),
    );
    assert_eq!(loc.generation_path(3), "./target/debug/reloaded/state_manipulation3.dll");
    assert_eq!(loc.path_for(None), "./target/debug/state_manipulation.dll");
}

#[test]
fn no_generations_gives_canonical_path() {
    let found = locate_on(&[]);
    assert_eq!(found.generation, None);
    assert_eq!(found.path, "./target/debug/libstate_manipulation.so");
}

#[test]
fn only_generation_zero() {
    let found = locate_on(&[0]);
    assert_eq!(found.generation, Some(0));
    assert_eq!(found.path, "./target/debug/reloaded/libstate_manipulation0.so");
}

#[test]
fn run_of_generations_gives_last_one() {
    let found = locate_on(&[0, 1, 2, 3, 4]);
    assert_eq!(found.generation, Some(4));
    assert_eq!(found.path, "./target/debug/reloaded/libstate_manipulation4.so");

    let disk: Vec<usize> = (0..=11).collect();
    let found = locate_on(&disk);
    assert_eq!(found.generation, Some(11));
    assert_eq!(found.path, "./target/debug/reloaded/libstate_manipulation11.so");
}

#[test]
fn gap_stops_the_probe() {
    let found = locate_on(&[0, 1, 3, 4]);
    assert_eq!(found.generation, Some(1));
    assert_eq!(found.path, "./target/debug/reloaded/libstate_manipulation1.so");
}

#[test]
fn missing_zero_hides_later_generations() {
    let found = locate_on(&[1, 2]);
    assert_eq!(found.generation, None);
    assert_eq!(found.path, "./target/debug/libstate_manipulation.so");
}

#[test]
fn probe_asks_in_order_and_stops_at_first_missing() {
    let asked = std::cell::RefCell::new(Vec::new());
    let found = locator().locate(|g| {
        asked.borrow_mut().push(g);
        g < 3
    });
    assert_eq!(found.generation, Some(2));
    assert_eq!(*asked.borrow(), vec![0, 1, 2, 3]);
}
