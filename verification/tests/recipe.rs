use stir::blocks::BasicBlock;
use stir::blocks::Block;
use stir::blocks::Boolean;
use stir::label::LabelRegistry;
use stir::recipe::Recipe;

#[test]
fn mod_init() {
    let r = Recipe::new();

    match r.entry() {
        Some(_) => assert!(false),
        _ => (),
    };

    assert_eq!(r.len(), 0);
}

#[test]
fn add_one_block_size_and_entry() {
    let mut reg = LabelRegistry::new();
    let mut r = Recipe::new();
    let b = Boolean::new(&mut reg, false);

    r.add(Block::Boolean(b));

    match r.entry() {
        Some(_) => assert!(false),
        _ => (),
    };

    assert_eq!(r.len(), 1);
}

#[test]
fn add_entry() {
    let mut reg = LabelRegistry::new();
    let mut r = Recipe::new();
    let b = Boolean::new(&mut reg, false);

    r.add_entry(Block::Boolean(b));

    match r.entry() {
        None => assert!(false),
        _ => (),
    };

    assert_eq!(r.len(), 1);
}

#[test]
fn first_add_entry_succeeds_and_fries() {
    let mut reg = LabelRegistry::new();
    let mut r = Recipe::new();
    let b = Boolean::new(&mut reg, true);

    assert!(r.add_entry(Block::Boolean(b)));
    assert_eq!(r.fry(), Ok(true));
}

#[test]
fn second_add_entry_is_rejected() {
    let mut reg = LabelRegistry::new();
    let mut r = Recipe::new();
    let first = Boolean::new(&mut reg, true);
    let first_label = first.label().clone();
    let second = Boolean::new(&mut reg, false);

    assert!(r.add_entry(Block::Boolean(first)));
    assert!(!r.add_entry(Block::Boolean(second)));

    match r.entry() {
        Some(e) => assert_eq!(e.label(), &first_label),
        None => assert!(false),
    }
    assert_eq!(r.fry(), Ok(true));
    assert_eq!(r.len(), 1);
}

#[test]
fn fry_without_entry_fails() {
    let mut reg = LabelRegistry::new();
    let mut r = Recipe::new();
    let b = Boolean::new(&mut reg, true);

    r.add(Block::Boolean(b));

    assert_eq!(r.fry(), Err(()));
}

#[test]
fn distinct_blocks_count_separately() {
    let mut reg = LabelRegistry::new();
    let mut r = Recipe::new();

    r.add(Block::Boolean(Boolean::new(&mut reg, true)));
    r.add(Block::Boolean(Boolean::new(&mut reg, false)));
    r.add(Block::Boolean(Boolean::new(&mut reg, true)));

    assert_eq!(r.len(), 3);
}
