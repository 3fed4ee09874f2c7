use stir::label::Label;
use stir::label::LabelRegistry;

#[test]
fn id_layout() {
    let mut reg = LabelRegistry::new();
    let l = Label::new(&mut reg, "a");

    assert_eq!(l.name(), "__a_1");
}

#[test]
fn last_id_increases() {
    let mut reg = LabelRegistry::new();
    let l0 = Label::new(&mut reg, "a");
    let l1 = Label::new(&mut reg, "a");
    let l2 = Label::new(&mut reg, "b");

    assert_eq!(l0.name(), "__a_1");
    assert_eq!(l1.name(), "__a_2");
    assert_eq!(l2.name(), "__b_3");
}

#[test]
fn name_contains_prefix() {
    let mut reg = LabelRegistry::new();
    let l = Label::new(&mut reg, "bool");

    assert!(l.name().contains("bool"));
    assert!(l.name().starts_with("__bool_"));
}

#[test]
fn names_pairwise_distinct() {
    let mut reg = LabelRegistry::new();
    let prefixes = ["a", "b", "a_1", "a", "x_y"];
    let mut labels: Vec<Label> = Vec::new();
    for p in prefixes {
        labels.push(Label::new(&mut reg, p));
    }

    for i in 0..labels.len() {
        for j in 0..labels.len() {
            if i != j {
                assert_ne!(labels[i].name(), labels[j].name());
            }
        }
    }
}

#[test]
fn registry_counts_issued_labels() {
    let mut reg = LabelRegistry::new();
    assert_eq!(reg.issued_count(), 0);

    let _ = Label::new(&mut reg, "a");
    let _ = Label::new(&mut reg, "b");
    assert_eq!(reg.issued_count(), 2);
}

#[test]
fn prefix_with_underscores_and_digits() {
    // A prefix that itself ends in digits still renders unambiguously:
    // the discriminator stands after the last underscore.
    let mut reg = LabelRegistry::new();
    let l0 = Label::new(&mut reg, "a_1");
    let l1 = Label::new(&mut reg, "a");

    assert_eq!(l0.name(), "__a_1_1");
    assert_eq!(l1.name(), "__a_2");
    assert_ne!(l0.name(), l1.name());
}

#[test]
fn multi_digit_discriminators_render_in_base_ten() {
    let mut reg = LabelRegistry::new();
    let mut last = Label::new(&mut reg, "p");
    for _ in 0..11 {
        last = Label::new(&mut reg, "p");
    }

    assert_eq!(last.name(), "__p_12");
    assert_eq!(reg.issued_count(), 12);
}
