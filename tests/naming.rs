use train_lib::naming::{below, id_from, instance_id_at, new_instance_id, random_id, word, word_at};

#[test]
fn test_random_id() {
    let str_random_id = random_id();
    assert_eq!(str_random_id.len(), 4);

    assert_ne!(random_id(), random_id());
}

#[test]
fn test_main_part() {
    let str_main_part = word(None);
    assert_eq!(str_main_part.len(), 4);
    assert_ne!(word(None), word(None));
}

#[test]
fn test_main_part_with_prefix() {
    let str_main_part = word(Some("test"));
    assert_eq!(str_main_part.len(), 9);
}

#[test]
fn random_id_uses_digits_and_lower_case_letters() {
    for _ in 0..50 {
        let id = random_id();
        assert!(id.chars().all(|c| c.is_ascii_digit() || c.is_ascii_lowercase()));
    }
}

#[test]
fn word_with_prefix_keeps_the_prefix() {
    let w = word(Some("pre"));
    assert!(w.starts_with("pre-"));
    assert_eq!(w.len(), 8);
}

#[test]
fn instance_id_is_word_dash_id() {
    let id = new_instance_id();
    assert_eq!(id.len(), 9);
    assert_eq!(&id[4..5], "-");
}

#[test]
fn word_at_picks_the_indexed_word() {
    assert_eq!(word_at(None, 0), "able");
    assert_eq!(word_at(None, 101), "zone");
    assert_eq!(word_at(Some("test"), 2), "test-arch");
}

#[test]
fn id_from_spells_the_draws() {
    assert_eq!(id_from(&[0, 9, 10, 35]), "09az");
    assert_eq!(id_from(&[28, 28, 33, 1]), "ssx1");
    assert_eq!(instance_id_at(5, &[1, 2, 3, 4]), "avid-1234");
}

#[test]
fn below_reduces() {
    assert_eq!(below(107, 36), 35);
    assert_eq!(below(5, 102), 5);
}
