use crash_report::{accept_id, id_text_of, IdGenerator};

#[test]
fn id_text_extremes() {
    assert_eq!(id_text_of(0), "00000000000000000000000000");
    assert_eq!(id_text_of(u128::MAX), "7ZZZZZZZZZZZZZZZZZZZZZZZZZ");
    assert_eq!(id_text_of(31), "0000000000000000000000000Z");
    assert_eq!(id_text_of(32), "00000000000000000000000010");
}

#[test]
fn id_text_matches_ulid_encoding() {
    for n in [1u128, 0x0123_4567_89AB_CDEF_0123_4567_89AB_CDEF, 0x0190_0000_0000_0000_0000_0000_0000_0001, u128::MAX / 3] {
        assert_eq!(id_text_of(n), ulid::Ulid(n).to_string());
    }
}

#[test]
fn ids_are_unique_and_sorted() {
    let mut g = IdGenerator::new();
    let mut ids: Vec<String> = Vec::new();
    for _ in 0..1000 {
        ids.push(g.next_id().unwrap());
    }
    for w in ids.windows(2) {
        assert!(w[0] < w[1]);
    }
    let mut dedup = ids.clone();
    dedup.dedup();
    assert_eq!(dedup.len(), 1000);
    assert!(ids.iter().all(|s| s.len() == 26));
}

#[test]
fn id_values_increase() {
    let mut g = IdGenerator::new();
    let a = g.next_value().unwrap();
    let b = g.next_value().unwrap();
    assert!(0 < a && a < b);
}

#[test]
fn accept_id_takes_a_greater_draw() {
    assert_eq!(accept_id(0, Some(1)), Some(1));
    assert_eq!(accept_id(5, Some(u128::MAX)), Some(u128::MAX));
}

#[test]
fn accept_id_refuses_a_draw_not_greater() {
    assert_eq!(accept_id(5, Some(5)), None);
    assert_eq!(accept_id(5, Some(4)), None);
    assert_eq!(accept_id(5, None), None);
}
