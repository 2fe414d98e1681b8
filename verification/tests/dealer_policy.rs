use blackjack::policy::{dealer_decides, dealer_hits, roll_die};

fn hits_out_of_hundred(score: u8) -> usize {
    (1..=100u8).filter(|roll| dealer_hits(score, *roll)).count()
}

#[test]
fn dealer_always_hits_at_nine() {
    for roll in 1..=100u8 {
        assert!(dealer_hits(9, roll));
    }
    for _ in 0..200 {
        assert!(dealer_decides(9));
    }
}

#[test]
fn dealer_never_hits_at_twenty() {
    for roll in 1..=100u8 {
        assert!(!dealer_hits(20, roll));
    }
    for _ in 0..200 {
        assert!(!dealer_decides(20));
    }
}

#[test]
fn hit_chances_by_score() {
    for score in 0..=10u8 {
        assert_eq!(hits_out_of_hundred(score), 100);
    }
    for score in 11..=13u8 {
        assert_eq!(hits_out_of_hundred(score), 70);
    }
    for score in 14..=16u8 {
        assert_eq!(hits_out_of_hundred(score), 35);
    }
    for score in 17..=40u8 {
        assert_eq!(hits_out_of_hundred(score), 0);
    }
}

#[test]
fn the_top_faces_hit() {
    assert!(!dealer_hits(11, 30));
    assert!(dealer_hits(11, 31));
    assert!(dealer_hits(13, 100));
    assert!(!dealer_hits(13, 1));
    assert!(!dealer_hits(14, 65));
    assert!(dealer_hits(14, 66));
    assert!(dealer_hits(16, 100));
    assert!(!dealer_hits(16, 1));
    assert!(dealer_hits(10, 1));
    assert!(!dealer_hits(17, 100));
}

#[test]
fn the_die_shows_one_to_hundred() {
    let first = roll_die();
    let mut differs = false;
    for _ in 0..2000 {
        let roll = roll_die();
        assert!(1 <= roll && roll <= 100);
        if roll != first {
            differs = true;
        }
    }
    assert!(differs);
}
