use rust2c::dice::{roll, total_of_draws};

#[test]
fn invalid_rolls_give_zero() {
    assert_eq!(0, roll(0, 6));
    assert_eq!(0, roll(3, 1));
    assert_eq!(0, roll(3, 0));
}

#[test]
fn rolls_stay_in_range() {
    for _ in 0..100 {
        let r = roll(3, 6);
        assert!((3..=18).contains(&r));
    }
    let r = roll(1, 2);
    assert!(r == 1 || r == 2);
}

#[test]
fn largest_roll_fits() {
    let r = roll(255, 255);
    assert!((255..=65025).contains(&r));
}

#[test]
fn totals_of_given_draws() {
    assert_eq!(10, total_of_draws(3, 6, &vec![1, 4, 5]));
    assert_eq!(0, total_of_draws(0, 6, &vec![1, 4, 5]));
    assert_eq!(0, total_of_draws(3, 1, &vec![1, 1, 1]));
    assert_eq!(0, total_of_draws(255, 255, &vec![255; 300]));
    assert_eq!(65025, total_of_draws(255, 255, &vec![255; 255]));
}
