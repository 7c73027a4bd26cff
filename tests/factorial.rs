use rust2c::factorial::{factorial_step, FactorialPhase, FactorialStep};
use rust2c::handle::RecordHeader;

/// A non-negative integer as little-endian decimal digits, standing in for the
/// native library while the steps are driven.
#[derive(Clone, Debug, PartialEq)]
struct Decimal {
    digits: Vec<u8>,
}

impl Decimal {
    fn from_u64(mut n: u64) -> Decimal {
        let mut digits = Vec::new();
        while n > 0 {
            digits.push((n % 10) as u8);
            n /= 10;
        }
        Decimal { digits }
    }

    fn small(&self) -> Option<u64> {
        if self.digits.len() > 19 {
            return None;
        }
        Some(self.digits.iter().rev().fold(0u64, |acc, d| acc * 10 + *d as u64))
    }

    fn compare_small(&self, b: u64) -> i32 {
        match self.small() {
            None => 1,
            Some(v) => v.cmp(&b) as i32,
        }
    }

    fn multiply(&self, other: &Decimal) -> Decimal {
        let mut out = vec![0u32; self.digits.len() + other.digits.len()];
        for (i, a) in self.digits.iter().enumerate() {
            for (j, b) in other.digits.iter().enumerate() {
                out[i + j] += (*a as u32) * (*b as u32);
            }
        }
        let mut carry = 0u32;
        let mut digits = Vec::new();
        for v in out {
            let t = v + carry;
            digits.push((t % 10) as u8);
            carry = t / 10;
        }
        while carry > 0 {
            digits.push((carry % 10) as u8);
            carry /= 10;
        }
        while digits.last() == Some(&0) {
            digits.pop();
        }
        Decimal { digits }
    }

    fn decrement(&self) -> Decimal {
        Decimal::from_u64(self.small().unwrap() - 1)
    }

    fn render(&self) -> String {
        if self.digits.is_empty() {
            return "0".to_string();
        }
        self.digits.iter().rev().map(|d| char::from(b'0' + d)).collect()
    }
}

fn drive_factorial(n: u64) -> (Decimal, usize) {
    let mut k = Decimal::from_u64(n);
    let mut acc = Decimal::from_u64(1);
    let mut phase = FactorialPhase::Start;
    let mut multiplications = 0;
    loop {
        let sign = k.compare_small(phase.bound());
        match factorial_step(phase, sign) {
            FactorialStep::Continue(next) => phase = next,
            FactorialStep::MultiplyDecrement => {
                acc = acc.multiply(&k);
                k = k.decrement();
                multiplications += 1;
            }
            FactorialStep::Finish => return (acc, multiplications),
        }
    }
}

#[test]
fn test_sanity() {
    let one = Decimal::from_u64(1);
    assert_eq!(one, drive_factorial(0).0);
    assert_eq!(one, drive_factorial(1).0);
    assert_eq!(Decimal::from_u64(120), drive_factorial(5).0);
}

#[test]
fn test_identity() {
    let forty_two = RecordHeader { alloc: 1, size: 1, limbs: 42 };
    assert!(forty_two.identical(&forty_two));
}

#[test]
fn test_the_answer() {
    let answer_bang = "1405006117752879898543142606244511569936384000000000";
    assert_eq!(answer_bang, drive_factorial(42).0.render());
}

#[test]
fn zero_and_one_render_as_one() {
    assert_eq!("1", drive_factorial(0).0.render());
    assert_eq!("1", drive_factorial(1).0.render());
}

#[test]
fn five_renders_as_120() {
    assert_eq!("120", drive_factorial(5).0.render());
}

#[test]
fn recurrence_holds_for_small_inputs() {
    for n in 2..30u64 {
        let previous = drive_factorial(n - 1).0;
        assert_eq!(drive_factorial(n).0, previous.multiply(&Decimal::from_u64(n)));
    }
}

#[test]
fn multiplications_are_counted_by_input() {
    assert_eq!(0, drive_factorial(0).1);
    assert_eq!(0, drive_factorial(1).1);
    assert_eq!(4, drive_factorial(5).1);
    assert_eq!(41, drive_factorial(42).1);
}

#[test]
fn steps_from_start() {
    assert_eq!(FactorialStep::Finish, factorial_step(FactorialPhase::Start, 0));
    assert_eq!(
        FactorialStep::Continue(FactorialPhase::Looping),
        factorial_step(FactorialPhase::Start, 1)
    );
    assert_eq!(
        FactorialStep::Continue(FactorialPhase::Looping),
        factorial_step(FactorialPhase::Start, -3)
    );
}

#[test]
fn steps_in_loop() {
    assert_eq!(FactorialStep::MultiplyDecrement, factorial_step(FactorialPhase::Looping, 7));
    assert_eq!(FactorialStep::Finish, factorial_step(FactorialPhase::Looping, 0));
    assert_eq!(FactorialStep::Finish, factorial_step(FactorialPhase::Looping, -1));
}

#[test]
fn phase_bounds() {
    assert_eq!(0, FactorialPhase::Start.bound());
    assert_eq!(1, FactorialPhase::Looping.bound());
}

#[test]
fn records_differ_by_any_field() {
    let a = RecordHeader { alloc: 2, size: 1, limbs: 4096 };
    assert!(!a.identical(&RecordHeader { alloc: 3, ..a }));
    assert!(!a.identical(&RecordHeader { size: -1, ..a }));
    assert!(!a.identical(&RecordHeader { limbs: 8192, ..a }));
    assert!(a.identical(&a.clone()));
}
