use std::fmt::Display;

use stacksafe::{stacksafe, GrowthPolicy, Protection};

fn sum(policy: &GrowthPolicy, nums: &[u64]) -> u64 {
    stacksafe(policy, |_inner: &Protection| {
        if let Some((head, tail)) = nums.split_first() {
            head + sum(policy, tail)
        } else {
            0
        }
    })
}

fn dyn_ret<T, U>(b: bool, x: T, y: U) -> Box<dyn Display>
where
    T: Display + 'static,
    U: Display + 'static,
{
    let policy = GrowthPolicy::new();
    stacksafe(&policy, move |_inner: &Protection| -> Box<dyn Display> {
        if b {
            Box::new(x)
        } else {
            Box::new(y)
        }
    })
}

fn impl_ret<T>(b: bool, x: T, y: T) -> impl Display
where
    T: Display,
{
    let policy = GrowthPolicy::new();
    stacksafe(&policy, move |_inner: &Protection| {
        if b {
            Box::new(x)
        } else {
            Box::new(y)
        }
    })
}

fn no_ret(x: &mut u32) {
    let policy = GrowthPolicy::new();
    stacksafe(&policy, |_inner: &Protection| {
        *x *= 10;
    })
}

fn mut_arg(x: u32) -> u32 {
    let policy = GrowthPolicy::new();
    stacksafe(&policy, move |_inner: &Protection| {
        let mut x = x;
        x *= 10;
        x
    })
}

#[test]
fn test_sum() {
    let n = 10_000_000;
    let v: Vec<u64> = (0..n).collect();
    let policy = GrowthPolicy::new();
    assert_eq!(sum(&policy, &v), 49999995000000);
}

#[test]
fn test_dyn_ret() {
    assert_eq!("10", format!("{}", dyn_ret(true, 10, "20")));
    assert_eq!("20", format!("{}", dyn_ret(false, 10, "20")));
}

#[test]
fn test_impl_ret() {
    assert_eq!("10", format!("{}", impl_ret(true, 10, 20)));
    assert_eq!("20", format!("{}", impl_ret(false, 10, 20)));
}

#[test]
fn test_mut_arg() {
    assert_eq!(100, mut_arg(10));
}

#[test]
fn test_no_ret() {
    let mut x = 42;
    no_ret(&mut x);
    assert_eq!(x, 420);
}
