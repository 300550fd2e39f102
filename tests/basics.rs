use rust_basics::control_flow::{countdown, divisor_of, loop_return_val, nested_loop, LoopTrace};
use rust_basics::enums_pattern_matching::{
    enum_data, enum_option, plus_one, state_coin_value, value_in_cents, Coin, StateCoin, UsState,
};
use rust_basics::ownership_simple::count;
use rust_basics::slice_type::first_word;
use rust_basics::struct_methods::Rectangle;
use rust_basics::structs::{area, area1, tuple_area, unit_like_structs, Object, Rectangle as Sides};

#[test]
fn rectangle_grow_and_area() {
    let mut r = Rectangle { width: 30, height: 50 };
    r.grow(10);
    assert_eq!(r.width, 40);
    assert_eq!(r.height, 60);
    assert_eq!(r.area(), 2400);
    assert!(r.width());
    assert!(!Rectangle { width: 0, height: 3 }.width());
}

#[test]
fn rectangle_can_hold() {
    let a = Rectangle { width: 40, height: 60 };
    let b = Rectangle { width: 10, height: 40 };
    assert!(a.can_hold(&b));
    assert!(!b.can_hold(&a));
    assert!(!a.can_hold(&Rectangle { width: 40, height: 1 }));
    let s = Rectangle::square(10);
    assert_eq!((s.width, s.height), (10, 10));
}

#[test]
fn object_area() {
    let o = Object::new(32, 64);
    assert_eq!((o.width, o.height), (32, 64));
    assert_eq!(area(o), 2048);
    unit_like_structs();
}

#[test]
fn first_word_cases() {
    assert_eq!(first_word("hello world"), "hello");
    assert_eq!(first_word("hello"), "hello");
    assert_eq!(first_word(" lead"), "");
    assert_eq!(first_word(""), "");
}

#[test]
fn count_cases() {
    let v = vec![4, 5, 3, 6, 4, 1, 3, 42, 65, 7, 1, 3];
    assert_eq!(count(&v, 3), 3);
    assert_eq!(count(&v, 42), 1);
    assert_eq!(count(&v, 8), 0);
    assert_eq!(count(&Vec::new(), 8), 0);
}

#[test]
fn option_and_coins() {
    assert_eq!(plus_one(Some(5)), Some(6));
    assert_eq!(plus_one(None), None);
    enum_option();
    enum_data();
    assert_eq!(value_in_cents(Coin::Penny), 1);
    assert_eq!(value_in_cents(Coin::Nickel), 5);
    assert_eq!(value_in_cents(Coin::Dime), 10);
    assert_eq!(value_in_cents(Coin::Quarter), 25);
    let (v, s) = state_coin_value(StateCoin::Quarter(UsState::Alaska));
    assert_eq!(v, 25);
    assert!(matches!(s, Some(UsState::Alaska)));
    assert!(matches!(state_coin_value(StateCoin::Dime), (10, None)));
}

#[test]
fn control_flow_values() {
    assert_eq!(divisor_of(3), Some(3));
    assert_eq!(divisor_of(12), Some(4));
    assert_eq!(divisor_of(10), Some(2));
    assert_eq!(divisor_of(7), None);
    assert_eq!(countdown(5), vec![5, 4, 3, 2, 1]);
    assert!(countdown(0).is_empty());
    assert_eq!(loop_return_val(), 20);
}

#[test]
fn nested_loop_trace() {
    assert_eq!(
        nested_loop(),
        vec![
            LoopTrace::Count(0),
            LoopTrace::Remaining(10),
            LoopTrace::Remaining(9),
            LoopTrace::Count(1),
            LoopTrace::Remaining(10),
            LoopTrace::Remaining(9),
            LoopTrace::Count(2),
            LoopTrace::Remaining(10),
        ]
    );
}

#[test]
fn tuple_and_struct_areas() {
    assert_eq!(tuple_area((30, 50)), 1500);
    assert_eq!(tuple_area((0, 7)), 0);
    assert_eq!(area1(&Sides { width: 60, height: 50 }), 3000);
}
