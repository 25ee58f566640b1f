use rust_basics::variants::{divide, Color, Direction, OperationResult, Status, TrafficLight};

#[test]
fn status_every_variant() {
    assert!(Status::Active.is_active());
    assert!(!Status::Inactive.is_active());
    assert!(!Status::Pending.is_active());
    assert_eq!(Status::Active.description(), "User is active");
    assert_eq!(Status::Inactive.description(), "User is inactive");
    assert_eq!(Status::Pending.description(), "User status is pending");
}

#[test]
fn direction_every_variant() {
    assert_eq!(Direction::North.heading(), "Heading North");
    assert_eq!(Direction::South.heading(), "Heading South");
    assert_eq!(Direction::East.heading(), "Heading East");
    assert_eq!(Direction::West.heading(), "Heading West");
    assert!(Direction::North.is_vertical());
    assert!(Direction::South.is_vertical());
    assert!(!Direction::East.is_vertical());
    assert!(!Direction::West.is_vertical());
}

#[test]
fn color_every_variant() {
    assert_eq!(Color::Red.to_string(), "Red");
    assert_eq!(Color::Green.to_string(), "Green");
    assert_eq!(Color::Blue.to_string(), "Blue");
    assert_eq!(Color::new_rgb(255, 128, 0).to_string(), "RGB(255, 128, 0)");
    assert_eq!(Color::Hsv { h: 30, s: 100, v: 100 }.to_string(), "HSV(30, 100, 100)");
    assert_eq!(Color::Hsv { h: 65535, s: 0, v: 9 }.to_string(), "HSV(65535, 0, 9)");
}

#[test]
fn new_rgb_builds_rgb() {
    assert_eq!(Color::new_rgb(1, 2, 3), Color::Rgb(1, 2, 3));
}

#[test]
fn divide_by_zero_selects_error_tag() {
    assert_eq!(divide(10, 0), OperationResult::DivisionByZero);
    assert_ne!(divide(10, 0), OperationResult::Success(0));
}

#[test]
fn divide_success() {
    assert_eq!(divide(10, 2), OperationResult::Success(5));
    assert_eq!(divide(-7, 2), OperationResult::Success(-3));
}

#[test]
fn outcome_every_variant() {
    assert_eq!(OperationResult::Success(5).message(), "Result: 5");
    assert_eq!(OperationResult::Success(-42).message(), "Result: -42");
    assert_eq!(OperationResult::Success(i32::MIN).message(), "Result: -2147483648");
    assert_eq!(OperationResult::DivisionByZero.message(), "Error: Division by zero");
    assert_eq!(OperationResult::NegativeNumber.message(), "Error: Negative number");
    assert_eq!(OperationResult::Overflow.message(), "Error: Overflow");
}

#[test]
fn traffic_light_red_green_yellow() {
    let light = TrafficLight::Red;
    let light = light.next();
    assert_eq!(light, TrafficLight::Green);
    let light = light.next();
    assert_eq!(light, TrafficLight::Yellow);
    assert_eq!(light.next(), TrafficLight::Red);
}

#[test]
fn traffic_light_cycle_of_three() {
    for l in [TrafficLight::Red, TrafficLight::Yellow, TrafficLight::Green] {
        assert_eq!(l.next().next().next(), l);
        assert_ne!(l.next(), l);
    }
}
