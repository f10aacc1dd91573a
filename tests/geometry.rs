use skulpin::geometry::{add, distance_squared, subtract, Position};

#[test]
fn add_and_subtract() {
    let a = Position::new(1500, -2000);
    let b = Position::new(500, 7000);
    assert_eq!(add(a, b), Position::new(2000, 5000));
    assert_eq!(subtract(a, b), Position::new(1000, -9000));
}

#[test]
fn distance_squared_is_exact() {
    let a = Position::new(0, 0);
    let b = Position::new(10_000, 10_000);
    assert_eq!(distance_squared(a, b), 200_000_000);
    assert_eq!(distance_squared(Position::new(5000, 5000), Position::new(5000, 5500)), 250_000);
}
