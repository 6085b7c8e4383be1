use birb::maths::{Unit, Zero};
use birb::transform::Transform;
use birb::two::{ColMat, Rotor, RowMat, Vector};
use birb::ui::Vector2;

#[test]
fn test_vector() {
    let a = Vector::new(1.0, 0.0);
    let b = Vector::new(0.0, 1.0);
    assert_eq!(a + b, Vector::fill(1.0));
    assert_eq!(a - b, Vector::new(1.0, -1.0));
}

#[test]
fn test_rotor() {
    let a = Vector::new(1.0, 0.0);
    let b = Vector::new(0.0, 1.0);
    let i = a * b;
    assert_eq!(
        i,
        Rotor {
            real: 0.0,
            imaginary: 1.0
        }
    );

    assert_eq!(b, a * i);
    let c = Vector::fill(1.0);
    assert_eq!(c * i, Vector::new(-1.0, 1.0));
}

#[test]
fn test_matrix() {
    let i = Rotor {
        real: 0,
        imaginary: 1,
    };
    let row = i.to_row_matrix();
    let col = i.to_col_matrix();
    assert_eq!(
        row * col,
        RowMat {
            x: Vector { x: -1, y: 0 },
            y: Vector { x: 0, y: -1 }
        }
    );
}

#[test]
fn dot_of_integer_vectors() {
    let a = Vector::new(2i64, 3);
    let b = Vector::new(4i64, -5);
    assert_eq!(a.dot(&b), 2 * 4 + 3 * -5);
}

#[test]
fn vector_times_vector_gives_rotor_parts() {
    let a = Vector::new(2i32, 3);
    let b = Vector::new(5i32, 7);
    assert_eq!(a * b, Rotor::new(2 * 5 + 3 * 7, 2 * 7 + 3 * 5));
}

#[test]
fn vector_times_rotor_rotates() {
    let v = Vector::new(3i32, 4);
    let quarter = Rotor::new(0i32, 1);
    assert_eq!(v * quarter, Vector::new(-4, 3));
}

#[test]
fn rotor_matrices_are_transposes() {
    let r = Rotor::new(3i32, 4);
    let row = r.to_row_matrix();
    let col = r.to_col_matrix();
    assert_eq!(row.x, Vector::new(3, -4));
    assert_eq!(row.y, Vector::new(4, 3));
    assert_eq!(col.x, Vector::new(3, 4));
    assert_eq!(col.y, Vector::new(-4, 3));
    assert_eq!(ColMat::from(row), col);
    assert_eq!(RowMat::from(col), row);
}

#[test]
fn zero_and_unit_of_integers() {
    assert_eq!(<u8 as Zero>::zero(), 0);
    assert_eq!(<i64 as Zero>::zero(), 0);
    assert_eq!(<usize as Unit>::unit(), 1);
    assert_eq!(<i16 as Unit>::unit(), 1);
}

#[test]
fn identity_transform() {
    let t: Transform<i32> = Transform::identity(None);
    assert_eq!(t.translation, Vector::new(0, 0));
    assert_eq!(t.rotation, Rotor::new(1, 0));
    assert_eq!(t.scale, Vector::new(1, 1));
    assert!(t.parent().is_none());
}

#[test]
fn ui_vector_arithmetic() {
    let a = Vector2::new(10u8, 20);
    let b = Vector2::new(3u8, 5);
    assert_eq!(a + b, Vector2::new(13, 25));
    assert_eq!(a - b, Vector2::new(7, 15));
    assert_eq!(b * 4, Vector2::new(12, 20));
}

#[test]
fn clock_starts_with_no_delta() {
    let mut clock = birb::time::Clock::new();
    assert_eq!(clock.delta(), std::time::Duration::ZERO);
    let before = clock.elapsed();
    clock.tick();
    assert!(clock.elapsed() >= before);
}
