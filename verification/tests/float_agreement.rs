use bigrace::config::CarStat;
use bigrace::game::collision::{Collider, LineBorder, RectHitbox};
use bigrace::game::level::{Rotation, Tile, TileType};
use bigrace::game::player::Player;
use bigrace::input::PlayerInput;
use bigrace::math::{rect_corners, Angle, Diagonal, Point, Rect};
use std::f64::consts::FRAC_PI_4;

const UNIT: f64 = 1_000_000.0;

/// A small generator of numbers that look random and are the same at every run.
struct Dice(u64);

impl Dice {
    fn next(&mut self) -> u64 {
        self.0 = self.0.wrapping_mul(6_364_136_223_846_793_005).wrapping_add(1_442_695_040_888_963_407);
        self.0 >> 11
    }

    /// A number between `lo` and `hi`.
    fn between(&mut self, lo: f64, hi: f64) -> f64 {
        lo + (hi - lo) * (self.next() % 1_000_000_007) as f64 / 1_000_000_007.0
    }
}

fn fixed(value: f64) -> i64 {
    (value * UNIT).round() as i64
}

fn float(value: i64) -> f64 {
    value as f64 / UNIT
}

fn angle(radians: f64) -> Angle {
    Angle::new(fixed(radians), fixed(radians.cos()), fixed(radians.sin()))
}

const DIAGONALS: [Diagonal; 4] = [
    Diagonal::NegThreeQuarterPi,
    Diagonal::NegQuarterPi,
    Diagonal::QuarterPi,
    Diagonal::ThreeQuarterPi,
];

/// The test of a point against a border with cosine and sine in floating point.
fn beyond(px: f64, py: f64, sx: f64, sy: f64, length: f64, rotation: f64) -> (bool, f64) {
    let (sin, cos) = rotation.sin_cos();
    let point = (px * cos + py * sin, -px * sin + py * cos);
    let start = (sx * cos + sy * sin, -sx * sin + sy * cos);
    let margin = (point.0 - start.0)
        .abs()
        .min((point.1 - start.1).abs())
        .min((point.1 - (start.1 - length)).abs());
    (point.0 > start.0 && point.1 < start.1 && point.1 > start.1 - length, margin)
}

#[test]
fn diagonal_frame_is_the_rotation_scaled_by_the_root_of_two() {
    let mut dice = Dice(1);
    for rotation in DIAGONALS {
        let radians = rotation.quarters() as f64 * FRAC_PI_4;
        for _ in 0..200 {
            let p = Point::new(fixed(dice.between(-500.0, 500.0)), fixed(dice.between(-500.0, 500.0)));
            let q = p.in_frame(rotation);
            let (x, y) = (float(p.x), float(p.y));
            let turned_x = x * radians.cos() + y * radians.sin();
            let turned_y = -x * radians.sin() + y * radians.cos();
            assert!((q.x as f64 / UNIT - turned_x * 2f64.sqrt()).abs() < 1e-9);
            assert!((q.y as f64 / UNIT - turned_y * 2f64.sqrt()).abs() < 1e-9);
        }
    }
}

#[test]
fn collision_agrees_with_the_test_in_floating_point() {
    let mut dice = Dice(2);
    let mut decided = 0;
    let mut hits = 0;
    for rotation in DIAGONALS {
        let radians = rotation.quarters() as f64 * FRAC_PI_4;
        for _ in 0..2_000 {
            let reach = dice.between(1.0, 60.0);
            let start = (dice.between(0.0, 300.0), dice.between(0.0, 300.0));
            let p = (
                start.0 + dice.between(-100.0, 100.0),
                start.1 + dice.between(-100.0, 100.0),
            );
            let border =
                LineBorder::new(Point::new(fixed(start.0), fixed(start.1)), fixed(reach), rotation);
            let point = Point::new(fixed(p.0), fixed(p.1));
            let (expected, margin) = beyond(
                float(point.x),
                float(point.y),
                float(border.start.x),
                float(border.start.y),
                float(border.reach) * 2f64.sqrt(),
                radians,
            );
            if margin > 1e-6 {
                assert_eq!(point.collides(border), expected);
                decided += 1;
                if expected {
                    hits += 1;
                }
            }
        }
    }
    assert!(decided > 7_900);
    assert!(hits > 500);
}

#[test]
fn borders_agree_with_the_table_in_floating_point() {
    let tile_size = 24.0;
    let diagonal = 33.941125;
    // kind, orientation, corner of the cell where the border starts, angle in quarters of pi
    let table = [
        (TileType::DiagBorder, Rotation::PiFois2, (1.0, 0.0), -3.0),
        (TileType::DiagBorder, Rotation::PiSur2, (1.0, 1.0), -1.0),
        (TileType::DiagBorder, Rotation::Pi, (0.0, 1.0), 1.0),
        (TileType::DiagBorder, Rotation::PiFois3Sur2, (0.0, 0.0), 3.0),
        (TileType::SoftTurnExterior, Rotation::PiSur2, (1.0, 0.0), -3.0),
        (TileType::SoftTurnExterior, Rotation::Pi, (1.0, 1.0), -1.0),
        (TileType::SoftTurnExterior, Rotation::PiFois3Sur2, (0.0, 1.0), 1.0),
        (TileType::SoftTurnExterior, Rotation::PiFois2, (0.0, 0.0), 3.0),
        (TileType::SoftTurnExterior2, Rotation::Pi, (1.0, 0.0), -3.0),
        (TileType::SoftTurnExterior2, Rotation::PiFois3Sur2, (1.0, 1.0), -1.0),
        (TileType::SoftTurnExterior2, Rotation::PiFois2, (0.0, 1.0), 1.0),
        (TileType::SoftTurnExterior2, Rotation::PiSur2, (0.0, 0.0), 3.0),
    ];
    for (kind, rotation, corner, quarters) in table {
        for position in [[0usize, 0usize], [2, 2], [17, 3], [499, 249]] {
            let border = LineBorder::can_from(&Tile::new(position, kind, rotation)).unwrap();
            assert_eq!(float(border.start.x), (position[0] as f64 + corner.0) * tile_size);
            assert_eq!(float(border.start.y), (position[1] as f64 + corner.1) * tile_size);
            assert_eq!(border.rotation.quarters() as f64, quarters);
            let length = float(border.reach) * 2f64.sqrt();
            assert!((length - diagonal).abs() < 1e-6);
        }
    }
}

#[test]
fn corners_agree_with_the_formula_in_floating_point() {
    let mut dice = Dice(3);
    for _ in 0..2_000 {
        let (x, y) = (dice.between(-2_000.0, 2_000.0), dice.between(-2_000.0, 2_000.0));
        let (w, h) = (dice.between(0.0, 80.0), dice.between(0.0, 80.0));
        let rotation = dice.between(-10.0, 10.0);
        let rect = Rect::new(fixed(x), fixed(y), fixed(w), fixed(h));
        let by = angle(rotation);
        let (x, y, w, h) = (float(rect.x), float(rect.y), float(rect.w), float(rect.h));
        let (sin, cos) = float(by.radians).sin_cos();
        let expected = [
            ((-w * cos + h * sin) * 0.5 + x, (-w * sin - h * cos) * 0.5 + y),
            ((w * cos + h * sin) * 0.5 + x, (w * sin - h * cos) * 0.5 + y),
            ((w * cos - h * sin) * 0.5 + x, (w * sin + h * cos) * 0.5 + y),
            ((-w * cos - h * sin) * 0.5 + x, (-w * sin + h * cos) * 0.5 + y),
        ];
        let corners = rect_corners(rect, by);
        for i in 0..4 {
            assert!((float(corners[i].x) - expected[i].0).abs() < 1e-4);
            assert!((float(corners[i].y) - expected[i].1).abs() < 1e-4);
        }
    }
}

#[test]
fn drive_agrees_with_the_formulas_in_floating_point() {
    let stat = CarStat {
        max_velocity: fixed(5.0),
        rotation_speed: fixed(3.0),
        acceleration: fixed(8.0),
        brake: fixed(6.0),
        hitbox_size: (fixed(16.0), fixed(28.0)),
    };
    let mut dice = Dice(4);
    let mut player = Player::new(&stat);
    player.init([20, 20]);
    let (mut x, mut y) = (float(player.position.x), float(player.position.y));
    let (mut rotation, mut velocity) = (0.0f64, 0.0f64);
    for step in 0..2_000 {
        let dt = dice.between(0.004, 0.033);
        let choice = dice.next() % 8;
        let accelerate = if choice & 1 != 0 { Some(dice.between(0.33, 1.0)) } else { None };
        let brake = if choice & 2 != 0 { Some(dice.between(0.33, 1.0)) } else { None };
        let turn = if choice & 4 != 0 { Some(dice.between(-1.0, 1.0)) } else { None };
        let input = PlayerInput {
            accelerate: accelerate.map(fixed),
            brake: brake.map(fixed),
            turn: turn.map(fixed),
            ..PlayerInput::default()
        };
        let dt = fixed(dt);

        // the same step in floating point, on the numbers that the vehicle was given
        let seconds = float(dt);
        if let Some(a) = input.accelerate {
            velocity += 8.0 * float(a) * seconds;
        }
        if let Some(b) = input.brake {
            velocity -= float(b) * 6.0 * seconds;
        }
        if let Some(t) = input.turn {
            rotation += float(t) * 3.0 * seconds;
        }
        velocity = velocity.clamp(0.0, 5.0);
        x += rotation.sin() * velocity;
        y += -rotation.cos() * velocity;
        velocity *= 0.98;

        let turned = angle(float(player.heading_after(&input, dt)));
        assert_eq!(turned.radians, player.heading_after(&input, dt));
        player.movement(&input, dt, turned);

        let slack = 1e-4 * (step + 1) as f64;
        assert!((float(player.rotation.radians) - rotation).abs() < 4e-6 * (step + 1) as f64);
        assert!((float(player.velocity) - velocity).abs() < 1e-4);
        assert!((float(player.position.x) - x).abs() < slack);
        assert!((float(player.position.y) - y).abs() < slack);
    }
}

#[test]
fn hitbox_of_a_player_agrees_with_the_formula_in_floating_point() {
    let stat = CarStat {
        max_velocity: fixed(5.0),
        rotation_speed: fixed(3.0),
        acceleration: fixed(8.0),
        brake: fixed(6.0),
        hitbox_size: (fixed(16.0), fixed(28.0)),
    };
    let mut player = Player::new(&stat);
    player.position = Point::new(fixed(100.0), fixed(200.0));
    player.rotation = angle(0.7);
    let (sin, cos) = 0.7f64.sin_cos();
    let corners = player.points();
    let expected = [
        ((-16.0 * cos + 28.0 * sin) * 0.5 + 100.0, (-16.0 * sin - 28.0 * cos) * 0.5 + 200.0),
        ((16.0 * cos + 28.0 * sin) * 0.5 + 100.0, (16.0 * sin - 28.0 * cos) * 0.5 + 200.0),
        ((16.0 * cos - 28.0 * sin) * 0.5 + 100.0, (16.0 * sin + 28.0 * cos) * 0.5 + 200.0),
        ((-16.0 * cos - 28.0 * sin) * 0.5 + 100.0, (-16.0 * sin + 28.0 * cos) * 0.5 + 200.0),
    ];
    for i in 0..4 {
        assert!((float(corners[i].x) - expected[i].0).abs() < 3e-5);
        assert!((float(corners[i].y) - expected[i].1).abs() < 3e-5);
    }
}
