use rustchess::board::{
    bitscan, east_one, get_diagonals, get_ray, get_rows_and_col, north_one, northeast_one,
    northwest_one, rotate_left, rotate_right, south_one, southeast_one, southwest_one, west_one,
    Ray, Side, A_FILE, RANK_1,
};
use rustchess::pieces::{Bishop, King, Knight, Pawn, Queen, Rook};

#[test]
fn test_pawn() {
    let pawn = Pawn::new(0x1, Side::White);
    assert_eq!(pawn.push(), 0x100 as u64);
    assert_eq!(pawn.double_push(), 0x10000 as u64);
}

#[test]
fn test_knight() {}

#[test]
fn test_bishop() {}

#[test]
fn test_king() {}

#[test]
fn test_queen() {}

#[test]
fn test_rook() {}

#[test]
fn pawn_attacks_direction() {
    // A white pawn on a2 can only capture towards b3; the a-file edge
    // excludes the westward capture.
    let pawn = Pawn::new(1u64 << 8, Side::White);
    assert_eq!(pawn.west_attacks(), 0);
    assert_eq!(pawn.east_attacks(), 1u64 << 17);
    // A black pawn on h7 mirrors this.
    let pawn = Pawn::new(1u64 << 55, Side::Black);
    assert_eq!(pawn.east_attacks(), 0);
    assert_eq!(pawn.west_attacks(), 1u64 << 46);
}

#[test]
fn knight_jumps_no_wrap() {
    // A knight on h4 (square 31) must not wrap onto the a- or b-file.
    let knight = Knight::new(1u64 << 31, Side::White);
    assert_eq!(knight.north_east_east(), 0);
    assert_eq!(knight.south_east_east(), 0);
    assert_eq!(knight.north_north_east(), 0);
    assert_eq!(knight.south_south_east(), 0);
    assert_eq!(knight.north_north_west(), 1u64 << 46);
    assert_eq!(knight.north_west_west(), 1u64 << 37);
    assert_eq!(knight.south_south_west(), 1u64 << 14);
    assert_eq!(knight.south_west_west(), 1u64 << 21);
}

#[test]
fn home_squares() {
    assert_eq!(King::new(Side::White).bboard, 1u64 << 4);
    assert_eq!(King::new(Side::Black).bboard, 1u64 << 60);
    assert_eq!(Queen::new(Side::White).bboard, 1u64 << 3);
    assert_eq!(Queen::new(Side::Black).bboard, 1u64 << 59);
    assert_eq!(Rook::new(0x81, Side::White).bboard, 0x81);
    assert_eq!(Bishop::new(0x24, Side::White).bboard, 0x24);
}

#[test]
fn shifts_move_one_square() {
    let e4 = 1u64 << 28;
    assert_eq!(north_one(e4), 1u64 << 36);
    assert_eq!(south_one(e4), 1u64 << 20);
    assert_eq!(east_one(e4), 1u64 << 29);
    assert_eq!(west_one(e4), 1u64 << 27);
    assert_eq!(northeast_one(e4), 1u64 << 37);
    assert_eq!(northwest_one(e4), 1u64 << 35);
    assert_eq!(southeast_one(e4), 1u64 << 21);
    assert_eq!(southwest_one(e4), 1u64 << 19);
    // Edges do not wrap.
    assert_eq!(east_one(1u64 << 7), 0);
    assert_eq!(west_one(1u64 << 0), 0);
    assert_eq!(north_one(1u64 << 63), 0);
}

#[test]
fn rotates() {
    assert_eq!(rotate_left(1, 1), 2);
    assert_eq!(rotate_left(1u64 << 63, 1), 1);
    assert_eq!(rotate_right(1, 1), 1u64 << 63);
    assert_eq!(rotate_right(rotate_left(0xDEAD, 17), 17), 0xDEAD);
}

#[test]
fn bitscan_finds_lowest() {
    assert_eq!(bitscan(0), None);
    assert_eq!(bitscan(1), Some(0));
    assert_eq!(bitscan(0b101000), Some(3));
    assert_eq!(bitscan(1u64 << 63), Some(63));
}

#[test]
fn rays_extend_to_the_edge() {
    assert_eq!(get_ray(1, Ray::North), A_FILE);
    assert_eq!(get_ray(1, Ray::East), RANK_1);
    assert_eq!(get_ray(1, Ray::NorthEast), 0x8040201008040201);
    assert_eq!(get_rows_and_col(1), A_FILE | RANK_1);
    assert_eq!(get_diagonals(1), 0x8040201008040201);
}
