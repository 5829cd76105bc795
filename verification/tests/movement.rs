use chess_api::Move;
use chess_api::Square;

#[test]
fn uci_format_test() {
    let s = Move::new(Square::new(0, 0), Square::new(7, 7));
    assert_eq!(s.to_uci(), "a1h8");

    let s = Move::new(Square::new(1, 2), Square::new(3, 4));
    assert_eq!(s.to_uci(), "b3d5");
}

#[test]
fn square_uci_corners() {
    assert_eq!(Square::new(0, 0).to_uci(), "a1");
    assert_eq!(Square::new(7, 0).to_uci(), "h1");
    assert_eq!(Square::new(0, 7).to_uci(), "a8");
    assert_eq!(Square::new(7, 7).to_uci(), "h8");
    assert_eq!(Square::new(4, 3).to_uci(), "e4");
}

#[test]
fn square_uci_names_are_distinct() {
    let mut names: Vec<String> = Vec::new();
    for y in 0..8 {
        for x in 0..8 {
            names.push(Square::new(x, y).to_uci());
        }
    }
    assert_eq!(names.len(), 64);
    for i in 0..names.len() {
        assert_eq!(names[i].len(), 2);
        for j in 0..i {
            assert_ne!(names[i], names[j]);
        }
    }
}

#[test]
fn move_uci_splits_into_endpoint_names() {
    for sy in 0..8 {
        for sx in 0..8 {
            let start = Square::new(sx, sy);
            let end = Square::new(7 - sx, 7 - sy);
            let uci = Move::new(start, end).to_uci();
            assert_eq!(uci.len(), 4);
            assert_eq!(&uci[..2], start.to_uci().as_str());
            assert_eq!(&uci[2..], end.to_uci().as_str());
        }
    }
}

#[test]
fn square_to_index_is_file_plus_eight_ranks() {
    assert_eq!(Square::new(0, 0).to_index(), 0);
    assert_eq!(Square::new(7, 0).to_index(), 7);
    assert_eq!(Square::new(0, 1).to_index(), 8);
    assert_eq!(Square::new(3, 2).to_index(), 19);
    assert_eq!(Square::new(7, 7).to_index(), 63);
}
