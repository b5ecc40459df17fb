use chess::error::ChessError;
use chess::square::{File, Rank, Square};

#[test]
fn file_new_accepts_lowercase_letters() {
    let letters = ['a', 'b', 'c', 'd', 'e', 'f', 'g', 'h'];
    for (i, c) in letters.iter().enumerate() {
        let f = File::new(*c).unwrap();
        assert_eq!(f.index(), i as u8);
    }
}

#[test]
fn file_new_rejects_uppercase_and_other_characters() {
    assert_eq!(File::new('A'), Err(ChessError::MalformedCoordinate));
    assert_eq!(File::new('i'), Err(ChessError::MalformedCoordinate));
    assert_eq!(File::new('1'), Err(ChessError::MalformedCoordinate));
    assert_eq!(File::new(' '), Err(ChessError::MalformedCoordinate));
}

#[test]
fn file_from_str_is_case_insensitive() {
    assert_eq!(File::from_str("a").unwrap().index(), 0);
    assert_eq!(File::from_str("A").unwrap().index(), 0);
    assert_eq!(File::from_str("h").unwrap().index(), 7);
    assert_eq!(File::from_str("H").unwrap().index(), 7);
}

#[test]
fn file_from_str_rejects_bad_strings() {
    assert_eq!(File::from_str(""), Err(ChessError::MalformedCoordinate));
    assert_eq!(File::from_str("ab"), Err(ChessError::MalformedCoordinate));
    assert_eq!(File::from_str("i"), Err(ChessError::MalformedCoordinate));
}

#[test]
fn file_display_round_trips() {
    for c in ['a', 'b', 'c', 'd', 'e', 'f', 'g', 'h'] {
        let f = File::new(c).unwrap();
        assert_eq!(f.to_string(), c.to_string());
    }
}

#[test]
fn rank_new_accepts_one_through_eight() {
    for r in 1u8..=8 {
        let k = Rank::new(r).unwrap();
        assert_eq!(k.index(), r - 1);
    }
}

#[test]
fn rank_new_rejects_zero_and_nine() {
    assert_eq!(Rank::new(0), Err(ChessError::MalformedCoordinate));
    assert_eq!(Rank::new(9), Err(ChessError::MalformedCoordinate));
    assert_eq!(Rank::new(255), Err(ChessError::MalformedCoordinate));
}

#[test]
fn rank_from_str_parses_digits() {
    for r in 1u8..=8 {
        let t = format!("{}", r);
        let k = Rank::from_str(&t).unwrap();
        assert_eq!(k.index(), r - 1);
    }
}

#[test]
fn rank_from_str_rejects_bad_strings() {
    assert_eq!(Rank::from_str("0"), Err(ChessError::MalformedCoordinate));
    assert_eq!(Rank::from_str("9"), Err(ChessError::MalformedCoordinate));
    assert_eq!(Rank::from_str(""), Err(ChessError::MalformedCoordinate));
    assert_eq!(Rank::from_str("12"), Err(ChessError::MalformedCoordinate));
    assert_eq!(Rank::from_str("a"), Err(ChessError::MalformedCoordinate));
}

#[test]
fn rank_display_round_trips() {
    for r in 1u8..=8 {
        let k = Rank::new(r).unwrap();
        assert_eq!(k.to_string(), format!("{}", r));
    }
}

#[test]
fn rank_for_each_walks_seven_ranks_in_order() {
    let ranks = Rank::for_each();
    assert_eq!(ranks.len(), 7);
    for (i, k) in ranks.iter().enumerate() {
        assert_eq!(k.index(), i as u8);
    }
}

#[test]
fn file_for_each_walks_seven_files_in_order() {
    let files = File::for_each();
    assert_eq!(files.len(), 7);
    for (i, f) in files.iter().enumerate() {
        assert_eq!(f.index(), i as u8);
    }
}

#[test]
fn square_new_pairs_file_and_rank() {
    let f = File::new('c').unwrap();
    let k = Rank::new(5).unwrap();
    let s = Square::new(f, k);
    assert_eq!(s.file, f);
    assert_eq!(s.rank, k);
    assert_eq!(s.indices(), (2, 4));
}

#[test]
fn square_from_str_parses_well_formed_strings() {
    let s = Square::from_str("e4").unwrap();
    assert_eq!(s.indices(), (4, 3));
    let s = Square::from_str("a1").unwrap();
    assert_eq!(s.indices(), (0, 0));
    let s = Square::from_str("h8").unwrap();
    assert_eq!(s.indices(), (7, 7));
}

#[test]
fn square_from_str_accepts_uppercase_file_letters() {
    assert_eq!(Square::from_str("E4").unwrap(), Square::from_str("e4").unwrap());
}

#[test]
fn square_from_str_rejects_bad_strings() {
    assert_eq!(Square::from_str(""), Err(ChessError::MalformedCoordinate));
    assert_eq!(Square::from_str("e"), Err(ChessError::MalformedCoordinate));
    assert_eq!(Square::from_str("e44"), Err(ChessError::MalformedCoordinate));
    assert_eq!(Square::from_str("i4"), Err(ChessError::MalformedCoordinate));
    assert_eq!(Square::from_str("e9"), Err(ChessError::MalformedCoordinate));
    assert_eq!(Square::from_str("e0"), Err(ChessError::MalformedCoordinate));
    assert_eq!(Square::from_str("4e"), Err(ChessError::MalformedCoordinate));
}

#[test]
fn square_to_string_round_trips_all_64_squares() {
    for f in ['a', 'b', 'c', 'd', 'e', 'f', 'g', 'h'] {
        for r in 1u8..=8 {
            let t = format!("{}{}", f, r);
            let s = Square::from_str(&t).unwrap();
            assert_eq!(s.to_string(), t);
        }
    }
}

#[test]
fn squares_are_equal_iff_file_and_rank_match() {
    let a = Square::from_str("c3").unwrap();
    let b = Square::from_str("c3").unwrap();
    let c = Square::from_str("c4").unwrap();
    let d = Square::from_str("d3").unwrap();
    assert_eq!(a, b);
    assert_ne!(a, c);
    assert_ne!(a, d);
}
