use artillery_core::map::{Cell, CellBuilder, Direction, GameMap, MapBuilder, MapError, MapName};

#[test]
// Nerd Note: The Tutorial Map is 34X12
fn length_and_width() {
    let test = MapBuilder::from_named(None);

    assert!({
        match test.clone() {
            Err(ex) => panic!("{:?}", ex),
            Ok(map_val) => match map_val.length() {
                12 => true,
                _ => false,
            },
        }
    });

    assert!({
        match test.clone() {
            Err(ex) => panic!("{:?}", ex),
            Ok(map_val) => match map_val.width() {
                34 => true,
                _ => false,
            },
        }
    });
}

#[test]
fn invalid_characters_fallback() {
    let test = CellBuilder::build_string("How Does This Not Exist");

    assert!(test.is_err() && test == Err(MapError::InvalidCharacter('o')));
}

#[test]
fn map_invalid_characters_fallback() {
    // Validation is fail-fast: the very first character outside the
    // vocabulary is reported, and no cells come back.
    let test = CellBuilder::build_string("memes");

    assert!(test == Err(MapError::InvalidCharacter('m')));
}

#[test]
fn builder_test() {
    let m_test = match MapBuilder::from_named(None) {
        Ok(map) => map,
        Err(ex) => panic!("{:?}", ex),
    };

    println!("{:?}", m_test);
}

#[test]
fn first_background_char_of_tutorial() {
    let test = MapBuilder::from_named(None).unwrap();

    assert_eq!(test.board().first().unwrap().first().unwrap().back(), 'H');
}

#[test]
fn first_character_from_iterator_test() {
    let test = MapBuilder::from_named(None).unwrap();

    let test_iter = test.into_iter().next().unwrap();

    assert!(test_iter.back() == 'H');
}

#[test]
#[should_panic]
fn all_characters_are_not_h() {
    let test = MapBuilder::from_named(None).unwrap();

    let mut it = test.into_iter();
    while let Some(chara) = it.next() {
        assert!(chara.back() == 'H');
    }
}

#[test]
fn change_iterator_direction() {
    let test = MapBuilder::from_named(None).unwrap();

    let mut test_iter = test.into_iter();

    test_iter.change_direction(Direction::Vertical);

    assert!(test_iter.direction() == Direction::Vertical);
}

#[test]
fn check_vertical_versus_horizontal_map() {
    let test = MapBuilder::from_named(None).unwrap();

    let mut test_iter = test.into_iter();

    test_iter.change_direction(Direction::Vertical);

    for _x in 1..75 {
        test_iter.next();
    }

    assert!(
        test_iter.next().unwrap().back() == '|' && test_iter.next().unwrap().back() == '|'
    );

    test_iter = test.into_iter();

    for _x in 1..75 {
        test_iter.next();
    }

    assert!(
        test_iter.next().unwrap().back() == '|' && test_iter.next().unwrap().back() == '_'
    );
}

#[test]
fn iterate_horizontally() {
    let mut idx = 0;

    let map = MapBuilder::from_named(None).unwrap();
    let mut it = map.into_iter();
    while let Some(_) = it.next() {
        idx = idx + 1;
    }

    // Every cell of the 34-by-12 Tutorial board is yielded exactly once.
    assert_eq!(idx, 408);
}

#[test]
fn iterate_vertically() {
    let mut idx = 0;

    let elems = MapBuilder::from_named(None).unwrap();

    let mut map_iter = elems.into_iter();

    map_iter.change_direction(Direction::Vertical);

    while let Some(_) = map_iter.next() {
        idx = idx + 1;
    }

    assert_eq!(idx, 408);
}

#[test]
fn build_all_maps() {
    let _map_default = MapBuilder::from_named(None).unwrap();
    let _map_angled = MapBuilder::from_named(Some(MapName::Angled)).unwrap();
    let _map_danger = MapBuilder::from_named(Some(MapName::Danger)).unwrap();
    let _map_reverse = MapBuilder::from_named(Some(MapName::Reverse)).unwrap();
    let _map_spiral = MapBuilder::from_named(Some(MapName::Spiral)).unwrap();
    let _map_wiggler = MapBuilder::from_named(Some(MapName::Wiggler)).unwrap();
}

#[test]
fn compile_single_wall_cell() {
    let cells = CellBuilder::build_string("H").unwrap();

    assert_eq!(cells.len(), 1);
    assert_eq!(cells[0].back(), 'H');
    assert_eq!(cells[0].fore(), ' ');
}

#[test]
fn compile_full_vocabulary() {
    let cells = CellBuilder::build_string("H|_\\*#,/").unwrap();

    let backs: Vec<char> = cells.iter().map(|c| c.back()).collect();
    assert_eq!(backs, vec!['H', '|', '_', '\\', ',', '#', ',', '/']);
    let fores: Vec<char> = cells.iter().map(|c| c.fore()).collect();
    assert_eq!(fores, vec![' ', ' ', ' ', ' ', '*', ' ', ' ', ' ']);
}

#[test]
fn malformed_boards_are_rejected() {
    // Ragged rows.
    let ragged: Vec<&str> = vec!["H,", "H"];
    assert_eq!(MapBuilder::from_lines("ragged", &ragged), Err(MapError::MalformedBoard));

    // No rows at all.
    let empty: Vec<&str> = Vec::new();
    assert_eq!(MapBuilder::from_lines("empty", &empty), Err(MapError::MalformedBoard));

    // Rows with no cells.
    let hollow: Vec<&str> = vec!["", ""];
    assert_eq!(MapBuilder::from_lines("hollow", &hollow), Err(MapError::MalformedBoard));
}

#[test]
fn compilation_error_aborts_whole_load() {
    let lines: Vec<&str> = vec!["H,H", "HqH"];
    assert_eq!(MapBuilder::from_lines("bad", &lines), Err(MapError::InvalidCharacter('q')));
}

#[test]
fn map_equality_is_by_name_and_board() {
    let lines: Vec<&str> = vec!["H,H", "H*H"];
    let a = MapBuilder::from_lines("twin", &lines).unwrap();
    let b = MapBuilder::from_lines("twin", &lines).unwrap();
    let c = MapBuilder::from_lines("other", &lines).unwrap();
    let shorter: Vec<&str> = vec!["H,H"];
    let d = MapBuilder::from_lines("twin", &shorter).unwrap();

    assert!(a == b);
    assert!(a != c);
    assert!(a != d);
}

#[test]
fn traversal_counts_match_in_both_directions() {
    let map = MapBuilder::from_named(Some(MapName::Angled)).unwrap();
    let expected = map.length() * map.width();

    let mut horizontal = 0;
    let mut it = map.into_iter();
    while let Some(_) = it.next() {
        horizontal += 1;
    }

    let mut vertical = 0;
    let mut it = map.into_iter();
    it.change_direction(Direction::Vertical);
    while let Some(_) = it.next() {
        vertical += 1;
    }

    assert_eq!(horizontal, expected);
    assert_eq!(vertical, expected);
}

#[test]
fn switching_direction_keeps_the_cursor() {
    let map = MapBuilder::from_named(None).unwrap();

    // Walk two cells ahead horizontally, then switch: the next yield must
    // be the third cell of the first row, not a restart.
    let mut it = map.into_iter();
    it.next();
    it.next();
    it.change_direction(Direction::Vertical);
    let board = map.board();
    assert_eq!(it.next().unwrap(), board[0][2]);
    // The cursor now moves down the third column.
    assert_eq!(it.next().unwrap(), board[1][2]);
}

#[test]
fn map_names_match_the_catalog() {
    assert_eq!(MapBuilder::from_named(None).unwrap().name(), "Tutorial");
    assert_eq!(MapBuilder::from_named(Some(MapName::Wiggler)).unwrap().name(), "Wiggler");
}

#[test]
fn cell_is_a_plain_value() {
    let cells = CellBuilder::build_string("*").unwrap();
    let copy: Cell = cells[0];
    assert_eq!(copy, cells[0]);
    assert_eq!(copy.fore(), '*');
    assert_eq!(copy.back(), ',');
}

#[test]
fn boards_are_independent_copies() {
    let map: GameMap = MapBuilder::from_named(None).unwrap();
    let mut first = map.board();
    first[0][0] = Cell { foreground: '*', background: ',' };
    // The map's own cells are untouched.
    assert_eq!(map.board()[0][0].back(), 'H');
}

#[test]
fn every_cell_is_yielded_including_the_last() {
    // A board whose only '*' cell sits bottom-right: both traversal
    // orders must hand it out, as the final yield.
    let lines: Vec<&str> = vec!["H,", ",*"];
    let map = MapBuilder::from_lines("corner", &lines).unwrap();

    let mut it = map.into_iter();
    let mut cells = Vec::new();
    while let Some(c) = it.next() {
        cells.push(c);
    }
    assert_eq!(cells.len(), 4);
    assert_eq!(cells[3].fore(), '*');
    // Once exhausted, the iterator stays exhausted.
    assert!(it.next().is_none());
    assert!(it.next().is_none());

    let mut it = map.into_iter();
    it.change_direction(Direction::Vertical);
    let mut cells = Vec::new();
    while let Some(c) = it.next() {
        cells.push(c);
    }
    assert_eq!(cells.len(), 4);
    assert_eq!(cells[3].fore(), '*');
    assert!(it.next().is_none());
}
