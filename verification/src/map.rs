//! Battlefield maps: terrain cells, the line compiler, the map catalog and
//! the direction-switchable board iterator.

use vstd::prelude::*;
use vstd::string::StrSliceExecFns;

verus! {

/// The fixed vocabulary of raw terrain characters.
pub open spec fn is_terrain_char(c: char) -> bool {
    c == 'H' || c == '|' || c == '_' || c == '\\' || c == '*' || c == '#' || c == ','
        || c == '/'
}

/// The cell a raw terrain character compiles to: `*` becomes a `*` drawn
/// over `,` ground, every other character draws itself as background.
pub open spec fn cell_for(c: char) -> Cell {
    if c == '*' {
        Cell { foreground: '*', background: ',' }
    } else {
        Cell { foreground: ' ', background: c }
    }
}

/// One terrain unit of a map: a foreground and a background display
/// character. Equality and copying are by value.
#[derive(Clone, Copy, Debug, PartialEq, Eq, Structural)]
pub struct Cell {
    pub foreground: char,
    pub background: char,
}

impl Cell {
    /// The foreground display character.
    pub fn fore(&self) -> (r: char)
        ensures
            r == self.foreground,
    {
        self.foreground
    }

    /// The background display character.
    pub fn back(&self) -> (r: char)
        ensures
            r == self.background,
    {
        self.background
    }
}

/// Everything that can go wrong while building a map.
#[derive(Clone, Copy, Debug, PartialEq, Eq, Structural)]
pub enum MapError {
    /// A raw terrain line held a character outside the fixed vocabulary;
    /// the offending character is carried along.
    InvalidCharacter(char),
    /// The compiled board was empty, had an empty row, or was not
    /// rectangular.
    MalformedBoard,
}

/// Namespace for the cell compiler.
pub struct CellBuilder {}

impl CellBuilder {
    /// Compiles one raw terrain line into its cells. Validation is
    /// fail-fast: the first character outside the vocabulary aborts the
    /// line with `InvalidCharacter`, and no partial cell list is returned.
    pub fn build_string(input: &str) -> (r: Result<Vec<Cell>, MapError>)
        ensures
            r is Ok <==> line_valid(input@),
            r matches Ok(cells) ==> cells@ == input@.map_values(|c: char| cell_for(c)),
            r matches Err(e) ==> exists|k: int|
                0 <= k < input@.len() && #[trigger] is_first_invalid(input@, k) && e
                    == MapError::InvalidCharacter(input@[k]),
    {
        let n: usize = input.unicode_len();
        let mut cells: Vec<Cell> = Vec::new();
        let mut i: usize = 0;
        while i < n
            invariant
                n == input@.len(),
                0 <= i <= n,
                cells@.len() == i,
                forall|j: int| 0 <= j < i ==> is_terrain_char(#[trigger] input@[j]),
                forall|j: int| 0 <= j < i ==> #[trigger] cells@[j] == cell_for(input@[j]),
            decreases n - i,
        {
            let c: char = input.get_char(i);
            let cell: Cell = match c {
                'H' => Cell { foreground: ' ', background: 'H' },
                '|' => Cell { foreground: ' ', background: '|' },
                '_' => Cell { foreground: ' ', background: '_' },
                '\\' => Cell { foreground: ' ', background: '\\' },
                '*' => Cell { foreground: '*', background: ',' },
                '#' => Cell { foreground: ' ', background: '#' },
                ',' => Cell { foreground: ' ', background: ',' },
                '/' => Cell { foreground: ' ', background: '/' },
                _ => {
                    assert(is_first_invalid(input@, i as int));
                    return Err(MapError::InvalidCharacter(c));
                },
            };
            cells.push(cell);
            i = i + 1;
        }
        assert(cells@ =~= input@.map_values(|c: char| cell_for(c)));
        Ok(cells)
    }
}

/// Every character of the line lies in the terrain vocabulary.
pub open spec fn line_valid(line: Seq<char>) -> bool {
    forall|i: int| 0 <= i < line.len() ==> is_terrain_char(#[trigger] line[i])
}

/// Position `k` holds the first character outside the vocabulary.
pub open spec fn is_first_invalid(line: Seq<char>, k: int) -> bool {
    &&& 0 <= k < line.len()
    &&& !is_terrain_char(line[k])
    &&& forall|j: int| 0 <= j < k ==> is_terrain_char(#[trigger] line[j])
}

/// The views of a vector of raw lines.
pub open spec fn lines_view(ls: Seq<&str>) -> Seq<Seq<char>> {
    ls.map_values(|s: &str| s@)
}

/// Every raw line lies in the terrain vocabulary.
pub open spec fn lines_valid(ls: Seq<Seq<char>>) -> bool {
    forall|i: int| 0 <= i < ls.len() ==> line_valid(#[trigger] ls[i])
}

/// Line `i` is the first raw line with an invalid character, and `k` is the
/// position of the first invalid character on it.
pub open spec fn is_first_invalid_line(ls: Seq<Seq<char>>, i: int, k: int) -> bool {
    &&& 0 <= i < ls.len()
    &&& forall|j: int| 0 <= j < i ==> line_valid(#[trigger] ls[j])
    &&& is_first_invalid(ls[i], k)
}

/// The cell grid that a block of raw lines compiles to.
pub open spec fn compiled_board(ls: Seq<Seq<char>>) -> Seq<Seq<Cell>> {
    ls.map_values(|l: Seq<char>| l.map_values(|c: char| cell_for(c)))
}

/// A usable board: at least one row, no empty row, and all rows of equal
/// length.
pub open spec fn board_wf(b: Seq<Seq<Cell>>) -> bool {
    &&& b.len() > 0
    &&& b[0].len() > 0
    &&& forall|i: int| 0 <= i < b.len() ==> #[trigger] b[i].len() == b[0].len()
}

/// The mathematical value of a [`GameMap`]: its name and its grid of cells.
#[verifier::ext_equal]
pub struct MapModel {
    pub name: Seq<char>,
    pub board: Seq<Seq<Cell>>,
}

/// An immutable named rectangular grid of terrain cells.
#[derive(Clone, Debug)]
pub struct GameMap {
    name: &'static str,
    board: Vec<Vec<Cell>>,
}

impl View for GameMap {
    type V = MapModel;

    closed spec fn view(&self) -> MapModel {
        MapModel { name: self.name@, board: self.board@.map_values(|r: Vec<Cell>| r@) }
    }
}

impl GameMap {
    /// The structural invariant every catalog-built map has: a non-empty
    /// rectangular board with non-empty rows.
    pub open spec fn wf(&self) -> bool {
        board_wf(self@.board)
    }

    /// The map's display name.
    pub fn name(&self) -> (r: &'static str)
        ensures
            r@ == self@.name,
    {
        self.name
    }

    /// An independent copy of the board, so callers cannot disturb the
    /// map's own cells.
    pub fn board(&self) -> (r: Vec<Vec<Cell>>)
        ensures
            r@.map_values(|row: Vec<Cell>| row@) == self@.board,
    {
        let r = copy_board(&self.board);
        assert(r@.map_values(|row: Vec<Cell>| row@) =~= self@.board);
        r
    }

    /// How many rows the board has.
    pub fn length(&self) -> (r: usize)
        ensures
            r == self@.board.len(),
    {
        self.board.len()
    }

    /// How many cells each row has.
    pub fn width(&self) -> (r: usize)
        requires
            self.wf(),
        ensures
            r == self@.board[0].len(),
    {
        self.board[0].len()
    }
}

/// Deep copy of one row of cells.
fn copy_row(row: &Vec<Cell>) -> (r: Vec<Cell>)
    ensures
        r@ == row@,
{
    let mut r: Vec<Cell> = Vec::new();
    let mut j: usize = 0;
    while j < row.len()
        invariant
            0 <= j <= row@.len(),
            r@ == row@.take(j as int),
        decreases row@.len() - j,
    {
        r.push(row[j]);
        j = j + 1;
        assert(r@ =~= row@.take(j as int));
    }
    assert(r@ =~= row@);
    r
}

/// Deep copy of a whole board.
fn copy_board(b: &Vec<Vec<Cell>>) -> (r: Vec<Vec<Cell>>)
    ensures
        r@.len() == b@.len(),
        forall|i: int| 0 <= i < b@.len() ==> #[trigger] r@[i]@ == b@[i]@,
{
    let mut r: Vec<Vec<Cell>> = Vec::new();
    let mut i: usize = 0;
    while i < b.len()
        invariant
            0 <= i <= b@.len(),
            r@.len() == i,
            forall|j: int| 0 <= j < i ==> #[trigger] r@[j]@ == b@[j]@,
        decreases b@.len() - i,
    {
        r.push(copy_row(&b[i]));
        i = i + 1;
    }
    r
}

/// What assembling a map from raw lines must return: compilation errors
/// fail fast with the first offending character, a compiled board that is
/// not usable is `MalformedBoard`, and otherwise the map carries the
/// compiled grid unchanged.
pub open spec fn load_result(ls: Seq<Seq<char>>, nm: Seq<char>, r: Result<GameMap, MapError>) -> bool {
    &&& (r is Ok <==> lines_valid(ls) && board_wf(compiled_board(ls)))
    &&& (r matches Ok(m) ==> m@.name == nm && m@.board == compiled_board(ls) && m.wf())
    &&& (r matches Err(e) ==> match e {
        MapError::InvalidCharacter(c) => exists|i: int, k: int|
            #[trigger] is_first_invalid_line(ls, i, k) && c == ls[i][k],
        MapError::MalformedBoard => lines_valid(ls) && !board_wf(compiled_board(ls)),
    })
}

/// Namespace for assembling maps.
pub struct MapBuilder {}

impl MapBuilder {
    /// Compiles raw lines into a map named `name`. The first invalid
    /// character anywhere aborts the whole load; a compiled board that is
    /// empty, has an empty first row, or is not rectangular is rejected as
    /// `MalformedBoard`.
    pub fn from_lines(name: &'static str, lines: &Vec<&str>) -> (r: Result<GameMap, MapError>)
        ensures
            load_result(lines_view(lines@), name@, r),
    {
        let ghost ls: Seq<Seq<char>> = lines_view(lines@);
        let mut board: Vec<Vec<Cell>> = Vec::new();
        let mut i: usize = 0;
        while i < lines.len()
            invariant
                ls == lines_view(lines@),
                0 <= i <= lines@.len(),
                board@.len() == i,
                forall|j: int| 0 <= j < i ==> line_valid(#[trigger] ls[j]),
                forall|j: int| 0 <= j < i ==> #[trigger] board@[j]@ == compiled_board(ls)[j],
            decreases lines@.len() - i,
        {
            match CellBuilder::build_string(lines[i]) {
                Ok(cells) => {
                    board.push(cells);
                },
                Err(e) => {
                    proof {
                        let k = choose|k: int| is_first_invalid(ls[i as int], k) && e
                            == MapError::InvalidCharacter(ls[i as int][k]);
                        assert(is_first_invalid_line(ls, i as int, k));
                    }
                    return Err(e);
                },
            }
            i = i + 1;
        }
        if board.len() == 0 {
            return Err(MapError::MalformedBoard);
        }
        let width: usize = board[0].len();
        if width == 0 {
            assert(!board_wf(compiled_board(ls)));
            return Err(MapError::MalformedBoard);
        }
        let mut y: usize = 1;
        while y < board.len()
            invariant
                ls == lines_view(lines@),
                board@.len() == ls.len(),
                1 <= y <= board@.len(),
                forall|j: int| 0 <= j < board@.len() ==> #[trigger] board@[j]@ == compiled_board(
                    ls,
                )[j],
                lines_valid(ls),
                width == board@[0]@.len() > 0,
                forall|j: int| 0 <= j < y ==> #[trigger] board@[j]@.len() == width,
            decreases board@.len() - y,
        {
            if board[y].len() != width {
                assert(!board_wf(compiled_board(ls)));
                return Err(MapError::MalformedBoard);
            }
            y = y + 1;
        }
        let m = GameMap { name, board };
        assert(m@.board =~= compiled_board(ls));
        Ok(m)
    }
}

/// Raw terrain lines of the Angled map, as embedded text.
pub open spec fn angled_rows() -> Seq<Seq<char>> {
    seq![
        ",,,,,,,,,,,,,,,,,,,,"@,
        ",,,,,,,,,,,,,,,/####"@,
        ",,,,,,,,,,,/###HHHHH"@,
        ",,,,,,,/###HHHHHHHHH"@,
        ",,,/###HHHHHHHHHHHHH"@,
        "/###HHHHHHHHHHHHHHHH"@,
        "HHHHHHHHHHHHHHHHHHHH"@,
        "HHHHHHHHHHHHHHHHHHHH"@,
    ]
}

fn angled_raw() -> (r: Vec<&'static str>)
    ensures
        lines_view(r@) == angled_rows(),
{
    let mut r: Vec<&'static str> = Vec::new();
    r.push(",,,,,,,,,,,,,,,,,,,,");
    r.push(",,,,,,,,,,,,,,,/####");
    r.push(",,,,,,,,,,,/###HHHHH");
    r.push(",,,,,,,/###HHHHHHHHH");
    r.push(",,,/###HHHHHHHHHHHHH");
    r.push("/###HHHHHHHHHHHHHHHH");
    r.push("HHHHHHHHHHHHHHHHHHHH");
    r.push("HHHHHHHHHHHHHHHHHHHH");
    assert(lines_view(r@) =~= angled_rows());
    r
}

/// Raw terrain lines of the Danger map, as embedded text.
pub open spec fn danger_rows() -> Seq<Seq<char>> {
    seq![
        ",,,,,,,,,,,,,,,,,,,,"@,
        ",,*,,,,,*,,,,,*,,,,,"@,
        ",,,,,,,,,,,,,,,,,,,,"@,
        ",,,,,*,,,,,,*,,,,,*,"@,
        ",,|,,,,,,,,,,,,,|,,,"@,
        ",,|,,,*,,,,,*,,,|,,,"@,
        "__|,,,,,,,,,,,,,|___"@,
        "####################"@,
    ]
}

fn danger_raw() -> (r: Vec<&'static str>)
    ensures
        lines_view(r@) == danger_rows(),
{
    let mut r: Vec<&'static str> = Vec::new();
    r.push(",,,,,,,,,,,,,,,,,,,,");
    r.push(",,*,,,,,*,,,,,*,,,,,");
    r.push(",,,,,,,,,,,,,,,,,,,,");
    r.push(",,,,,*,,,,,,*,,,,,*,");
    r.push(",,|,,,,,,,,,,,,,|,,,");
    r.push(",,|,,,*,,,,,*,,,|,,,");
    r.push("__|,,,,,,,,,,,,,|___");
    r.push("####################");
    assert(lines_view(r@) =~= danger_rows());
    r
}

/// Raw terrain lines of the Reverse map, as embedded text.
pub open spec fn reverse_rows() -> Seq<Seq<char>> {
    seq![
        ",,,,,,,,,,,,,,,,,,,,"@,
        "####\\,,,,,,,,,,,,,,,"@,
        "HHHH#\\,,,,,,,,,,,,,,"@,
        "HHHHH#\\,,,,,,,,,,,,,"@,
        "HHHHHH#\\,,,,,,,,,,,,"@,
        "HHHHHHH#\\,,,,,,,,,,,"@,
        "HHHHHHHH#\\,,,,,,,,,,"@,
        "HHHHHHHHH#__________"@,
    ]
}

fn reverse_raw() -> (r: Vec<&'static str>)
    ensures
        lines_view(r@) == reverse_rows(),
{
    let mut r: Vec<&'static str> = Vec::new();
    r.push(",,,,,,,,,,,,,,,,,,,,");
    r.push("####\\,,,,,,,,,,,,,,,");
    r.push("HHHH#\\,,,,,,,,,,,,,,");
    r.push("HHHHH#\\,,,,,,,,,,,,,");
    r.push("HHHHHH#\\,,,,,,,,,,,,");
    r.push("HHHHHHH#\\,,,,,,,,,,,");
    r.push("HHHHHHHH#\\,,,,,,,,,,");
    r.push("HHHHHHHHH#__________");
    assert(lines_view(r@) =~= reverse_rows());
    r
}

/// Raw terrain lines of the Spiral map, as embedded text.
pub open spec fn spiral_rows() -> Seq<Seq<char>> {
    seq![
        "####################"@,
        "#,,,,,,,,,,,,,,,,,,#"@,
        "#,###############,,#"@,
        "#,#,,,,,,,,,,,,,#,,#"@,
        "#,#,######,,,,,,#,,#"@,
        "#,#,,,,,,#,,*,,,#,,#"@,
        "#,########,,,,,,#,,#"@,
        "#,,,,,,,,,,,,,,,#,,#"@,
    ]
}

fn spiral_raw() -> (r: Vec<&'static str>)
    ensures
        lines_view(r@) == spiral_rows(),
{
    let mut r: Vec<&'static str> = Vec::new();
    r.push("####################");
    r.push("#,,,,,,,,,,,,,,,,,,#");
    r.push("#,###############,,#");
    r.push("#,#,,,,,,,,,,,,,#,,#");
    r.push("#,#,######,,,,,,#,,#");
    r.push("#,#,,,,,,#,,*,,,#,,#");
    r.push("#,########,,,,,,#,,#");
    r.push("#,,,,,,,,,,,,,,,#,,#");
    assert(lines_view(r@) =~= spiral_rows());
    r
}

/// Raw terrain lines of the Tutorial map, as embedded text.
pub open spec fn tutorial_rows() -> Seq<Seq<char>> {
    seq![
        "HHHHHHHHHHHHHHHHHHHHHHHHHHHHHHHHHH"@,
        "H,,,,,,,,,,,,,,,,,,,,,,,,,,,,,,,,H"@,
        "H,,,,,|_|,,,,,,,,,,,,,,,,,,,,,,,,H"@,
        "H,,,,,|,|,,,,,,,,,,,,,*,,,,,,,,,,H"@,
        "H,,,,,###,,,,,,,,,,,,###,,,,,,,,,H"@,
        "H,,,,,,,,,,,,,,,,,,,,,,,,,,,,,,,,H"@,
        "H,,,,,,,,,,,__,,,,,,,,,,,,,,,,,,,H"@,
        "H,,,,,,,,,,/,,\\,,,,,,,,,,,,,,,,,,H"@,
        "H,,,,,,,,,/,,,,\\,,,,,,,,,,,,,,,,,H"@,
        "H,,,,,,__/,,,,,,\\__,,,,,,,,,,,,,,H"@,
        "H,,,,,/,,,,,,,,,,,,\\,,,,,,,,,,,,,H"@,
        "H____________,,,,,,,,,,,,,,,,,,,,H"@,
    ]
}

fn tutorial_raw() -> (r: Vec<&'static str>)
    ensures
        lines_view(r@) == tutorial_rows(),
{
    let mut r: Vec<&'static str> = Vec::new();
    r.push("HHHHHHHHHHHHHHHHHHHHHHHHHHHHHHHHHH");
    r.push("H,,,,,,,,,,,,,,,,,,,,,,,,,,,,,,,,H");
    r.push("H,,,,,|_|,,,,,,,,,,,,,,,,,,,,,,,,H");
    r.push("H,,,,,|,|,,,,,,,,,,,,,*,,,,,,,,,,H");
    r.push("H,,,,,###,,,,,,,,,,,,###,,,,,,,,,H");
    r.push("H,,,,,,,,,,,,,,,,,,,,,,,,,,,,,,,,H");
    r.push("H,,,,,,,,,,,__,,,,,,,,,,,,,,,,,,,H");
    r.push("H,,,,,,,,,,/,,\\,,,,,,,,,,,,,,,,,,H");
    r.push("H,,,,,,,,,/,,,,\\,,,,,,,,,,,,,,,,,H");
    r.push("H,,,,,,__/,,,,,,\\__,,,,,,,,,,,,,,H");
    r.push("H,,,,,/,,,,,,,,,,,,\\,,,,,,,,,,,,,H");
    r.push("H____________,,,,,,,,,,,,,,,,,,,,H");
    assert(lines_view(r@) =~= tutorial_rows());
    r
}

/// Raw terrain lines of the Wiggler map, as embedded text.
pub open spec fn wiggler_rows() -> Seq<Seq<char>> {
    seq![
        ",,,,,,,,,,,,,,,,,,,,"@,
        ",,/\\,,,,/\\,,,,/\\,,,,"@,
        ",/,,\\,,/,,\\,,/,,\\,,/"@,
        "/,,,,\\/,,,,\\/,,,,\\/,"@,
        ",,,,,,,,,,,,,,,,,,,,"@,
        "_/\\__/\\__/\\__/\\__/\\_"@,
        "####################"@,
        "HHHHHHHHHHHHHHHHHHHH"@,
    ]
}

fn wiggler_raw() -> (r: Vec<&'static str>)
    ensures
        lines_view(r@) == wiggler_rows(),
{
    let mut r: Vec<&'static str> = Vec::new();
    r.push(",,,,,,,,,,,,,,,,,,,,");
    r.push(",,/\\,,,,/\\,,,,/\\,,,,");
    r.push(",/,,\\,,/,,\\,,/,,\\,,/");
    r.push("/,,,,\\/,,,,\\/,,,,\\/,");
    r.push(",,,,,,,,,,,,,,,,,,,,");
    r.push("_/\\__/\\__/\\__/\\__/\\_");
    r.push("####################");
    r.push("HHHHHHHHHHHHHHHHHHHH");
    assert(lines_view(r@) =~= wiggler_rows());
    r
}

/// The closed set of map names the catalog knows.
#[derive(Debug)]
pub enum MapName {
    Angled,
    Danger,
    Reverse,
    Spiral,
    Tutorial,
    Wiggler,
}

/// The raw terrain lines embedded for a catalog name.
pub open spec fn map_rows(name: MapName) -> Seq<Seq<char>> {
    match name {
        MapName::Angled => angled_rows(),
        MapName::Danger => danger_rows(),
        MapName::Reverse => reverse_rows(),
        MapName::Spiral => spiral_rows(),
        MapName::Tutorial => tutorial_rows(),
        MapName::Wiggler => wiggler_rows(),
    }
}

/// The display name a catalog name compiles under: the fixed literal
/// matching the variant.
pub open spec fn map_name_chars(name: MapName) -> Seq<char> {
    match name {
        MapName::Angled => "Angled"@,
        MapName::Danger => "Danger"@,
        MapName::Reverse => "Reverse"@,
        MapName::Spiral => "Spiral"@,
        MapName::Tutorial => "Tutorial"@,
        MapName::Wiggler => "Wiggler"@,
    }
}

/// Which map a caller's optional choice resolves to: `None` means the
/// Tutorial map.
pub open spec fn resolve_name(name: Option<MapName>) -> MapName {
    match name {
        Some(n) => n,
        None => MapName::Tutorial,
    }
}

impl MapBuilder {
    /// Looks a map up by name and compiles it from its embedded raw text;
    /// `None` resolves to the Tutorial map. The first compilation error
    /// aborts the whole load and is handed back unchanged.
    pub fn from_named(map_name: Option<MapName>) -> (r: Result<GameMap, MapError>)
        ensures
            load_result(map_rows(resolve_name(map_name)), map_name_chars(resolve_name(map_name)), r),
    {
        match map_name {
            Some(map_val) => MapBuilder::load_map(map_val),
            None => MapBuilder::load_map(MapName::Tutorial),
        }
    }

    /// Compiles the embedded raw text of one catalog name.
    fn load_map(selected_map: MapName) -> (r: Result<GameMap, MapError>)
        ensures
            load_result(map_rows(selected_map), map_name_chars(selected_map), r),
    {
        match selected_map {
            MapName::Angled => MapBuilder::from_lines("Angled", &angled_raw()),
            MapName::Danger => MapBuilder::from_lines("Danger", &danger_raw()),
            MapName::Reverse => MapBuilder::from_lines("Reverse", &reverse_raw()),
            MapName::Spiral => MapBuilder::from_lines("Spiral", &spiral_raw()),
            MapName::Tutorial => MapBuilder::from_lines("Tutorial", &tutorial_raw()),
            MapName::Wiggler => MapBuilder::from_lines("Wiggler", &wiggler_raw()),
        }
    }
}

/// Relies on str's `PartialEq`: two string slices compare equal exactly
/// when their contents are equal.
#[verifier::external_body]
fn str_eq(a: &str, b: &str) -> (r: bool)
    ensures
        r == (a@ == b@),
{
    a == b
}

/// Compares two rows of cells by value.
fn rows_equal(a: &Vec<Cell>, b: &Vec<Cell>) -> (r: bool)
    ensures
        r == (a@ == b@),
{
    if a.len() != b.len() {
        return false;
    }
    let mut j: usize = 0;
    while j < a.len()
        invariant
            a@.len() == b@.len(),
            0 <= j <= a@.len(),
            forall|i: int| 0 <= i < j ==> #[trigger] a@[i] == b@[i],
        decreases a@.len() - j,
    {
        if a[j] != b[j] {
            return false;
        }
        j = j + 1;
    }
    assert(a@ =~= b@);
    true
}

/// Compares two boards cell by cell.
fn boards_equal(a: &Vec<Vec<Cell>>, b: &Vec<Vec<Cell>>) -> (r: bool)
    ensures
        r == (a@.map_values(|row: Vec<Cell>| row@) == b@.map_values(|row: Vec<Cell>| row@)),
{
    let ghost av = a@.map_values(|row: Vec<Cell>| row@);
    let ghost bv = b@.map_values(|row: Vec<Cell>| row@);
    if a.len() != b.len() {
        assert(av.len() != bv.len());
        return false;
    }
    let mut y: usize = 0;
    while y < a.len()
        invariant
            av == a@.map_values(|row: Vec<Cell>| row@),
            bv == b@.map_values(|row: Vec<Cell>| row@),
            a@.len() == b@.len(),
            0 <= y <= a@.len(),
            forall|i: int| 0 <= i < y ==> #[trigger] av[i] == bv[i],
        decreases a@.len() - y,
    {
        if !rows_equal(&a[y], &b[y]) {
            assert(av[y as int] != bv[y as int]);
            return false;
        }
        y = y + 1;
    }
    assert(av =~= bv);
    true
}

impl PartialEq for GameMap {
    fn eq(&self, other: &GameMap) -> (r: bool) {
        str_eq(self.name, other.name) && boards_equal(&self.board, &other.board)
    }
}

impl vstd::std_specs::cmp::PartialEqSpecImpl for GameMap {
    open spec fn obeys_eq_spec() -> bool {
        true
    }

    open spec fn eq_spec(&self, other: &GameMap) -> bool {
        self@.name == other@.name && self@.board == other@.board
    }
}

impl GameMap {
    /// Convenience entry point on the map type itself: same lookup and
    /// compilation as [`MapBuilder::from_named`].
    pub fn from_named(map_name: Option<MapName>) -> (r: Result<GameMap, MapError>)
        ensures
            load_result(
                map_rows(resolve_name(map_name)),
                map_name_chars(resolve_name(map_name)),
                r,
            ),
    {
        MapBuilder::from_named(map_name)
    }
}

/// The two traversal orders of the board iterator.
#[derive(Debug, PartialEq, Eq, Structural, Clone, Copy)]
pub enum Direction {
    Vertical,
    Horizontal,
}

/// The mathematical state of a board iterator: the grid it walks, the
/// cursor, and the order in which the cursor advances.
#[verifier::ext_equal]
pub struct IterModel {
    pub board: Seq<Seq<Cell>>,
    pub x: int,
    pub y: int,
    pub direction: Direction,
}

/// Number of rows the iterator's grid has.
pub open spec fn iter_length(m: IterModel) -> int {
    m.board.len() as int
}

/// Number of cells in each row of the iterator's grid.
pub open spec fn iter_width(m: IterModel) -> int {
    m.board[0].len() as int
}

/// The cursor sits on a cell of the grid.
pub open spec fn iter_in_range(m: IterModel) -> bool {
    &&& 0 <= m.x < iter_width(m)
    &&& 0 <= m.y < iter_length(m)
}

/// The cursor has come to rest just past the grid: wrapping off the last
/// cell leaves it one row below the top-left corner (Horizontal order) or
/// one column right of it (Vertical order).
pub open spec fn iter_past_end(m: IterModel) -> bool {
    ||| m.x == 0 && m.y == iter_length(m)
    ||| m.x == iter_width(m) && m.y == 0
}

/// A well-formed iterator state: a usable grid, and a cursor either on a
/// cell or at rest just past the grid.
pub open spec fn iter_wf(m: IterModel) -> bool {
    &&& board_wf(m.board)
    &&& iter_in_range(m) || iter_past_end(m)
}

/// The traversal is exhausted once the cursor has moved past the grid:
/// every cell, the bottom-right one included, has been yielded by then.
pub open spec fn iter_at_end(m: IterModel) -> bool {
    m.x >= iter_width(m) || m.y >= iter_length(m)
}

/// What one step yields: the cell under the cursor, or nothing once the
/// traversal is exhausted.
pub open spec fn iter_current(m: IterModel) -> Option<Cell> {
    if iter_at_end(m) {
        None
    } else {
        Some(m.board[m.y][m.x])
    }
}

/// The iterator state after one step: the cursor advances column-first in
/// Horizontal order and row-first in Vertical order, wrapping at the edge
/// (off the last cell it wraps past the grid); an exhausted iterator
/// stays put.
pub open spec fn iter_step(m: IterModel) -> IterModel {
    if iter_at_end(m) {
        m
    } else {
        match m.direction {
            Direction::Horizontal => if m.x + 1 >= iter_width(m) {
                IterModel { x: 0, y: m.y + 1, ..m }
            } else {
                IterModel { x: m.x + 1, ..m }
            },
            Direction::Vertical => if m.y + 1 >= iter_length(m) {
                IterModel { x: m.x + 1, y: 0, ..m }
            } else {
                IterModel { y: m.y + 1, ..m }
            },
        }
    }
}

/// How many cells of the grid lie strictly before the cursor in the
/// iterator's own order.
pub open spec fn iter_rank(m: IterModel) -> int {
    match m.direction {
        Direction::Horizontal => m.y * iter_width(m) + m.x,
        Direction::Vertical => m.x * iter_length(m) + m.y,
    }
}

/// How many cells the grid has in all.
pub open spec fn iter_total(m: IterModel) -> int {
    iter_length(m) * iter_width(m)
}

/// One step of a well-formed, unexhausted iterator stays on the same grid
/// and direction, stays well-formed, and advances its rank by exactly
/// one; when the step exhausts the traversal, the whole grid has been
/// walked.
pub proof fn lemma_iter_step(m: IterModel)
    requires
        iter_wf(m),
        !iter_at_end(m),
    ensures
        iter_wf(iter_step(m)),
        iter_step(m).board == m.board,
        iter_step(m).direction == m.direction,
        iter_rank(iter_step(m)) == iter_rank(m) + 1,
        iter_at_end(iter_step(m)) ==> iter_rank(iter_step(m)) == iter_total(m),
{
    let l = iter_length(m);
    let w = iter_width(m);
    assert((m.y + 1) * w == m.y * w + w) by (nonlinear_arith);
    assert((m.x + 1) * l == m.x * l + l) by (nonlinear_arith);
    assert(l * w == w * l) by (nonlinear_arith);
}

/// The rank of a well-formed iterator lies between zero and the cell
/// count.
pub proof fn lemma_iter_rank_bounds(m: IterModel)
    requires
        iter_wf(m),
    ensures
        0 <= iter_rank(m) <= iter_total(m),
{
    let l = iter_length(m);
    let w = iter_width(m);
    if iter_in_range(m) {
        assert(m.y * w + m.x < l * w && m.x * l + m.y < l * w && 0 <= m.y * w && 0 <= m.x * l)
            by (nonlinear_arith)
            requires
                0 <= m.x < w,
                0 <= m.y < l,
            ;
    } else {
        assert(0 <= m.y * w + m.x <= l * w && 0 <= m.x * l + m.y <= l * w) by (nonlinear_arith)
            requires
                1 <= w,
                1 <= l,
                (m.x == 0 && m.y == l) || (m.x == w && m.y == 0),
            ;
    }
}

/// How many cells a traversal that keeps its direction still yields from
/// state `m` before it is exhausted.
pub open spec fn iter_remaining(m: IterModel) -> nat
    decreases iter_total(m) - iter_rank(m) when iter_wf(m) via iter_remaining_decreases
{
    if iter_at_end(m) {
        0
    } else {
        1 + iter_remaining(iter_step(m))
    }
}

#[via_fn]
proof fn iter_remaining_decreases(m: IterModel) {
    if !iter_at_end(m) {
        lemma_iter_step(m);
        lemma_iter_rank_bounds(iter_step(m));
    }
}

/// From any well-formed state that is not yet exhausted, a
/// fixed-direction traversal yields one cell for every rank from the
/// cursor's up to the last.
pub proof fn lemma_iter_remaining(m: IterModel)
    requires
        iter_wf(m),
        !iter_at_end(m),
    ensures
        iter_remaining(m) == iter_total(m) - iter_rank(m),
    decreases iter_total(m) - iter_rank(m),
{
    lemma_iter_rank_bounds(m);
    lemma_iter_step(m);
    lemma_iter_rank_bounds(iter_step(m));
    if !iter_at_end(iter_step(m)) {
        lemma_iter_remaining(iter_step(m));
    }
}

/// A full traversal of a usable board from the top-left corner visits
/// every cell exactly once, in either order: it yields the same number of
/// cells in Horizontal and in Vertical order, the grid's whole
/// length-times-width of them.
pub proof fn lemma_traversal_direction_independent(board: Seq<Seq<Cell>>)
    requires
        board_wf(board),
    ensures
        iter_remaining(IterModel { board, x: 0, y: 0, direction: Direction::Horizontal })
            == board.len() * board[0].len(),
        iter_remaining(IterModel { board, x: 0, y: 0, direction: Direction::Vertical })
            == board.len() * board[0].len(),
{
    let h = IterModel { board, x: 0, y: 0, direction: Direction::Horizontal };
    let v = IterModel { board, x: 0, y: 0, direction: Direction::Vertical };
    lemma_iter_remaining(h);
    lemma_iter_remaining(v);
}

/// A resumable, direction-switchable traversal over a map's cells. It
/// walks its own copy of the board, so the map stays untouched.
#[derive(Debug)]
pub struct MapIntoIterator {
    board: Vec<Vec<Cell>>,
    x: usize,
    y: usize,
    direction: Direction,
}

impl View for MapIntoIterator {
    type V = IterModel;

    closed spec fn view(&self) -> IterModel {
        IterModel {
            board: self.board@.map_values(|r: Vec<Cell>| r@),
            x: self.x as int,
            y: self.y as int,
            direction: self.direction,
        }
    }
}

impl MapIntoIterator {
    /// The iterator's structural invariant.
    pub open spec fn wf(&self) -> bool {
        iter_wf(self@)
    }

    /// Switches the traversal order; the change applies to the next step
    /// only and never moves the cursor back: board and cursor stay as they
    /// are.
    pub fn change_direction(&mut self, new_direction: Direction)
        ensures
            final(self)@ == (IterModel { direction: new_direction, ..old(self)@ }),
    {
        self.direction = new_direction;
        assert(self@ =~= (IterModel { direction: new_direction, ..old(self)@ }));
    }

    /// The current traversal order.
    pub fn direction(self) -> (r: Direction)
        ensures
            r == self@.direction,
    {
        self.direction
    }

    /// Yields the cell under the cursor and advances the cursor in the
    /// current order, wrapping past the grid off the last cell; yields
    /// nothing once the cursor has moved past the grid, so every cell,
    /// the bottom-right one included, is yielded exactly once over a full
    /// traversal.
    pub fn next(&mut self) -> (r: Option<Cell>)
        requires
            old(self).wf(),
        ensures
            final(self).wf(),
            r == iter_current(old(self)@),
            final(self)@ == iter_step(old(self)@),
    {
        let width: usize = self.board[0].len();
        let length: usize = self.board.len();
        if self.x >= width || self.y >= length {
            return None;
        }
        let result: Cell = self.board[self.y][self.x];
        match self.direction {
            Direction::Horizontal => {
                if self.x + 1 >= width {
                    self.x = 0;
                    self.y = self.y + 1;
                } else {
                    self.x = self.x + 1;
                }
            },
            Direction::Vertical => {
                if self.y + 1 >= length {
                    self.y = 0;
                    self.x = self.x + 1;
                } else {
                    self.y = self.y + 1;
                }
            },
        }
        assert(self@ =~= iter_step(old(self)@));
        Some(result)
    }
}

impl GameMap {
    /// Starts a Horizontal traversal at the top-left cell, over an
    /// independent copy of the board.
    pub fn into_iter(&self) -> (r: MapIntoIterator)
        requires
            self.wf(),
        ensures
            r@ == (IterModel { board: self@.board, x: 0, y: 0, direction: Direction::Horizontal }),
            r.wf(),
    {
        let r = MapIntoIterator {
            board: copy_board(&self.board),
            x: 0,
            y: 0,
            direction: Direction::Horizontal,
        };
        assert(r@ =~= (IterModel {
            board: self@.board,
            x: 0,
            y: 0,
            direction: Direction::Horizontal,
        }));
        r
    }
}

} // verus!
