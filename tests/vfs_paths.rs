use volt_parse::{
    all, char_in_str, fail_if, gen_comb, keyword, maybe, mod_val, no_consume, not, one_or_many, or,
    take_left, take_right, then, FilePos, PErr, POut, PRes, Parser, ParserInput,
};

const PATH_NAME_CHARS: &str = "abcdefghijklmnopqrstuvwxyzABCDEFGHIJKLMNOPQRSTUVWXYZ1234567890_ ";

#[derive(Debug, Clone, PartialEq, Eq)]
enum PathPiece {
    Name(String),
    Current,
    Up,
    Delim,
    Home,
}

#[derive(Debug, Clone, PartialEq, Eq)]
enum UnsafePathType {
    Relative,
    Absolute,
    Home,
}

#[derive(Debug, Clone, PartialEq, Eq)]
struct UnsafePath {
    pieces: Vec<PathPiece>,
    path_type: UnsafePathType,
}

#[derive(Debug, Clone)]
struct SafePath {
    pieces: Vec<String>,
}

impl SafePath {
    fn root() -> SafePath {
        SafePath { pieces: vec![] }
    }
}

impl UnsafePath {
    fn cannonize(base: &SafePath, tail: UnsafePath) -> Result<SafePath, String> {
        let mut new_path = base.clone();
        for piece in tail.pieces.as_slice() {
            match piece {
                PathPiece::Name(name) => new_path.pieces.push(name.clone()),
                PathPiece::Up => {
                    if new_path.pieces.is_empty() {
                        return Err(format!("{:?} with {:?} moves outside of the root", base, tail));
                    }
                    new_path.pieces.pop();
                },
                PathPiece::Current => return Err(String::from("'.' in an unsafe path")),
                PathPiece::Delim => return Err(String::from("'/' in an unsafe path")),
                PathPiece::Home => return Err(String::from("'~' in an unsafe path")),
            }
        }
        Ok(new_path)
    }
}

// A single dot not followed by another dot; what follows is not consumed.
fn single_dot<'a>() -> impl Parser<'a, Val = String> + Clone {
    then(keyword("."), not(no_consume(keyword(".")), || String::from("")), take_left)
}

fn name_parser<'a>() -> impl Parser<'a, Val = PathPiece> + Clone {
    mod_val(
        fail_if(
            one_or_many(or(char_in_str(PATH_NAME_CHARS), single_dot())),
            |res: &PRes<'a, Vec<String>>| res.val.len() == 1 && res.val[0] == ".",
        ),
        |chars: Vec<String>| PathPiece::Name(chars.concat()),
    )
}

fn current_parser<'a>() -> impl Parser<'a, Val = PathPiece> + Clone {
    mod_val(keyword("."), |_: String| PathPiece::Current)
}

fn up_parser<'a>() -> impl Parser<'a, Val = PathPiece> + Clone {
    mod_val(keyword(".."), |_: String| PathPiece::Up)
}

fn delim_parser<'a>() -> impl Parser<'a, Val = PathPiece> + Clone {
    mod_val(one_or_many(keyword("/")), |_: Vec<String>| PathPiece::Delim)
}

fn home_parser<'a>() -> impl Parser<'a, Val = PathPiece> + Clone {
    mod_val(keyword("~"), |_: String| PathPiece::Home)
}

fn chain_path_piece_parser<'a>() -> impl Parser<'a, Val = PathPiece> + Clone {
    or(or(up_parser(), name_parser()), current_parser())
}

fn compress<'a, T>(a: POut<'a, T>, b: POut<'a, Option<Vec<T>>>) -> POut<'a, Vec<T>> {
    gen_comb(a, b, |l: T, r: Option<Vec<T>>| match r {
        Some(mut rs) => {
            rs.insert(0, l);
            rs
        },
        None => vec![l],
    })
}

fn local_path_parser<'a>() -> impl Parser<'a, Val = Vec<PathPiece>> + Clone {
    move |ind: &ParserInput<'a>| -> POut<'a, Vec<PathPiece>> {
        then(
            chain_path_piece_parser(),
            maybe(then(delim_parser(), maybe(local_path_parser()), compress)),
            compress,
        )
        .parse(ind)
    }
}

fn keep_piece(piece: &PathPiece) -> bool {
    !matches!(piece, PathPiece::Delim | PathPiece::Home | PathPiece::Current)
}

fn path_parser<'a>() -> impl Parser<'a, Val = UnsafePath> {
    let root_parser = or(
        then(delim_parser(), local_path_parser(), take_right),
        mod_val(delim_parser(), |_: PathPiece| vec![]),
    );
    mod_val(
        all(or(
            or(
                mod_val(
                    or(
                        then(home_parser(), root_parser.clone(), take_right),
                        mod_val(home_parser(), |_: PathPiece| vec![]),
                    ),
                    |pieces: Vec<PathPiece>| (UnsafePathType::Home, pieces),
                ),
                mod_val(root_parser, |pieces: Vec<PathPiece>| (UnsafePathType::Absolute, pieces)),
            ),
            mod_val(local_path_parser(), |pieces: Vec<PathPiece>| (UnsafePathType::Relative, pieces)),
        )),
        |(path_type, pieces): (UnsafePathType, Vec<PathPiece>)| UnsafePath {
            pieces: pieces.into_iter().filter(keep_piece).collect(),
            path_type,
        },
    )
}

fn name(s: &str) -> PathPiece {
    PathPiece::Name(String::from(s))
}

#[test]
fn test_path_parse_relative() {
    let res = path_parser().parse(&ParserInput::new("my/normal/relative/path.txt"));
    assert_eq!(
        res,
        Ok(PRes {
            val: UnsafePath {
                pieces: vec![name("my"), name("normal"), name("relative"), name("path.txt")],
                path_type: UnsafePathType::Relative,
            },
            pos: FilePos { line: 1, column: 27 },
            remainder: "",
        })
    );
}

#[test]
fn test_path_parse_absolute() {
    let res = path_parser().parse(&ParserInput::new("/home/username/etc.txt"));
    assert_eq!(
        res,
        Ok(PRes {
            val: UnsafePath {
                pieces: vec![name("home"), name("username"), name("etc.txt")],
                path_type: UnsafePathType::Absolute,
            },
            pos: FilePos { line: 1, column: 22 },
            remainder: "",
        })
    );
}

#[test]
fn test_path_parse_home_full() {
    let res = path_parser().parse(&ParserInput::new("~/.config/service.toml"));
    assert_eq!(
        res,
        Ok(PRes {
            val: UnsafePath {
                pieces: vec![name(".config"), name("service.toml")],
                path_type: UnsafePathType::Home,
            },
            pos: FilePos { line: 1, column: 22 },
            remainder: "",
        })
    );
}

#[test]
fn test_path_parse_home_only() {
    let res1 = path_parser().parse(&ParserInput::new("~"));
    assert_eq!(
        res1,
        Ok(PRes {
            val: UnsafePath { pieces: vec![], path_type: UnsafePathType::Home },
            pos: FilePos { line: 1, column: 1 },
            remainder: "",
        })
    );
}

#[test]
fn test_path_parse_up() {
    let res = path_parser().parse(&ParserInput::new("~/.."));
    assert_eq!(
        res,
        Ok(PRes {
            val: UnsafePath { pieces: vec![PathPiece::Up], path_type: UnsafePathType::Home },
            pos: FilePos { line: 1, column: 4 },
            remainder: "",
        })
    );
}

#[test]
fn test_path_parse_route() {
    let res = path_parser().parse(&ParserInput::new("~/../././//test2./..//username/etc.txt"));
    assert_eq!(
        res,
        Ok(PRes {
            val: UnsafePath {
                pieces: vec![
                    PathPiece::Up,
                    name("test2."),
                    PathPiece::Up,
                    name("username"),
                    name("etc.txt")
                ],
                path_type: UnsafePathType::Home,
            },
            pos: FilePos { line: 1, column: 38 },
            remainder: "",
        })
    );
}

#[test]
fn test_path_forbid_name_with_double_dots() {
    let res = path_parser().parse(&ParserInput::new("an/inva..lid/name.txt"));
    assert_eq!(res, Err(PErr { pos: FilePos { line: 1, column: 0 } }));
}

#[test]
fn test_path_forbid_name_with_double_dots_2() {
    let res = path_parser().parse(&ParserInput::new("..invalid_2"));
    assert_eq!(res, Err(PErr { pos: FilePos { line: 1, column: 0 } }));
}

#[test]
fn test_path_cannonization() -> Result<(), String> {
    let home = path_parser()
        .parse(&ParserInput::new("/home/username/"))
        .map_err(|err| format!("{:?}", err))?
        .val;
    let home_rooted = UnsafePath::cannonize(&SafePath::root(), home)?;
    assert_eq!(home_rooted.pieces, vec![String::from("home"), String::from("username")]);
    let path: UnsafePath = path_parser()
        .parse(&ParserInput::new("to/the/work.txt"))
        .map_err(|err| format!("{:?}", err))?
        .val;
    let work = UnsafePath::cannonize(&home_rooted, path)?;
    assert_eq!(work.pieces.len(), 5);
    let outside = UnsafePath { pieces: vec![PathPiece::Up], path_type: UnsafePathType::Relative };
    assert!(UnsafePath::cannonize(&SafePath::root(), outside).is_err());
    Ok(())
}
