//! Text building blocks: decimal numerals, quoting for single-quoted script
//! literals, and joining of path texts.

use vstd::prelude::*;
use vstd::string::*;

verus! {

/// The decimal digit that stands for `d`, for `d` below ten.
pub open spec fn digit_char(d: nat) -> char {
    if d == 0 {
        '0'
    } else if d == 1 {
        '1'
    } else if d == 2 {
        '2'
    } else if d == 3 {
        '3'
    } else if d == 4 {
        '4'
    } else if d == 5 {
        '5'
    } else if d == 6 {
        '6'
    } else if d == 7 {
        '7'
    } else if d == 8 {
        '8'
    } else {
        '9'
    }
}

/// The decimal numeral of `n`, without sign or leading zeros.
pub open spec fn decimal_text(n: nat) -> Seq<char>
    decreases n,
{
    if n < 10 {
        seq![digit_char(n)]
    } else {
        decimal_text(n / 10).push(digit_char(n % 10))
    }
}

fn digit_text(d: u64) -> (r: &'static str)
    requires
        d < 10,
    ensures
        r@ == seq![digit_char(d as nat)],
{
    proof {
        reveal_strlit("0");
        reveal_strlit("1");
        reveal_strlit("2");
        reveal_strlit("3");
        reveal_strlit("4");
        reveal_strlit("5");
        reveal_strlit("6");
        reveal_strlit("7");
        reveal_strlit("8");
        reveal_strlit("9");
    }
    let r = if d == 0 {
        "0"
    } else if d == 1 {
        "1"
    } else if d == 2 {
        "2"
    } else if d == 3 {
        "3"
    } else if d == 4 {
        "4"
    } else if d == 5 {
        "5"
    } else if d == 6 {
        "6"
    } else if d == 7 {
        "7"
    } else if d == 8 {
        "8"
    } else {
        "9"
    };
    assert(r@ =~= seq![digit_char(d as nat)]);
    r
}

/// Writes `n` as a decimal numeral.
pub fn render_decimal(n: u64) -> (r: String)
    ensures
        r@ == decimal_text(n as nat),
    decreases n,
{
    if n < 10 {
        String::from_str(digit_text(n))
    } else {
        let head = render_decimal(n / 10);
        let r = head.concat(digit_text(n % 10));
        assert(r@ =~= decimal_text(n as nat));
        r
    }
}

/// `s` with every single quote written twice, which is how a single quote is
/// spelled inside a single-quoted script literal.
pub open spec fn quotes_doubled(s: Seq<char>) -> Seq<char>
    decreases s.len(),
{
    if s.len() == 0 {
        Seq::empty()
    } else if s.last() == '\'' {
        quotes_doubled(s.drop_last()) + seq!['\'', '\'']
    } else {
        quotes_doubled(s.drop_last()).push(s.last())
    }
}

/// Doubles every single quote of `s`.
pub fn double_quotes(s: &str) -> (r: String)
    ensures
        r@ == quotes_doubled(s@),
{
    let n = s.unicode_len();
    let mut out = String::new();
    let mut i: usize = 0;
    while i < n
        invariant
            i <= n,
            n == s@.len(),
            out@ == quotes_doubled(s@.take(i as int)),
        decreases n - i,
    {
        let c = s.get_char(i);
        proof {
            reveal_strlit("''");
            assert(s@.take(i + 1).drop_last() =~= s@.take(i as int));
            assert(s@.take(i + 1).last() == c);
        }
        if c == '\'' {
            out.append("''");
            assert(out@ =~= quotes_doubled(s@.take(i + 1)));
        } else {
            out.append(s.substring_char(i, i + 1));
            assert(s@.subrange(i as int, i + 1) =~= seq![c]);
            assert(out@ =~= quotes_doubled(s@.take(i + 1)));
        }
        i = i + 1;
    }
    assert(s@.take(n as int) =~= s@);
    out
}

/// The character put between a directory and what is joined to it.
pub const PATH_SEPARATOR: char = '\\';

/// Whether `c` separates the components of a path.
pub open spec fn is_separator(c: char) -> bool {
    c == '\\' || c == '/'
}

/// The path of `child` under the directory `base`: the two texts with one
/// separator between them, unless `base` is empty or already ends in one.
pub open spec fn joined(base: Seq<char>, child: Seq<char>) -> Seq<char> {
    if base.len() == 0 || is_separator(base.last()) {
        base + child
    } else {
        base.push(PATH_SEPARATOR) + child
    }
}

/// Joins `child` to the directory `base`.
pub fn join_path(base: &str, child: &str) -> (r: String)
    ensures
        r@ == joined(base@, child@),
{
    let n = base.unicode_len();
    let mut out = String::from_str(base);
    if n > 0 {
        let last = base.get_char(n - 1);
        if !(last == '\\' || last == '/') {
            proof {
                reveal_strlit("\\");
            }
            out.append("\\");
            assert(out@ =~= base@.push(PATH_SEPARATOR));
        }
    }
    out.append(child);
    out
}

/// How much of a component of a name has been read: nothing, one dot, two
/// dots, or something else.
#[derive(Clone, Copy, Debug, PartialEq, Eq, Structural)]
pub enum Shape {
    Empty,
    Dot,
    DotDot,
    Other,
}

/// The shape of a component that had the shape `shape` and goes on with `c`.
pub open spec fn shape_after(shape: Shape, c: char) -> Shape {
    match shape {
        Shape::Empty => if c == '.' {
            Shape::Dot
        } else {
            Shape::Other
        },
        Shape::Dot => if c == '.' {
            Shape::DotDot
        } else {
            Shape::Other
        },
        _ => Shape::Other,
    }
}

/// How deep below its start a walk is after a component of the shape `shape`
/// has ended, when it was `depth` deep before: two dots lead one up, or out
/// (`None`) where the walk is at its start; nothing and one dot lead
/// nowhere; everything else leads one down.
pub open spec fn depth_after(depth: nat, shape: Shape) -> Option<nat> {
    match shape {
        Shape::DotDot => if depth == 0 {
            None
        } else {
            Some((depth - 1) as nat)
        },
        Shape::Other => Some(depth + 1),
        _ => Some(depth),
    }
}

/// Where a walk along `name` stands at its end, component by component as
/// either separator parts them: how deep below its start, and the shape of
/// the component it is in. `None` where the walk has led out above its
/// start.
pub open spec fn walked(name: Seq<char>) -> Option<(nat, Shape)>
    decreases name.len(),
{
    if name.len() == 0 {
        Some((0, Shape::Empty))
    } else {
        match walked(name.drop_last()) {
            None => None,
            Some((depth, shape)) => if is_separator(name.last()) {
                match depth_after(depth, shape) {
                    Some(below) => Some((below, Shape::Empty)),
                    None => None,
                }
            } else {
                Some((depth, shape_after(shape, name.last())))
            },
        }
    }
}

/// Whether a path that is joined to a directory stays inside it: walked
/// component by component, it is at no point above where it began.
pub open spec fn stays_inside(name: Seq<char>) -> bool {
    match walked(name) {
        Some((depth, shape)) => depth_after(depth, shape) is Some,
        None => false,
    }
}

/// Walks along `name` and tells whether it stays inside the directory it is
/// joined to.
pub fn walk_stays_inside(name: &str) -> (r: bool)
    ensures
        r == stays_inside(name@),
{
    let n = name.unicode_len();
    let mut depth: usize = 0;
    let mut shape = Shape::Empty;
    let mut i: usize = 0;
    while i < n
        invariant
            i <= n,
            n == name@.len(),
            depth <= i,
            walked(name@.take(i as int)) == Some((depth as nat, shape)),
        decreases n - i,
    {
        let c = name.get_char(i);
        proof {
            assert(name@.take(i + 1).drop_last() =~= name@.take(i as int));
            assert(name@.take(i + 1).last() == c);
        }
        if c == '\\' || c == '/' {
            match shape {
                Shape::DotDot => {
                    if depth == 0 {
                        proof {
                            lemma_walk_once_out_stays_out(name@, i + 1);
                        }
                        return false;
                    }
                    depth = depth - 1;
                },
                Shape::Other => {
                    depth = depth + 1;
                },
                _ => {},
            }
            shape = Shape::Empty;
        } else {
            shape = match shape {
                Shape::Empty => if c == '.' {
                    Shape::Dot
                } else {
                    Shape::Other
                },
                Shape::Dot => if c == '.' {
                    Shape::DotDot
                } else {
                    Shape::Other
                },
                _ => Shape::Other,
            };
        }
        i = i + 1;
    }
    assert(name@.take(n as int) =~= name@);
    !(depth == 0 && shape == Shape::DotDot)
}

/// A walk that has led out stays out, however the name goes on.
proof fn lemma_walk_once_out_stays_out(name: Seq<char>, k: int)
    requires
        0 <= k <= name.len(),
        walked(name.take(k)) is None,
    ensures
        walked(name) is None,
    decreases name.len() - k,
{
    if k < name.len() {
        assert(name.take(k + 1).drop_last() =~= name.take(k));
        lemma_walk_once_out_stays_out(name, k + 1);
    } else {
        assert(name.take(k) =~= name);
    }
}

/// Whether a name ends in a forward slash, which is how an archive marks a
/// directory.
pub open spec fn ends_with_slash(name: Seq<char>) -> bool {
    name.len() > 0 && name.last() == '/'
}

/// Tests whether `name` ends in a forward slash.
pub fn has_trailing_slash(name: &str) -> (r: bool)
    ensures
        r == ends_with_slash(name@),
{
    let n = name.unicode_len();
    n > 0 && name.get_char(n - 1) == '/'
}

/// Tests whether two texts are the same.
pub fn same_text(a: &str, b: &str) -> (r: bool)
    ensures
        r == (a@ == b@),
{
    let x = String::from_str(a);
    let y = String::from_str(b);
    x == y
}

} // verus!
