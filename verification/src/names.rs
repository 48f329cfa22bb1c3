//! Output names: the base name of a run and the paths of its icon files.

use vstd::prelude::*;
use vstd::string::*;

verus! {

/// The extension of an icon file, with its dot.
pub open spec fn icon_suffix() -> Seq<char> {
    seq!['.', 'i', 'c', 'o']
}

/// What is appended to the base name to name the directory of a batch.
pub open spec fn dir_suffix() -> Seq<char> {
    seq!['_', 'i', 'c', 'o']
}

/// Whether `name` ends with the icon extension.
pub open spec fn has_icon_suffix(name: Seq<char>) -> bool {
    let n = name.len() as int;
    n >= 4 && name[n - 4] == '.' && name[n - 3] == 'i' && name[n - 2] == 'c' && name[n - 1] == 'o'
}

/// `name` without any icon extensions at its end.
pub open spec fn without_icon_suffix(name: Seq<char>) -> Seq<char>
    decreases name.len(),
{
    if has_icon_suffix(name) {
        without_icon_suffix(name.take(name.len() - 4))
    } else {
        name
    }
}

/// Where the last component of `path` starts: behind its last `/`, or at 0.
pub open spec fn component_start(path: Seq<char>) -> int
    decreases path.len(),
{
    if path.len() == 0 {
        0
    } else if path.last() == '/' {
        path.len() as int
    } else {
        component_start(path.drop_last())
    }
}

/// The last component of `path`: what follows its last `/`.
pub open spec fn last_component(path: Seq<char>) -> Seq<char> {
    path.skip(component_start(path))
}

/// The character of a decimal digit.
pub open spec fn digit(d: nat) -> char {
    if d == 0 {
        '0'
    } else if d == 1 {
        '1'
    } else if d == 2 {
        '2'
    } else if d == 3 {
        '3'
    } else if d == 4 {
        '4'
    } else if d == 5 {
        '5'
    } else if d == 6 {
        '6'
    } else if d == 7 {
        '7'
    } else if d == 8 {
        '8'
    } else {
        '9'
    }
}

/// `n` in decimal, without leading zeros.
pub open spec fn decimal(n: nat) -> Seq<char>
    decreases n,
{
    if n < 10 {
        seq![digit(n)]
    } else {
        decimal(n / 10).push(digit(n % 10))
    }
}

/// The path of the only file of a run for a single size.
pub open spec fn single_path(output: Seq<char>) -> Seq<char> {
    output + icon_suffix()
}

/// The directory that a run for all sizes fills.
pub open spec fn batch_dir(output: Seq<char>) -> Seq<char> {
    output + dir_suffix()
}

/// The path in the batch directory of the file that carries no size.
pub open spec fn plain_path(output: Seq<char>) -> Seq<char> {
    batch_dir(output) + seq!['/'] + last_component(output) + icon_suffix()
}

/// The path in the batch directory of the file for one side length.
pub open spec fn sized_path(output: Seq<char>, side: nat) -> Seq<char> {
    batch_dir(output) + seq!['/'] + last_component(output) + seq!['_'] + decimal(side)
        + icon_suffix()
}

/// Whether `path` is a bare file name whatever the platform: not empty, not
/// `.` or `..`, and free of the characters that part a path into components
/// or end a drive prefix.
pub open spec fn is_bare_name(path: Seq<char>) -> bool {
    &&& path.len() > 0
    &&& path != seq!['.']
    &&& path != seq!['.', '.']
    &&& !path.contains('/')
    &&& !path.contains('\\')
    &&& !path.contains(':')
}

/// Where the last dot of `name` stands, or -1 where it has none.
pub open spec fn last_dot(name: Seq<char>) -> int
    decreases name.len(),
{
    if name.len() == 0 {
        -1
    } else if name.last() == '.' {
        name.len() - 1
    } else {
        last_dot(name.drop_last())
    }
}

/// The stem of a file name: what stands before its last dot, or the whole
/// name where it has no dot or none but the one that it begins with.
pub open spec fn name_stem(name: Seq<char>) -> Seq<char> {
    if last_dot(name) <= 0 {
        name
    } else {
        name.take(last_dot(name))
    }
}

/// The base name of a run: the requested name, else the stem of the image's
/// file name, else the image path itself, without icon extensions at the end.
pub open spec fn resolved_name(
    image: Seq<char>,
    stem: Option<Seq<char>>,
    requested: Option<Seq<char>>,
) -> Seq<char> {
    without_icon_suffix(
        match requested {
            Some(name) => name,
            None => match stem {
                Some(stem) => stem,
                None => image,
            },
        },
    )
}

/// A name without its icon extensions has none left, and is what remains of
/// the name in front of them.
pub proof fn lemma_without_icon_suffix(name: Seq<char>)
    ensures
        !has_icon_suffix(without_icon_suffix(name)),
        without_icon_suffix(name).is_prefix_of(name),
        without_icon_suffix(without_icon_suffix(name)) == without_icon_suffix(name),
        (name.len() - without_icon_suffix(name).len()) % 4 == 0,
    decreases name.len(),
{
    if has_icon_suffix(name) {
        lemma_without_icon_suffix(name.take(name.len() - 4));
    }
}

/// The path of a run for a single size carries the icon extension once:
/// without it, what is left is the base name.
pub proof fn lemma_single_path_extension(name: Seq<char>)
    ensures
        has_icon_suffix(single_path(without_icon_suffix(name))),
        without_icon_suffix(single_path(without_icon_suffix(name))) == without_icon_suffix(name),
{
    let base = without_icon_suffix(name);
    let path = single_path(base);
    lemma_without_icon_suffix(name);
    assert(path.take(path.len() - 4) =~= base);
}

/// The last component of a path holds no separator, and the path is what
/// stands in front of it followed by it.
pub proof fn lemma_last_component(path: Seq<char>)
    ensures
        0 <= component_start(path) <= path.len(),
        !last_component(path).contains('/'),
        component_start(path) > 0 ==> path[component_start(path) - 1] == '/',
        path == path.take(component_start(path)) + last_component(path),
{
    lemma_component_start(path);
    let start = component_start(path);
    let last = last_component(path);
    assert forall|i: int| 0 <= i < last.len() implies last[i] != '/' by {
        assert(last[i] == path[start + i]);
    }
    assert(path =~= path.take(start) + last);
}

/// The last component starts behind a separator or at the front, and no
/// separator follows its start.
proof fn lemma_component_start(path: Seq<char>)
    ensures
        0 <= component_start(path) <= path.len(),
        component_start(path) > 0 ==> path[component_start(path) - 1] == '/',
        forall|i: int| component_start(path) <= i < path.len() ==> path[i] != '/',
    decreases path.len(),
{
    if path.len() > 0 && path.last() != '/' {
        let front = path.drop_last();
        lemma_component_start(front);
        assert forall|i: int| component_start(path) <= i < path.len() implies path[i] != '/' by {
            if i < front.len() {
                assert(path[i] == front[i]);
            }
        }
    }
}

/// The last component starts at the one place that a separator precedes, or
/// the front, and that no separator follows.
proof fn lemma_component_start_is(path: Seq<char>, start: int)
    requires
        0 <= start <= path.len(),
        start > 0 ==> path[start - 1] == '/',
        forall|i: int| start <= i < path.len() ==> path[i] != '/',
    ensures
        component_start(path) == start,
    decreases path.len(),
{
    if path.len() > 0 && path.last() != '/' {
        let front = path.drop_last();
        assert(start < path.len());
        assert forall|i: int| start <= i < front.len() implies front[i] != '/' by {
            assert(front[i] == path[i]);
        }
        lemma_component_start_is(front, start);
    }
}

/// Every number has a digit, and those from ten on have two.
pub proof fn lemma_decimal_len(n: nat)
    ensures
        decimal(n).len() >= 1,
        n >= 10 ==> decimal(n).len() >= 2,
    decreases n,
{
    if n >= 10 {
        lemma_decimal_len(n / 10);
    }
}

/// A number is written without a path separator.
pub proof fn lemma_decimal_has_no_separator(n: nat)
    ensures
        forall|i: int| 0 <= i < decimal(n).len() ==> decimal(n)[i] != '/',
    decreases n,
{
    let text = decimal(n);
    if n >= 10 {
        lemma_decimal_has_no_separator(n / 10);
        assert forall|i: int| 0 <= i < text.len() implies text[i] != '/' by {
            if i < text.len() - 1 {
                assert(text[i] == decimal(n / 10)[i]);
            } else {
                assert(text[i] == digit(n % 10));
            }
        }
    } else {
        assert(text[0] == digit(n));
    }
}

/// Different digits have different characters.
pub proof fn lemma_digit_injective(a: nat, b: nat)
    requires
        a < 10,
        b < 10,
        digit(a) == digit(b),
    ensures
        a == b,
{
}

/// Different numbers are written differently.
pub proof fn lemma_decimal_injective(a: nat, b: nat)
    requires
        decimal(a) == decimal(b),
    ensures
        a == b,
    decreases a,
{
    lemma_decimal_len(a);
    lemma_decimal_len(b);
    if a >= 10 && b >= 10 {
        let da = decimal(a / 10).push(digit(a % 10));
        let db = decimal(b / 10).push(digit(b % 10));
        assert(da == decimal(a));
        assert(db == decimal(b));
        assert(da.last() == digit(a % 10));
        assert(db.last() == digit(b % 10));
        assert(da.drop_last() =~= decimal(a / 10));
        assert(db.drop_last() =~= decimal(b / 10));
        lemma_decimal_injective(a / 10, b / 10);
        lemma_digit_injective(a % 10, b % 10);
        assert(a == 10 * (a / 10) + a % 10);
        assert(b == 10 * (b / 10) + b % 10);
    } else if a < 10 && b < 10 {
        assert(decimal(a)[0] == digit(a));
        assert(decimal(b)[0] == digit(b));
        lemma_digit_injective(a, b);
    } else {
        assert(decimal(a).len() != decimal(b).len());
    }
}

/// `name` without any icon extensions at its end.
pub fn strip_icon_suffix(name: &str) -> (stripped: String)
    ensures
        stripped@ == without_icon_suffix(name@),
{
    let mut end: usize = name.unicode_len();
    assert(name@.take(end as int) =~= name@);
    while end >= 4 && name.get_char(end - 4) == '.' && name.get_char(end - 3) == 'i'
        && name.get_char(end - 2) == 'c' && name.get_char(end - 1) == 'o'
        invariant
            end <= name@.len(),
            without_icon_suffix(name@) == without_icon_suffix(name@.take(end as int)),
        decreases end,
    {
        proof {
            let head = name@.take(end as int);
            assert(has_icon_suffix(head));
            assert(head.take(head.len() - 4) =~= name@.take(end - 4));
        }
        end = end - 4;
    }
    assert(!has_icon_suffix(name@.take(end as int)));
    String::from_str(name.substring_char(0, end))
}

/// The last component of `path`: what follows its last `/`.
pub fn base_name(path: &str) -> (base: &str)
    ensures
        base@ == last_component(path@),
{
    let len: usize = path.unicode_len();
    let mut start: usize = len;
    while start > 0 && path.get_char(start - 1) != '/'
        invariant
            start <= len,
            len == path@.len(),
            forall|i: int| start <= i < len ==> path@[i] != '/',
        decreases start,
    {
        start = start - 1;
    }
    proof {
        lemma_component_start_is(path@, start as int);
    }
    path.substring_char(start, len)
}

/// The one-character string of a decimal digit.
fn digit_text(d: u32) -> (text: &'static str)
    requires
        d < 10,
    ensures
        text@ == seq![digit(d as nat)],
{
    proof {
        reveal_strlit("0");
        reveal_strlit("1");
        reveal_strlit("2");
        reveal_strlit("3");
        reveal_strlit("4");
        reveal_strlit("5");
        reveal_strlit("6");
        reveal_strlit("7");
        reveal_strlit("8");
        reveal_strlit("9");
    }
    let text = if d == 0 {
        "0"
    } else if d == 1 {
        "1"
    } else if d == 2 {
        "2"
    } else if d == 3 {
        "3"
    } else if d == 4 {
        "4"
    } else if d == 5 {
        "5"
    } else if d == 6 {
        "6"
    } else if d == 7 {
        "7"
    } else if d == 8 {
        "8"
    } else {
        "9"
    };
    assert(text@ =~= seq![digit(d as nat)]);
    text
}

/// `n` in decimal, without leading zeros.
pub fn decimal_text(n: u32) -> (text: String)
    ensures
        text@ == decimal(n as nat),
{
    let mut rest: u32 = n;
    let mut low = String::new();
    assert(decimal(rest as nat) + low@ =~= decimal(n as nat));
    while rest >= 10
        invariant
            decimal(n as nat) == decimal(rest as nat) + low@,
        decreases rest,
    {
        let next = String::from_str(digit_text(rest % 10)).concat(low.as_str());
        proof {
            let d = digit((rest % 10) as nat);
            assert(decimal(rest as nat) == decimal((rest / 10) as nat).push(d));
            assert(decimal((rest / 10) as nat).push(d) + low@ =~= decimal((rest / 10) as nat) + (
            seq![d] + low@));
        }
        low = next;
        rest = rest / 10;
    }
    String::from_str(digit_text(rest)).concat(low.as_str())
}

/// `std::path::Path::file_stem` on `path`, with what is not Unicode in the
/// stem replaced. Which characters part a path into components depends on
/// the platform, so that the result is stated for a bare file name only: a
/// path that holds none of `/`, `\` and `:` and is not empty, `.` or `..` is
/// its own file name on every platform, and the stem of a file name is what
/// stands before its last dot, or all of it where it has no dot but perhaps
/// in front.
#[verifier::external_body]
fn path_stem(path: &str) -> (stem: Option<String>)
    ensures
        is_bare_name(path@) ==> stem is Some && stem->Some_0@ == name_stem(path@),
{
    match std::path::Path::new(path).file_stem() {
        Some(stem) => Some(stem.to_string_lossy().into_owned()),
        None => None,
    }
}

/// The base name of a run, given the stem of the image's file name.
pub fn resolve_name(image: &str, stem: Option<String>, requested: Option<&str>) -> (name: String)
    ensures
        name@ == resolved_name(
            image@,
            match stem {
                Some(s) => Some(s@),
                None => None,
            },
            match requested {
                Some(r) => Some(r@),
                None => None,
            },
        ),
{
    match requested {
        Some(name) => strip_icon_suffix(name),
        None => match stem {
            Some(stem) => strip_icon_suffix(stem.as_str()),
            None => strip_icon_suffix(image),
        },
    }
}

/// The base name of a run: the requested name, else the stem of the image's
/// file name as the platform's path rules give it, else the image path
/// itself; always without icon extensions at the end. For an image that is
/// named by a bare file name the stem is the same on every platform.
pub fn output_name(image: &str, requested: Option<&str>) -> (name: String)
    ensures
        requested matches Some(r) ==> name@ == without_icon_suffix(r@),
        requested is None ==> exists|stem: Option<Seq<char>>|
            name@ == #[trigger] resolved_name(image@, stem, None),
        requested is None && is_bare_name(image@) ==> name@ == without_icon_suffix(
            name_stem(image@),
        ),
        !has_icon_suffix(name@),
{
    let stem = match requested {
        Some(_) => None,
        None => path_stem(image),
    };
    let ghost stem_view: Option<Seq<char>> = match &stem {
        Some(s) => Some(s@),
        None => None,
    };
    let name = resolve_name(image, stem, requested);
    proof {
        assert(name@ == resolved_name(image@, stem_view, None) || requested is Some);
        if requested is Some {
            lemma_without_icon_suffix(requested.unwrap()@);
        } else {
            lemma_without_icon_suffix(
                match stem_view {
                    Some(s) => s,
                    None => image@,
                },
            );
        }
    }
    name
}

} // verus!
