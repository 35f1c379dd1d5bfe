//! The file-naming convention of the output directory: page `N` is stored as
//! `<N>.png`, and marked as a two-page spread by renaming it to `<N>s.png`.

use vstd::prelude::*;

verus! {

/// The decimal digit characters, in order of value.
pub open spec fn digit_chars() -> Seq<char> {
    seq!['0', '1', '2', '3', '4', '5', '6', '7', '8', '9']
}

/// The character for a single decimal digit.
pub open spec fn digit_char(d: nat) -> char
    recommends
        d < 10,
{
    digit_chars()[d as int]
}

/// The decimal rendering of a page number, most significant digit first,
/// without leading zeros.
pub open spec fn decimal_digits(n: nat) -> Seq<char>
    decreases n,
{
    if n < 10 {
        seq![digit_char(n)]
    } else {
        decimal_digits(n / 10).push(digit_char(n % 10))
    }
}

/// A rendered page number holds at least one digit.
pub proof fn lemma_decimal_digits_nonempty(n: nat)
    ensures
        decimal_digits(n).len() >= 1,
    decreases n,
{
    if n >= 10 {
        lemma_decimal_digits_nonempty(n / 10);
    }
}

/// Every character of a rendered page number is a decimal digit.
pub proof fn lemma_decimal_digits_are_digits(n: nat)
    ensures
        forall|i: int|
            0 <= i < decimal_digits(n).len() ==> digit_chars().contains(
                #[trigger] decimal_digits(n)[i],
            ),
    decreases n,
{
    if n < 10 {
        assert(decimal_digits(n) =~= seq![digit_char(n)]);
        assert(digit_chars()[n as int] == decimal_digits(n)[0]);
        assert forall|i: int| 0 <= i < decimal_digits(n).len() implies digit_chars().contains(
            #[trigger] decimal_digits(n)[i],
        ) by {
            assert(digit_chars()[n as int] == decimal_digits(n)[i]);
        }
    } else {
        lemma_decimal_digits_are_digits(n / 10);
        let rest = decimal_digits(n / 10);
        let whole = decimal_digits(n);
        assert(whole =~= rest.push(digit_char(n % 10)));
        assert forall|i: int| 0 <= i < whole.len() implies digit_chars().contains(
            #[trigger] whole[i],
        ) by {
            if i < rest.len() {
                assert(whole[i] == rest[i]);
            } else {
                assert(whole[i] == digit_char(n % 10));
                assert(digit_chars()[(n % 10) as int] == whole[i]);
            }
        }
    }
}

/// The string literal for one decimal digit.
fn digit_str(d: u8) -> (r: &'static str)
    requires
        d < 10,
    ensures
        r@ == seq![digit_char(d as nat)],
{
    proof {
        reveal_strlit("0");
        reveal_strlit("1");
        reveal_strlit("2");
        reveal_strlit("3");
        reveal_strlit("4");
        reveal_strlit("5");
        reveal_strlit("6");
        reveal_strlit("7");
        reveal_strlit("8");
        reveal_strlit("9");
    }
    match d {
        0 => "0",
        1 => "1",
        2 => "2",
        3 => "3",
        4 => "4",
        5 => "5",
        6 => "6",
        7 => "7",
        8 => "8",
        _ => "9",
    }
}

/// Renders a page number in decimal.
pub fn page_number_string(n: u8) -> (r: String)
    ensures
        r@ == decimal_digits(n as nat),
{
    let mut s = String::new();
    if n >= 100 {
        s.append(digit_str(n / 100));
        s.append(digit_str((n / 10) % 10));
        s.append(digit_str(n % 10));
        proof {
            assert((n / 10) / 10 == n / 100) by (nonlinear_arith);
            assert(n / 10 >= 10);
            assert(n / 100 < 10);
            assert(decimal_digits((n / 100) as nat) =~= seq![digit_char((n / 100) as nat)]);
            assert(decimal_digits((n / 10) as nat) =~= seq![
                digit_char((n / 100) as nat),
                digit_char(((n / 10) % 10) as nat),
            ]);
            assert(decimal_digits(n as nat) =~= seq![
                digit_char((n / 100) as nat),
                digit_char(((n / 10) % 10) as nat),
                digit_char((n % 10) as nat),
            ]);
            assert(s@ =~= decimal_digits(n as nat));
        }
    } else if n >= 10 {
        s.append(digit_str(n / 10));
        s.append(digit_str(n % 10));
        proof {
            assert(n / 10 < 10);
            assert(decimal_digits((n / 10) as nat) =~= seq![digit_char((n / 10) as nat)]);
            assert(decimal_digits(n as nat) =~= seq![
                digit_char((n / 10) as nat),
                digit_char((n % 10) as nat),
            ]);
            assert(s@ =~= decimal_digits(n as nat));
        }
    } else {
        s.append(digit_str(n));
        proof {
            assert(s@ =~= decimal_digits(n as nat));
        }
    }
    s
}

/// The suffix ".png" of every page image.
pub open spec fn png_suffix() -> Seq<char> {
    seq!['.', 'p', 'n', 'g']
}

/// The suffix "s.png" that marks a page image as a two-page spread.
pub open spec fn spread_suffix() -> Seq<char> {
    seq!['s', '.', 'p', 'n', 'g']
}

/// A directory entry is a spread image exactly when its name ends in "s.png".
pub open spec fn is_spread_name(name: Seq<char>) -> bool {
    name.len() >= 5 && name.subrange(name.len() - 5, name.len() as int) == spread_suffix()
}

/// The name a spread image goes back to when the convention is reverted:
/// the suffix "s.png" replaced by ".png".
pub open spec fn reverted_name(name: Seq<char>) -> Seq<char>
    recommends
        is_spread_name(name),
{
    name.subrange(0, name.len() - 5) + png_suffix()
}

/// The plain image name of page n: "<n>.png".
pub open spec fn page_image_name(n: nat) -> Seq<char> {
    decimal_digits(n) + png_suffix()
}

/// The spread-marked image name of page n: "<n>s.png".
pub open spec fn spread_image_name(n: nat) -> Seq<char> {
    decimal_digits(n) + spread_suffix()
}

/// Builds "<n>.png".
pub fn page_file_name(n: u8) -> (r: String)
    ensures
        r@ == page_image_name(n as nat),
{
    let r = page_number_string(n).concat(".png");
    proof {
        reveal_strlit(".png");
        assert(".png"@ =~= png_suffix());
        assert(r@ =~= page_image_name(n as nat));
    }
    r
}

/// Builds "<n>s.png".
pub fn spread_file_name(n: u8) -> (r: String)
    ensures
        r@ == spread_image_name(n as nat),
{
    let r = page_number_string(n).concat("s.png");
    proof {
        reveal_strlit("s.png");
        assert("s.png"@ =~= spread_suffix());
        assert(r@ =~= spread_image_name(n as nat));
    }
    r
}

/// Decides whether a directory entry is a spread image and, if it is, gives
/// the name it reverts to; any other entry is skipped.
pub fn revert_target(name: &String) -> (r: Option<String>)
    ensures
        r is Some <==> is_spread_name(name@),
        r matches Some(t) ==> t@ == reverted_name(name@),
{
    let len: usize = name.as_str().unicode_len();
    if len < 5 {
        return None;
    }
    proof {
        reveal_strlit("s.png");
        assert("s.png"@ =~= spread_suffix());
    }
    let suffix = name.as_str().substring_char(len - 5, len);
    if String::from_str(suffix) == String::from_str("s.png") {
        let prefix = name.as_str().substring_char(0, len - 5);
        let out = String::from_str(prefix).concat(".png");
        proof {
            reveal_strlit(".png");
            assert(".png"@ =~= png_suffix());
            assert(is_spread_name(name@));
            assert(out@ =~= reverted_name(name@));
        }
        Some(out)
    } else {
        None
    }
}

/// The path of a directory entry: "<dir>/<name>".
pub open spec fn joined_path(dir: Seq<char>, name: Seq<char>) -> Seq<char> {
    dir + seq!['/'] + name
}

/// Joins an output-directory path and a file name with '/'.
pub fn join_path(dir: &String, name: &String) -> (r: String)
    ensures
        r@ == joined_path(dir@, name@),
{
    let mut s = dir.clone();
    s.append("/");
    s.append(name.as_str());
    proof {
        reveal_strlit("/");
        assert("/"@ =~= seq!['/']);
        assert(s@ =~= joined_path(dir@, name@));
    }
    s
}

/// The renames one revert pass performs on a directory listing, in listing
/// order: every entry ending in "s.png" is renamed to its reverted name,
/// every other entry is skipped.
pub open spec fn revert_pairs(names: Seq<Seq<char>>) -> Seq<(Seq<char>, Seq<char>)>
    decreases names.len(),
{
    if names.len() == 0 {
        Seq::empty()
    } else if is_spread_name(names.last()) {
        revert_pairs(names.drop_last()).push((names.last(), reverted_name(names.last())))
    } else {
        revert_pairs(names.drop_last())
    }
}

/// The views of a list of (from, to) rename pairs.
pub open spec fn pair_views(ps: Seq<(String, String)>) -> Seq<(Seq<char>, Seq<char>)> {
    ps.map_values(|p: (String, String)| (p.0@, p.1@))
}

/// The views of a list of names.
pub open spec fn name_views(names: Seq<String>) -> Seq<Seq<char>> {
    names.map_values(|n: String| n@)
}

/// Computes the (from, to) renames of one revert pass over a directory
/// listing.
pub fn revert_renames(names: &Vec<String>) -> (r: Vec<(String, String)>)
    ensures
        pair_views(r@) == revert_pairs(name_views(names@)),
{
    let mut out: Vec<(String, String)> = Vec::new();
    let mut i: usize = 0;
    while i < names.len()
        invariant
            0 <= i <= names@.len(),
            pair_views(out@) == revert_pairs(name_views(names@).take(i as int)),
        decreases names@.len() - i,
    {
        let name = &names[i];
        match revert_target(name) {
            Some(t) => {
                out.push((name.clone(), t));
            },
            None => {},
        }
        proof {
            let vs = name_views(names@);
            assert(vs.take(i + 1).drop_last() =~= vs.take(i as int));
            assert(vs.take(i + 1).last() == name@);
            assert(pair_views(out@) =~~= revert_pairs(vs.take(i + 1)));
        }
        i = i + 1;
    }
    proof {
        assert(name_views(names@).take(names@.len() as int) =~= name_views(names@));
    }
    out
}

/// Marking page n as a spread and then reverting restores the plain image
/// name: "<n>s.png" reverts to "<n>.png".
pub proof fn lemma_spread_then_revert(n: nat)
    ensures
        is_spread_name(spread_image_name(n)),
        reverted_name(spread_image_name(n)) == page_image_name(n),
{
    lemma_decimal_digits_nonempty(n);
    let s = spread_image_name(n);
    assert(s.subrange(s.len() - 5, s.len() as int) =~= spread_suffix());
    assert(s.subrange(0, s.len() - 5) =~= decimal_digits(n));
    assert(reverted_name(s) =~= page_image_name(n));
}

/// A plain page image "<n>.png" is never itself a spread name: its digits do
/// not end in 's', so a revert pass leaves it alone.
pub proof fn lemma_page_image_not_spread(n: nat)
    ensures
        !is_spread_name(page_image_name(n)),
{
    lemma_decimal_digits_nonempty(n);
    lemma_decimal_digits_are_digits(n);
    let p = page_image_name(n);
    let d = decimal_digits(n);
    if is_spread_name(p) {
        assert(p.subrange(p.len() - 5, p.len() as int)[0] == p[p.len() - 5]);
        assert(p[p.len() - 5] == 's');
        assert(p[p.len() - 5] == d[d.len() - 1]);
        assert(digit_chars().contains(d[d.len() - 1]));
        assert(false);
    }
}

/// A name that ends in "ss.png": the one shape of spread name whose reverted
/// name is again a spread name.
pub open spec fn double_spread_name(name: Seq<char>) -> bool {
    is_spread_name(name) && name.len() >= 6 && name[name.len() - 6] == 's'
}

/// One revert is enough: the name a spread image reverts to is itself a
/// spread name only when the original name ends in "ss.png".
pub proof fn lemma_revert_once(name: Seq<char>)
    requires
        is_spread_name(name),
    ensures
        is_spread_name(reverted_name(name)) <==> double_spread_name(name),
{
    let len = name.len() as int;
    let r = reverted_name(name);
    assert(r.len() == len - 1);
    if len >= 6 {
        assert(r[len - 6] == name[len - 6]);
        if name[len - 6] == 's' {
            assert(r.subrange(r.len() - 5, r.len() as int) =~= spread_suffix());
        } else {
            if is_spread_name(r) {
                assert(r.subrange(r.len() - 5, r.len() as int)[0] == r[len - 6]);
                assert(false);
            }
        }
    }
}

/// What a directory listing looks like after one revert pass: every spread
/// name replaced by its reverted name, every other name kept.
pub open spec fn after_revert(names: Seq<Seq<char>>) -> Seq<Seq<char>> {
    names.map_values(
        |n: Seq<char>|
            if is_spread_name(n) {
                reverted_name(n)
            } else {
                n
            },
    )
}

/// Reverting is idempotent on listings in which no name ends in "ss.png":
/// a second revert pass renames nothing further.
pub proof fn lemma_revert_idempotent(names: Seq<Seq<char>>)
    requires
        forall|i: int| 0 <= i < names.len() ==> !double_spread_name(#[trigger] names[i]),
    ensures
        after_revert(after_revert(names)) == after_revert(names),
{
    let once = after_revert(names);
    assert forall|i: int| 0 <= i < once.len() implies !is_spread_name(#[trigger] once[i]) by {
        let n = names[i];
        if is_spread_name(n) {
            lemma_revert_once(n);
            assert(once[i] == reverted_name(n));
        } else {
            assert(once[i] == n);
        }
    }
    assert(after_revert(once) =~~= once);
}

} // verus!
