//! String helpers shared across the dashboard: decimal rendering of machine
//! integers, identifier shortening, and the "N/A" placeholder rule for
//! absent values.

use vstd::prelude::*;

verus! {

/// The decimal digit character for a value below ten.
pub open spec fn dec_digit(d: nat) -> char {
    if d == 0 {
        '0'
    } else if d == 1 {
        '1'
    } else if d == 2 {
        '2'
    } else if d == 3 {
        '3'
    } else if d == 4 {
        '4'
    } else if d == 5 {
        '5'
    } else if d == 6 {
        '6'
    } else if d == 7 {
        '7'
    } else if d == 8 {
        '8'
    } else {
        '9'
    }
}

/// The usual decimal rendering of a natural number: most significant digit
/// first, no leading zeros (a single `'0'` for zero).
pub open spec fn dec_string(n: nat) -> Seq<char>
    decreases n,
{
    if n < 10 {
        seq![dec_digit(n)]
    } else {
        dec_string(n / 10).push(dec_digit(n % 10))
    }
}

pub fn dec_digit_str(d: u64) -> (r: &'static str)
    requires
        d < 10,
    ensures
        r@ =~= seq![dec_digit(d as nat)],
{
    proof {
        reveal_strlit("0");
        reveal_strlit("1");
        reveal_strlit("2");
        reveal_strlit("3");
        reveal_strlit("4");
        reveal_strlit("5");
        reveal_strlit("6");
        reveal_strlit("7");
        reveal_strlit("8");
        reveal_strlit("9");
    }
    match d {
        0 => "0",
        1 => "1",
        2 => "2",
        3 => "3",
        4 => "4",
        5 => "5",
        6 => "6",
        7 => "7",
        8 => "8",
        _ => "9",
    }
}

/// Renders an unsigned integer in decimal, exactly as `dec_string` states.
pub fn u64_to_string(n: u64) -> (r: String)
    ensures
        r@ == dec_string(n as nat),
    decreases n,
{
    if n < 10 {
        String::from_str(dec_digit_str(n))
    } else {
        let prefix = u64_to_string(n / 10);
        let r = prefix.concat(dec_digit_str(n % 10));
        proof {
            assert(r@ =~= dec_string((n / 10) as nat).push(dec_digit((n % 10) as nat)));
        }
        r
    }
}

/// Abbreviates an application hash for list views: the first seven
/// characters, an ellipsis, and the last six.
pub fn shorten_md5(it: String) -> (r: String)
    requires
        it@.len() >= 7,
    ensures
        r@ == it@.subrange(0, 7) + "..."@ + it@.subrange(it@.len() - 6, it@.len() as int),
{
    let l = it.as_str().unicode_len();
    let head = it.as_str().substring_char(0, 7);
    let tail = it.as_str().substring_char(l - 6, l);
    String::from_str(head).concat("...").concat(tail)
}

/// Abbreviates a 0x-prefixed account address: the first eight characters,
/// an ellipsis, and the last four.
pub fn shorten_address(it: String) -> (r: String)
    requires
        it@.len() >= 8,
    ensures
        r@ == it@.subrange(0, 8) + "..."@ + it@.subrange(it@.len() - 4, it@.len() as int),
{
    let l = it.as_str().unicode_len();
    let head = it.as_str().substring_char(0, 8);
    let tail = it.as_str().substring_char(l - 4, l);
    String::from_str(head).concat("...").concat(tail)
}

/// Character-for-character equality of two string slices.
pub fn str_eq(a: &str, b: &str) -> (r: bool)
    ensures
        r == (a@ == b@),
{
    let sa = String::from_str(a);
    let sb = String::from_str(b);
    sa == sb
}

/// The placeholder shown wherever a record field is absent.
pub open spec fn na_text() -> Seq<char> {
    "N/A"@
}

/// The view of an optional string.
pub open spec fn opt_str_view(o: Option<String>) -> Option<Seq<char>> {
    match o {
        Some(s) => Some(s@),
        None => None,
    }
}

/// Copies an optional string; the copy holds the same characters.
pub fn clone_opt_string(o: &Option<String>) -> (r: Option<String>)
    ensures
        r == *o,
{
    match o {
        Some(s) => Some(s.clone()),
        None => None,
    }
}

/// Copies a list of strings; the copy holds the same strings.
pub fn clone_strings(v: &Vec<String>) -> (r: Vec<String>)
    ensures
        r@ == v@,
{
    let r = v.clone();
    proof {
        assert forall|i: int| 0 <= i < v@.len() implies r@[i] == v@[i] by {
            assert(vstd::pervasive::cloned::<String>(v@[i], r@[i]));
        }
        assert(r@ =~= v@);
    }
    r
}

/// Copies a byte string; the copy holds the same bytes.
pub fn clone_bytes(v: &Vec<u8>) -> (r: Vec<u8>)
    ensures
        r@ == v@,
{
    let r = v.clone();
    proof {
        assert forall|i: int| 0 <= i < v@.len() implies r@[i] == v@[i] by {
            assert(vstd::pervasive::cloned::<u8>(v@[i], r@[i]));
        }
        assert(r@ =~= v@);
    }
    r
}

/// The character sequences a sequence of strings holds.
pub open spec fn strings_view(v: Seq<String>) -> Seq<Seq<char>> {
    v.map_values(|x: String| x@)
}

/// Strings joined with a single space between neighbours.
pub open spec fn join_spaces(v: Seq<Seq<char>>) -> Seq<char>
    decreases v.len(),
{
    if v.len() == 0 {
        Seq::empty()
    } else if v.len() == 1 {
        v[0]
    } else {
        join_spaces(v.drop_last()) + " "@ + v.last()
    }
}

/// Joins strings with single spaces, exactly as `join_spaces` states.
pub fn join_spaces_exec(v: &Vec<String>) -> (r: String)
    ensures
        r@ == join_spaces(strings_view(v@)),
{
    let mut out = String::new();
    let mut i: usize = 0;
    while i < v.len()
        invariant
            i <= v@.len(),
            out@ =~= join_spaces(strings_view(v@).take(i as int)),
        decreases v@.len() - i,
    {
        let ghost prefix = strings_view(v@).take(i as int);
        if i > 0 {
            out.append(" ");
        }
        out.append(v[i].as_str());
        proof {
            let next = strings_view(v@).take(i + 1);
            assert(next.drop_last() =~= prefix);
            assert(next.last() == v@[i as int]@);
            if i == 0 {
                assert(out@ =~= join_spaces(next));
            } else {
                assert(join_spaces(next) == join_spaces(prefix) + " "@ + v@[i as int]@);
            }
        }
        i += 1;
    }
    proof {
        assert(strings_view(v@).take(v@.len() as int) =~= strings_view(v@));
    }
    out
}

/// The position of the first line break, or the length when there is none.
pub open spec fn first_nl(s: Seq<char>) -> int
    decreases s.len(),
{
    if s.len() == 0 {
        0
    } else if s[0] == '\n' {
        0
    } else {
        1 + first_nl(s.drop_first())
    }
}

/// `first_nl` is a position in the string, everything before it is not a
/// line break, and what stands at it (if anything) is one.
pub proof fn lemma_first_nl(s: Seq<char>)
    ensures
        0 <= first_nl(s) <= s.len(),
        forall|j: int| 0 <= j < first_nl(s) ==> s[j] != '\n',
        first_nl(s) < s.len() ==> s[first_nl(s)] == '\n',
    decreases s.len(),
{
    if s.len() == 0 {
    } else if s[0] == '\n' {
    } else {
        lemma_first_nl(s.drop_first());
        assert forall|j: int| 0 <= j < first_nl(s) implies s[j] != '\n' by {
            if j > 0 {
                assert(s.drop_first()[j - 1] == s[j]);
            }
        }
        if first_nl(s) < s.len() {
            assert(s.drop_first()[first_nl(s) - 1] == s[first_nl(s)]);
        }
    }
}

/// A position with no line break before it, and a line break (or the end)
/// at it, is `first_nl`.
pub proof fn lemma_first_nl_at(s: Seq<char>, k: int)
    requires
        0 <= k <= s.len(),
        forall|j: int| 0 <= j < k ==> s[j] != '\n',
        k < s.len() ==> s[k] == '\n',
    ensures
        first_nl(s) == k,
    decreases s.len(),
{
    if s.len() == 0 {
    } else if s[0] == '\n' {
        assert(k == 0);
    } else {
        assert(k >= 1);
        let rest = s.drop_first();
        assert forall|j: int| 0 <= j < k - 1 implies rest[j] != '\n' by {
            assert(rest[j] == s[j + 1]);
        }
        if k - 1 < rest.len() {
            assert(rest[k - 1] == s[k]);
        }
        lemma_first_nl_at(rest, k - 1);
    }
}

/// A string cut at its line breaks, the way a log viewer shows it: the
/// breaks themselves are dropped, and an empty string is one empty line.
pub open spec fn split_lines(s: Seq<char>) -> Seq<Seq<char>>
    decreases s.len(),
    via split_lines_dec
{
    if first_nl(s) == s.len() {
        seq![s]
    } else {
        seq![s.take(first_nl(s))] + split_lines(s.skip(first_nl(s) + 1))
    }
}

#[via_fn]
proof fn split_lines_dec(s: Seq<char>) {
    lemma_first_nl(s);
}

/// Cuts a string at its line breaks, exactly as `split_lines` states.
pub fn split_lines_exec(s: &str) -> (r: Vec<String>)
    ensures
        strings_view(r@) == split_lines(s@),
{
    let l = s.unicode_len();
    let mut out: Vec<String> = Vec::new();
    let mut i: usize = 0;
    proof {
        assert(s@.skip(0) =~= s@);
    }
    loop
        invariant_except_break
            i <= l,
            l == s@.len(),
            split_lines(s@) =~= strings_view(out@) + split_lines(s@.skip(i as int)),
        ensures
            strings_view(out@) =~= split_lines(s@),
        decreases l - i,
    {
        let mut j: usize = i;
        while j < l && s.get_char(j) != '\n'
            invariant
                i <= j <= l,
                l == s@.len(),
                forall|k: int| i <= k < j ==> s@[k] != '\n',
            decreases l - j,
        {
            j += 1;
        }
        let segment = String::from_str(s.substring_char(i, j));
        out.push(segment);
        proof {
            let rem = s@.skip(i as int);
            assert forall|k: int| 0 <= k < j - i implies rem[k] != '\n' by {
                assert(rem[k] == s@[k + i]);
            }
            if (j as int) - (i as int) < rem.len() {
                assert(rem[j - i] == s@[j as int]);
            }
            lemma_first_nl_at(rem, j - i);
            assert(segment@ =~= rem.take(j - i));
        }
        if j == l {
            proof {
                let rem = s@.skip(i as int);
                assert(split_lines(rem) =~= seq![segment@]);
                assert(strings_view(out@) =~= strings_view(out@.drop_last()).push(segment@));
            }
            break ;
        }
        proof {
            let rem = s@.skip(i as int);
            assert(rem.skip(j - i + 1) =~= s@.skip(j + 1));
            assert(rem.take(j - i) == segment@);
            assert(split_lines(rem) == seq![rem.take(first_nl(rem))] + split_lines(
                rem.skip(first_nl(rem) + 1),
            ));
            assert(strings_view(out@) =~= strings_view(out@.drop_last()).push(segment@));
            assert(split_lines(s@) =~= strings_view(out@) + split_lines(s@.skip(j + 1)));
        }
        i = j + 1;
    }
    out
}

/// An optional display string collapses to the literal `"N/A"` when absent.
pub trait UnwrapOrNA {
    fn unwrap_or_na(&self) -> (r: String)
        ensures
            self.na_view() == r@,
    ;

    spec fn na_view(&self) -> Seq<char>;
}

impl UnwrapOrNA for Option<String> {
    open spec fn na_view(&self) -> Seq<char> {
        match self {
            Some(s) => s@,
            None => na_text(),
        }
    }

    fn unwrap_or_na(&self) -> (r: String) {
        match self {
            Some(s) => s.clone(),
            None => String::from_str("N/A"),
        }
    }
}

} // verus!
