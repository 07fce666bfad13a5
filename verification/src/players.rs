//! The preview player string: `classId:name` pairs joined with commas on the
//! way into storage, and parsed back into parallel class-id and name lists on
//! the way out. A malformed token maps to a sentinel unknown-class entry
//! rather than failing the whole row.

use vstd::prelude::*;
use vstd::string::StringExecFns;
use crate::text::{spec_udec, u64_to_string, spec_digit};

verus! {

/// Class id of the sentinel entry a malformed token maps to.
pub open spec fn spec_unknown_class() -> int {
    101
}

/// Name of the sentinel entry a malformed token maps to.
pub open spec fn spec_unknown_name() -> Seq<char> {
    seq!['U', 'n', 'k', 'n', 'o', 'w', 'n']
}

/// Splitting on `c`: the pieces between occurrences, in order; a string
/// without `c` is one piece, so the empty string is one empty piece.
pub open spec fn spec_split(s: Seq<char>, c: char) -> Seq<Seq<char>>
    decreases s.len(),
{
    if s.len() == 0 {
        seq![Seq::<char>::empty()]
    } else {
        let rest = spec_split(s.skip(1), c);
        if s[0] == c {
            seq![Seq::<char>::empty()] + rest
        } else {
            seq![seq![s[0]] + rest[0]] + rest.skip(1)
        }
    }
}

/// A string without the separator is one piece.
pub proof fn lemma_split_no_sep(a: Seq<char>, c: char)
    requires
        forall|j: int| 0 <= j < a.len() ==> a[j] != c,
    ensures
        spec_split(a, c) == seq![a],
    decreases a.len(),
{
    if a.len() == 0 {
        assert(spec_split(a, c) =~~= seq![a]);
    } else {
        assert(forall|j: int| 0 <= j < a.skip(1).len() ==> a.skip(1)[j] != c);
        lemma_split_no_sep(a.skip(1), c);
        assert(seq![a[0]] + a.skip(1) =~= a);
        assert(spec_split(a, c) =~~= seq![a]);
    }
}

/// Splitting a string whose first separator stands after `a`: one piece
/// `a`, then the pieces of the rest.
pub proof fn lemma_split_at(a: Seq<char>, b: Seq<char>, c: char)
    requires
        forall|j: int| 0 <= j < a.len() ==> a[j] != c,
    ensures
        spec_split(a + seq![c] + b, c) == seq![a] + spec_split(b, c),
    decreases a.len(),
{
    let s = a + seq![c] + b;
    if a.len() == 0 {
        assert(s[0] == c);
        assert(s.skip(1) =~= b);
        assert(spec_split(s, c) =~~= seq![a] + spec_split(b, c));
    } else {
        assert(s[0] == a[0] && a[0] != c);
        assert(s.skip(1) =~= a.skip(1) + seq![c] + b);
        assert(forall|j: int| 0 <= j < a.skip(1).len() ==> a.skip(1)[j] != c);
        lemma_split_at(a.skip(1), b, c);
        let rest = spec_split(s.skip(1), c);
        assert(rest == seq![a.skip(1)] + spec_split(b, c));
        assert(seq![s[0]] + rest[0] =~= a);
        assert(rest.skip(1) =~~= spec_split(b, c));
        assert(spec_split(s, c) =~~= seq![a] + spec_split(b, c));
    }
}

/// A parsed token: the class id when the token has exactly two
/// colon-separated parts whose first parses as a signed 32-bit number, the
/// sentinel otherwise; the name is the second part when there are exactly
/// two parts.
pub open spec fn spec_parse_token(t: Seq<char>) -> (int, Seq<char>) {
    let parts = spec_split(t, ':');
    if parts.len() != 2 {
        (spec_unknown_class(), spec_unknown_name())
    } else {
        match spec_parse_i32(parts[0]) {
            Some(v) => (v, parts[1]),
            None => (spec_unknown_class(), parts[1]),
        }
    }
}

/// What `i32` parsing accepts: an optional sign, then one or more digits,
/// nothing else, value in range.
pub open spec fn spec_parse_i32(s: Seq<char>) -> Option<int> {
    let body = if s.len() > 0 && (s[0] == '+' || s[0] == '-') {
        s.skip(1)
    } else {
        s
    };
    let neg = s.len() > 0 && s[0] == '-';
    if body.len() == 0 || !spec_all_digits(body) {
        None
    } else {
        let v = if neg {
            -spec_digits_value(body)
        } else {
            spec_digits_value(body)
        };
        if i32::MIN <= v <= i32::MAX {
            Some(v)
        } else {
            None
        }
    }
}

pub open spec fn spec_is_digit(c: char) -> bool {
    '0' <= c <= '9'
}

pub open spec fn spec_digit_value(c: char) -> int {
    c as int - '0' as int
}

pub open spec fn spec_all_digits(s: Seq<char>) -> bool {
    forall|i: int| 0 <= i < s.len() ==> spec_is_digit(#[trigger] s[i])
}

pub open spec fn spec_digits_value(s: Seq<char>) -> int
    decreases s.len(),
{
    if s.len() == 0 {
        0
    } else {
        spec_digits_value(s.drop_last()) * 10 + spec_digit_value(s.last())
    }
}

/// The whole parsed player string: one (class id, name) pair per
/// comma-separated token.
pub open spec fn spec_parse_players(s: Seq<char>) -> Seq<(int, Seq<char>)> {
    spec_split(s, ',').map_values(|t: Seq<char>| spec_parse_token(t))
}

/// One `classId:name` token.
pub open spec fn spec_player_token(class_id: int, name: Seq<char>) -> Seq<char> {
    spec_udec(class_id) + seq![':'] + name
}

/// The joined player string: tokens separated by commas; empty for no
/// players.
pub open spec fn spec_players_join(ps: Seq<(u32, Seq<char>)>) -> Seq<char>
    decreases ps.len(),
{
    if ps.len() == 0 {
        Seq::empty()
    } else if ps.len() == 1 {
        spec_player_token(ps[0].0 as int, ps[0].1)
    } else {
        spec_players_join(ps.drop_last()) + seq![','] + spec_player_token(
            ps.last().0 as int,
            ps.last().1,
        )
    }
}

/// First occurrence of `c` in `s` at or after `from`.
fn find_char(s: &str, from: usize, c: char) -> (r: Option<usize>)
    requires
        from <= s@.len(),
    ensures
        (match r {
            Some(i) => {
                &&& from <= i < s@.len()
                &&& s@[i as int] == c
                &&& forall|j: int| from <= j < i ==> s@[j] != c
            },
            None => forall|j: int| from <= j < s@.len() ==> s@[j] != c,
        }),
{
    let len = s.unicode_len();
    let mut i: usize = from;
    while i < len
        invariant
            from <= i <= len,
            len == s@.len(),
            forall|j: int| from <= j < i ==> s@[j] != c,
        decreases len - i,
    {
        if s.get_char(i) == c {
            return Some(i);
        }
        i = i + 1;
    }
    None
}

/// Splits `s` on `c`.
pub fn split_string(s: &str, c: char) -> (r: Vec<String>)
    ensures
        r@.map_values(|p: String| p@) == spec_split(s@, c),
{
    let len = s.unicode_len();
    let mut out: Vec<String> = Vec::new();
    let mut start: usize = 0;
    proof {
        assert(s@.skip(0) =~= s@);
        assert(out@.map_values(|p: String| p@) =~= Seq::<Seq<char>>::empty());
    }
    loop
        invariant
            0 <= start <= len,
            len == s@.len(),
            spec_split(s@, c) == out@.map_values(|p: String| p@) + spec_split(
                s@.skip(start as int),
                c,
            ),
        decreases len - start,
    {
        match find_char(s, start, c) {
            Some(i) => {
                let piece = s.substring_char(start, i);
                out.push(String::from_str(piece));
                proof {
                    let suffix = s@.skip(start as int);
                    let a = s@.subrange(start as int, i as int);
                    let b = s@.skip(i as int + 1);
                    assert(forall|j: int|
                        0 <= j < suffix.len() ==> suffix[j] == s@[j + start as int]);
                    assert(forall|j: int| 0 <= j < a.len() ==> a[j] != c);
                    assert(suffix =~= a + seq![c] + b);
                    lemma_split_at(a, b, c);
                    assert(out@.map_values(|p: String| p@) =~= out@.drop_last().map_values(
                        |p: String| p@,
                    ).push(a));
                    assert(spec_split(s@, c) =~= out@.map_values(|p: String| p@) + spec_split(
                        b,
                        c,
                    ));
                }
                start = i + 1;
            },
            None => {
                let piece = s.substring_char(start, len);
                out.push(String::from_str(piece));
                proof {
                    let suffix = s@.skip(start as int);
                    assert(forall|j: int|
                        0 <= j < suffix.len() ==> suffix[j] == s@[j + start as int]);
                    assert(forall|j: int| 0 <= j < suffix.len() ==> suffix[j] != c);
                    lemma_split_no_sep(suffix, c);
                    assert(suffix =~= s@.subrange(start as int, len as int));
                    assert(out@.map_values(|p: String| p@) =~= out@.drop_last().map_values(
                        |p: String| p@,
                    ).push(suffix));
                    assert(spec_split(s@, c) =~= out@.map_values(|p: String| p@));
                }
                return out;
            },
        }
    }
}

/// Parses decimal text as `i32`, as the standard parser would: an optional
/// sign, then digits only.
pub fn parse_i32(s: &str) -> (r: Option<i32>)
    ensures
        (match r {
            Some(v) => spec_parse_i32(s@) == Some(v as int),
            None => spec_parse_i32(s@) is None,
        }),
{
    let len = s.unicode_len();
    let mut i: usize = 0;
    let mut neg = false;
    if len > 0 {
        let c0 = s.get_char(0);
        if c0 == '+' || c0 == '-' {
            i = 1;
            neg = c0 == '-';
        }
    }
    let ghost body = if s@.len() > 0 && (s@[0] == '+' || s@[0] == '-') {
        s@.skip(1)
    } else {
        s@
    };
    if i >= len {
        proof {
            assert(body.len() == 0);
        }
        return None;
    }
    let ghost start = i as int;
    // Values past 32 bits saturate at a sentinel; the sentinel is preserved
    // because appending digits cannot bring a value back down.
    let mut value: i64 = 0;
    proof {
        assert(body.take(0int) =~= Seq::<char>::empty());
    }
    while i < len
        invariant
            start <= i <= len,
            len == s@.len(),
            start == (if s@.len() > 0 && (s@[0] == '+' || s@[0] == '-') {
                1int
            } else {
                0int
            }),
            body == s@.skip(start),
            spec_all_digits(body.take(i - start)),
            (spec_digits_value(body.take(i - start)) <= 0xffffffff && value == spec_digits_value(
                body.take(i - start),
            )) || (spec_digits_value(body.take(i - start)) > 0xffffffff && value == 0x100000000),
            0 <= value <= 0x100000000,
        decreases len - i,
    {
        let c = s.get_char(i);
        if c < '0' || c > '9' {
            proof {
                assert(body[i - start] == s@[i as int]);
                assert(!spec_is_digit(body[i - start]));
            }
            return None;
        }
        proof {
            assert(body.take(i - start + 1).drop_last() =~= body.take(i - start));
            assert(body.take(i - start + 1).last() == body[i - start]);
            assert(body[i - start] == s@[i as int]);
            let prev = spec_digits_value(body.take(i - start));
            if prev > 0xffffffff {
                assert(prev * 10 > 0xffffffff * 10) by (nonlinear_arith)
                    requires
                        prev > 0xffffffff,
                ;
            }
        }
        let nv = value * 10 + ((c as u32) as i64 - 48);
        if nv > 0xffffffff {
            value = 0x100000000;
        } else {
            value = nv;
        }
        i = i + 1;
    }
    proof {
        assert(body.take(len - start) =~= body);
        lemma_digits_value_nonneg(body);
    }
    if neg {
        if value > 2147483648 {
            proof {
                assert(spec_parse_i32(s@) is None);
            }
            return None;
        }
        let v: i64 = -value;
        return Some(v as i32);
    }
    if value > 2147483647 {
        proof {
            assert(spec_parse_i32(s@) is None);
        }
        return None;
    }
    Some(value as i32)
}

proof fn lemma_digits_value_nonneg(s: Seq<char>)
    requires
        spec_all_digits(s),
    ensures
        spec_digits_value(s) >= 0,
    decreases s.len(),
{
    if s.len() > 0 {
        assert(spec_all_digits(s.drop_last()));
        lemma_digits_value_nonneg(s.drop_last());
        assert(spec_digits_value(s.drop_last()) * 10 >= 0) by (nonlinear_arith)
            requires
                spec_digits_value(s.drop_last()) >= 0,
        ;
    }
}

/// Joins the already-ordered players into the stored string.
pub fn join_players(ps: &Vec<(u32, String)>) -> (r: String)
    ensures
        r@ == spec_players_join(ps@.map_values(|p: (u32, String)| (p.0, p.1@))),
{
    proof {
        reveal_strlit(",");
        reveal_strlit(":");
    }
    let ghost pv = ps@.map_values(|p: (u32, String)| (p.0, p.1@));
    let mut out = String::new();
    let mut i: usize = 0;
    while i < ps.len()
        invariant
            0 <= i <= ps@.len(),
            pv == ps@.map_values(|p: (u32, String)| (p.0, p.1@)),
            out@ == spec_players_join(pv.take(i as int)),
        decreases ps@.len() - i,
    {
        proof {
            reveal_strlit(",");
            reveal_strlit(":");
        }
        if i > 0 {
            out.append(",");
        }
        let id_text = u64_to_string(ps[i].0 as u64);
        out.append(id_text.as_str());
        out.append(":");
        out.append(ps[i].1.as_str());
        proof {
            assert(pv[i as int] == (ps@[i as int].0, ps@[i as int].1@));
            assert(pv.take(i as int + 1).drop_last() =~= pv.take(i as int));
            assert(pv.take(i as int + 1).last() == pv[i as int]);
            if i == 0 {
                assert(pv.take(0int) =~= Seq::<(u32, Seq<char>)>::empty());
                assert(out@ =~= spec_player_token(pv[0].0 as int, pv[0].1));
            }
            assert(out@ =~= spec_players_join(pv.take(i as int + 1)));
        }
        i = i + 1;
    }
    proof {
        assert(pv.take(pv.len() as int) =~= pv);
    }
    out
}

/// Parses the stored player string back into parallel class-id and name
/// lists, one entry per comma-separated token.
pub fn parse_players(s: &str) -> (r: (Vec<i32>, Vec<String>))
    ensures
        r.0@.len() == spec_parse_players(s@).len(),
        r.1@.len() == spec_parse_players(s@).len(),
        forall|i: int|
            0 <= i < r.0@.len() ==> #[trigger] r.0@[i] as int == spec_parse_players(s@)[i].0
                && r.1@[i]@ == spec_parse_players(s@)[i].1,
{
    proof {
        reveal_strlit("Unknown");
    }
    let tokens = split_string(s, ',');
    let ghost parsed = spec_parse_players(s@);
    let mut classes: Vec<i32> = Vec::new();
    let mut names: Vec<String> = Vec::new();
    let mut i: usize = 0;
    while i < tokens.len()
        invariant
            0 <= i <= tokens@.len(),
            tokens@.map_values(|p: String| p@) == spec_split(s@, ','),
            parsed == spec_parse_players(s@),
            parsed.len() == tokens@.len(),
            classes@.len() == i,
            names@.len() == i,
            forall|j: int|
                0 <= j < i ==> #[trigger] classes@[j] as int == parsed[j].0 && names@[j]@
                    == parsed[j].1,
        decreases tokens@.len() - i,
    {
        proof {
            assert(tokens@.map_values(|p: String| p@)[i as int] == tokens@[i as int]@);
        }
        let parts = split_string(tokens[i].as_str(), ':');
        if parts.len() != 2 {
            proof {
                reveal_strlit("Unknown");
            }
            classes.push(101);
            names.push("Unknown".to_owned());
            proof {
                assert(parts@.map_values(|p: String| p@).len() == spec_split(
                    tokens@[i as int]@,
                    ':',
                ).len());
                assert(names@.last()@ =~= spec_unknown_name());
            }
        } else {
            proof {
                assert(parts@.map_values(|p: String| p@)[0] == parts@[0]@);
                assert(parts@.map_values(|p: String| p@)[1] == parts@[1]@);
            }
            let class = match parse_i32(parts[0].as_str()) {
                Some(v) => v,
                None => 101,
            };
            classes.push(class);
            names.push(parts[1].clone());
            proof {
                assert(names@.last()@ == parts@[1]@);
            }
        }
        i = i + 1;
    }
    (classes, names)
}

/// Every digit of decimal text is a digit character, and its value reads
/// back.
proof fn lemma_udec_digits(n: int)
    requires
        0 <= n,
    ensures
        spec_all_digits(spec_udec(n)),
        spec_digits_value(spec_udec(n)) == n,
        spec_udec(n).len() >= 1,
    decreases n,
{
    if n < 10 {
        assert('0' as int == 48);
        assert('9' as int == 57);
        assert(spec_is_digit(spec_digit(n)));
        assert(spec_digit_value(spec_digit(n)) == n);
        assert(spec_udec(n) =~= seq![spec_digit(n)]);
        assert(spec_udec(n).drop_last() =~= Seq::<char>::empty());
        assert(spec_digits_value(spec_udec(n)) == spec_digits_value(Seq::<char>::empty()) * 10
            + spec_digit_value(spec_digit(n)));
    } else {
        lemma_udec_digits(n / 10);
        assert(spec_udec(n) == spec_udec(n / 10).push(spec_digit(n % 10)));
        assert(spec_udec(n).drop_last() =~= spec_udec(n / 10));
        assert(spec_udec(n).last() == spec_digit(n % 10));
        assert(spec_is_digit(spec_digit(n % 10)));
        assert(spec_digit_value(spec_digit(n % 10)) == n % 10);
        vstd::arithmetic::div_mod::lemma_fundamental_div_mod(n, 10);
        assert(forall|j: int|
            0 <= j < spec_udec(n).len() ==> spec_is_digit(#[trigger] spec_udec(n)[j]));
    }
}

/// Splitting distributes over a separator between two strings.
proof fn lemma_split_concat(a: Seq<char>, b: Seq<char>, c: char)
    ensures
        spec_split(a + seq![c] + b, c) == spec_split(a, c) + spec_split(b, c),
    decreases a.len(),
{
    let s = a + seq![c] + b;
    if a.len() == 0 {
        assert(s[0] == c);
        assert(s.skip(1) =~= b);
        assert(spec_split(s, c) =~~= spec_split(a, c) + spec_split(b, c));
    } else {
        assert(s.skip(1) =~= a.skip(1) + seq![c] + b);
        lemma_split_concat(a.skip(1), b, c);
        let rest = spec_split(s.skip(1), c);
        lemma_split_len(a.skip(1), c);
        if s[0] == c {
            assert(spec_split(s, c) =~~= spec_split(a, c) + spec_split(b, c));
        } else {
            assert(rest[0] == spec_split(a.skip(1), c)[0]);
            assert(rest.skip(1) =~~= spec_split(a.skip(1), c).skip(1) + spec_split(b, c));
            assert(spec_split(s, c) =~~= spec_split(a, c) + spec_split(b, c));
        }
    }
}

/// Splitting always yields at least one piece.
proof fn lemma_split_len(s: Seq<char>, c: char)
    ensures
        spec_split(s, c).len() >= 1,
    decreases s.len(),
{
    if s.len() > 0 {
        lemma_split_len(s.skip(1), c);
    }
}

/// A well-formed token parses back to its own pair: the class id must be
/// within the 32-bit range and the name free of colons.
proof fn lemma_parse_token_inverse(class_id: u32, name: Seq<char>)
    requires
        class_id <= i32::MAX,
        forall|j: int| 0 <= j < name.len() ==> name[j] != ':',
    ensures
        spec_parse_token(spec_player_token(class_id as int, name)) == (class_id as int, name),
{
    let t = spec_player_token(class_id as int, name);
    lemma_udec_digits(class_id as int);
    assert(forall|j: int| 0 <= j < spec_udec(class_id as int).len() ==> spec_udec(class_id as int)[j]
        != ':') by {
        assert(forall|j: int|
            0 <= j < spec_udec(class_id as int).len() ==> spec_is_digit(
                #[trigger] spec_udec(class_id as int)[j],
            ));
    }
    lemma_split_at(spec_udec(class_id as int), name, ':');
    lemma_split_no_sep(name, ':');
    let parts = spec_split(t, ':');
    assert(parts =~~= seq![spec_udec(class_id as int), name]);
    assert(parts.len() == 2);
    let digits = spec_udec(class_id as int);
    assert(spec_is_digit(digits[0]));
    assert(digits[0] != '+' && digits[0] != '-');
    assert(spec_parse_i32(digits) == Some(class_id as int));
}

/// The round trip this crate's preview row rests on: a non-empty player
/// list whose class ids are 32-bit and whose names hold neither comma nor
/// colon parses back, entry for entry, from its joined string.
pub proof fn lemma_players_round_trip(ps: Seq<(u32, Seq<char>)>)
    requires
        ps.len() > 0,
        forall|i: int| 0 <= i < ps.len() ==> (#[trigger] ps[i].0) <= i32::MAX,
        forall|i: int, j: int|
            0 <= i < ps.len() && 0 <= j < ps[i].1.len() ==> (#[trigger] ps[i].1[j]) != ','
                && ps[i].1[j] != ':',
    ensures
        spec_parse_players(spec_players_join(ps)) == ps.map_values(
            |p: (u32, Seq<char>)| (p.0 as int, p.1),
        ),
    decreases ps.len(),
{
    let joined = spec_players_join(ps);
    if ps.len() == 1 {
        let t = spec_player_token(ps[0].0 as int, ps[0].1);
        lemma_udec_digits(ps[0].0 as int);
        assert(forall|j: int| 0 <= j < t.len() ==> t[j] != ',') by {
            assert(forall|j: int|
                0 <= j < spec_udec(ps[0].0 as int).len() ==> spec_is_digit(
                    #[trigger] spec_udec(ps[0].0 as int)[j],
                ));
            assert(forall|j: int| 0 <= j < ps[0].1.len() ==> (#[trigger] ps[0].1[j]) != ',');
        }
        lemma_split_no_sep(t, ',');
        lemma_parse_token_inverse(ps[0].0, ps[0].1);
        assert(spec_parse_players(joined)[0] == spec_parse_token(t));
        assert(ps.map_values(|p: (u32, Seq<char>)| (p.0 as int, p.1))[0] == (
        ps[0].0 as int,
        ps[0].1,
        ));
        assert(spec_parse_players(joined) =~~= ps.map_values(
            |p: (u32, Seq<char>)| (p.0 as int, p.1),
        ));
    } else {
        let front = ps.drop_last();
        let last = ps.last();
        assert(forall|i: int| 0 <= i < front.len() ==> (#[trigger] front[i].0) <= i32::MAX);
        assert(forall|i: int, j: int|
            0 <= i < front.len() && 0 <= j < front[i].1.len() ==> (#[trigger] front[i].1[j]) != ','
                && front[i].1[j] != ':');
        lemma_players_round_trip(front);
        let t = spec_player_token(last.0 as int, last.1);
        lemma_udec_digits(last.0 as int);
        assert(forall|j: int| 0 <= j < t.len() ==> t[j] != ',') by {
            assert(forall|j: int|
                0 <= j < spec_udec(last.0 as int).len() ==> spec_is_digit(
                    #[trigger] spec_udec(last.0 as int)[j],
                ));
            assert(forall|j: int| 0 <= j < last.1.len() ==> (#[trigger] last.1[j]) != ',');
        }
        lemma_split_concat(spec_players_join(front), t, ',');
        lemma_split_no_sep(t, ',');
        lemma_parse_token_inverse(last.0, last.1);
        let sp = spec_split(joined, ',');
        let spf = spec_split(spec_players_join(front), ',');
        assert(sp == spf + seq![t]);
        assert(spec_parse_players(spec_players_join(front)).len() == front.len());
        assert(spf.len() == front.len());
        assert forall|k: int| 0 <= k < ps.len() implies spec_parse_players(joined)[k] == (
        ps[k].0 as int,
        ps[k].1,
        ) by {
            assert(spec_parse_players(joined)[k] == spec_parse_token(sp[k]));
            if k < front.len() {
                assert(sp[k] == spf[k]);
                assert(spec_parse_players(spec_players_join(front))[k] == spec_parse_token(spf[k]));
                assert(spec_parse_players(spec_players_join(front))[k] == front.map_values(
                    |p: (u32, Seq<char>)| (p.0 as int, p.1),
                )[k]);
                assert(front.map_values(|p: (u32, Seq<char>)| (p.0 as int, p.1))[k] == (
                front[k].0 as int,
                front[k].1,
                ));
            } else {
                assert(sp[k] == t);
            }
        }
        assert(spec_parse_players(joined) =~~= ps.map_values(
            |p: (u32, Seq<char>)| (p.0 as int, p.1),
        ));
    }
}

} // verus!
