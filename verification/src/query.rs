//! The dynamic query builder: an ordered list of optional predicate
//! fragments, each carrying its own bound parameters, folded into one
//! parametrized statement. Sort column and direction come from an
//! enumerated allow-list; nothing caller-controlled is interpolated into
//! the statement text.

use vstd::prelude::*;
use vstd::string::StringExecFns;
use crate::models::{SearchFilter, StoreError};
use crate::text::{spec_idec, i64_to_string, str_eq};

verus! {

/// The sortable columns of the preview table.
#[derive(Debug, Clone, Copy, PartialEq, Eq, Structural)]
pub enum SortColumn {
    Id,
    FightStart,
    CurrentBoss,
    Duration,
    Difficulty,
    Favorite,
    Cleared,
    LocalPlayer,
    MyDps,
    BossOnlyDamage,
}

/// Which sort-column names are accepted, and what they resolve to.
pub open spec fn spec_sort_column_of(s: Seq<char>) -> Option<SortColumn> {
    if s == "id"@ {
        Some(SortColumn::Id)
    } else if s == "fight_start"@ {
        Some(SortColumn::FightStart)
    } else if s == "current_boss"@ {
        Some(SortColumn::CurrentBoss)
    } else if s == "duration"@ {
        Some(SortColumn::Duration)
    } else if s == "difficulty"@ {
        Some(SortColumn::Difficulty)
    } else if s == "favorite"@ {
        Some(SortColumn::Favorite)
    } else if s == "cleared"@ {
        Some(SortColumn::Cleared)
    } else if s == "local_player"@ {
        Some(SortColumn::LocalPlayer)
    } else if s == "my_dps"@ {
        Some(SortColumn::MyDps)
    } else if s == "boss_only_damage"@ {
        Some(SortColumn::BossOnlyDamage)
    } else {
        None
    }
}

pub fn sort_column_of(s: &str) -> (r: Option<SortColumn>)
    ensures
        r == spec_sort_column_of(s@),
{
    if str_eq(s, "id") {
        Some(SortColumn::Id)
    } else if str_eq(s, "fight_start") {
        Some(SortColumn::FightStart)
    } else if str_eq(s, "current_boss") {
        Some(SortColumn::CurrentBoss)
    } else if str_eq(s, "duration") {
        Some(SortColumn::Duration)
    } else if str_eq(s, "difficulty") {
        Some(SortColumn::Difficulty)
    } else if str_eq(s, "favorite") {
        Some(SortColumn::Favorite)
    } else if str_eq(s, "cleared") {
        Some(SortColumn::Cleared)
    } else if str_eq(s, "local_player") {
        Some(SortColumn::LocalPlayer)
    } else if str_eq(s, "my_dps") {
        Some(SortColumn::MyDps)
    } else if str_eq(s, "boss_only_damage") {
        Some(SortColumn::BossOnlyDamage)
    } else {
        None
    }
}

impl SortColumn {
    pub open spec fn spec_name(self) -> Seq<char> {
        match self {
            SortColumn::Id => "id"@,
            SortColumn::FightStart => "fight_start"@,
            SortColumn::CurrentBoss => "current_boss"@,
            SortColumn::Duration => "duration"@,
            SortColumn::Difficulty => "difficulty"@,
            SortColumn::Favorite => "favorite"@,
            SortColumn::Cleared => "cleared"@,
            SortColumn::LocalPlayer => "local_player"@,
            SortColumn::MyDps => "my_dps"@,
            SortColumn::BossOnlyDamage => "boss_only_damage"@,
        }
    }

    pub fn name(&self) -> (r: &'static str)
        ensures
            r@ == self.spec_name(),
    {
        match self {
            SortColumn::Id => "id",
            SortColumn::FightStart => "fight_start",
            SortColumn::CurrentBoss => "current_boss",
            SortColumn::Duration => "duration",
            SortColumn::Difficulty => "difficulty",
            SortColumn::Favorite => "favorite",
            SortColumn::Cleared => "cleared",
            SortColumn::LocalPlayer => "local_player",
            SortColumn::MyDps => "my_dps",
            SortColumn::BossOnlyDamage => "boss_only_damage",
        }
    }
}

pub open spec fn spec_is_ws(c: char) -> bool {
    c == ' ' || c == '\t' || c == '\n' || c == '\r'
}

/// The maximal runs of non-whitespace characters, in order.
pub open spec fn spec_tokens(s: Seq<char>) -> Seq<Seq<char>>
    decreases s.len(),
{
    if s.len() == 0 {
        Seq::empty()
    } else if spec_is_ws(s[0]) {
        spec_tokens(s.skip(1))
    } else {
        let rest = spec_tokens(s.skip(1));
        if s.len() > 1 && !spec_is_ws(s[1]) {
            seq![seq![s[0]] + rest[0]] + rest.skip(1)
        } else {
            seq![seq![s[0]]] + rest
        }
    }
}

/// A token with its embedded quote characters removed.
pub open spec fn spec_strip_quotes(t: Seq<char>) -> Seq<char>
    decreases t.len(),
{
    if t.len() == 0 {
        Seq::empty()
    } else {
        spec_strip_quotes(t.drop_last()) + (if t.last() == '"' {
            Seq::<char>::empty()
        } else {
            seq![t.last()]
        })
    }
}

/// The exact-phrase form of a search: each token quoted with its embedded
/// quotes removed, tokens joined with single spaces.
pub open spec fn spec_quoted_tokens(ts: Seq<Seq<char>>) -> Seq<char>
    decreases ts.len(),
{
    if ts.len() == 0 {
        Seq::empty()
    } else if ts.len() == 1 {
        seq!['"'] + spec_strip_quotes(ts[0]) + seq!['"']
    } else {
        spec_quoted_tokens(ts.drop_last()) + seq![' ', '"'] + spec_strip_quotes(ts.last()) + seq![
            '"',
        ]
    }
}

pub open spec fn spec_quote_search(s: Seq<char>) -> Seq<char> {
    spec_quoted_tokens(spec_tokens(s))
}

/// Tokens of a string that begins mid-run attach to the run's remainder.
proof fn lemma_tokens_run(tok: Seq<char>, rest: Seq<char>)
    requires
        tok.len() > 0,
        forall|j: int| 0 <= j < tok.len() ==> !spec_is_ws(#[trigger] tok[j]),
        rest.len() == 0 || spec_is_ws(rest[0]),
    ensures
        spec_tokens(tok + rest) == seq![tok] + spec_tokens(rest),
    decreases tok.len(),
{
    let s = tok + rest;
    assert(s[0] == tok[0]);
    if tok.len() == 1 {
        assert(s.skip(1) =~= rest);
        if rest.len() == 0 {
            assert(spec_tokens(s) =~~= seq![tok] + spec_tokens(rest));
        } else {
            assert(s.len() > 1 && spec_is_ws(s[1]));
            assert(seq![s[0]] =~= tok);
            assert(spec_tokens(s) =~~= seq![tok] + spec_tokens(rest));
        }
    } else {
        assert(s.skip(1) =~= tok.skip(1) + rest);
        assert(forall|j: int| 0 <= j < tok.skip(1).len() ==> !spec_is_ws(#[trigger] tok.skip(1)[j]));
        lemma_tokens_run(tok.skip(1), rest);
        assert(s.len() > 1 && !spec_is_ws(s[1]));
        let r = spec_tokens(s.skip(1));
        assert(r == seq![tok.skip(1)] + spec_tokens(rest));
        assert(seq![s[0]] + r[0] =~= tok);
        assert(r.skip(1) =~~= spec_tokens(rest));
        assert(spec_tokens(s) =~~= seq![tok] + spec_tokens(rest));
    }
}

/// The end of the non-whitespace run that starts at `start`.
fn token_end(s: &str, start: usize) -> (j: usize)
    requires
        start < s@.len(),
        !spec_is_ws(s@[start as int]),
    ensures
        start < j <= s@.len(),
        forall|k: int| start <= k < j ==> !spec_is_ws(#[trigger] s@[k]),
        j < s@.len() ==> spec_is_ws(s@[j as int]),
{
    let len = s.unicode_len();
    let mut j = start + 1;
    loop
        invariant
            start < j <= len,
            len == s@.len(),
            start < len,
            !spec_is_ws(s@[start as int]),
            forall|k: int| start <= k < j ==> !spec_is_ws(#[trigger] s@[k]),
        decreases len - j,
    {
        if j >= len {
            return j;
        }
        let cj = s.get_char(j);
        if cj == ' ' || cj == '\t' || cj == '\n' || cj == '\r' {
            return j;
        }
        j = j + 1;
    }
}

/// Collects the whitespace-separated tokens of a search string.
fn split_whitespace_tokens(s: &str) -> (r: Vec<String>)
    ensures
        r@.map_values(|t: String| t@) == spec_tokens(s@),
{
    let len = s.unicode_len();
    let mut out: Vec<String> = Vec::new();
    let mut i: usize = 0;
    proof {
        assert(s@.skip(0) =~= s@);
        assert(out@.map_values(|t: String| t@) =~= Seq::<Seq<char>>::empty());
    }
    while i < len
        invariant
            0 <= i <= len,
            len == s@.len(),
            spec_tokens(s@) == out@.map_values(|t: String| t@) + spec_tokens(s@.skip(i as int)),
        decreases len - i,
    {
        let c = s.get_char(i);
        if c == ' ' || c == '\t' || c == '\n' || c == '\r' {
            proof {
                assert(s@.skip(i as int)[0] == s@[i as int]);
                assert(s@.skip(i as int).skip(1) =~= s@.skip(i as int + 1));
            }
            i = i + 1;
        } else {
            let start = i;
            let j = token_end(s, start);
            let piece = s.substring_char(start, j);
            out.push(String::from_str(piece));
            proof {
                let tok = s@.subrange(start as int, j as int);
                let rest = s@.skip(j as int);
                assert(s@.skip(start as int) =~= tok + rest);
                assert(forall|k: int| 0 <= k < tok.len() ==> !spec_is_ws(#[trigger] tok[k]));
                if j < len {
                    assert(rest[0] == s@[j as int]);
                }
                lemma_tokens_run(tok, rest);
                assert(out@.map_values(|t: String| t@) =~= out@.drop_last().map_values(
                    |t: String| t@,
                ).push(tok));
                assert(spec_tokens(s@) =~= out@.map_values(|t: String| t@) + spec_tokens(rest));
            }
            i = j;
        }
    }
    proof {
        assert(s@.skip(len as int) =~= Seq::<char>::empty());
    }
    out
}

/// Appends a token stripped of its quote characters.
fn append_stripped(out: &mut String, t: &str)
    ensures
        final(out)@ == old(out)@ + spec_strip_quotes(t@),
{
    let len = t.unicode_len();
    let mut i: usize = 0;
    proof {
        assert(t@.take(0int) =~= Seq::<char>::empty());
    }
    while i < len
        invariant
            0 <= i <= len,
            len == t@.len(),
            out@ == old(out)@ + spec_strip_quotes(t@.take(i as int)),
        decreases len - i,
    {
        let c = t.get_char(i);
        if c != '"' {
            out.append(t.substring_char(i, i + 1));
            proof {
                assert(t@.subrange(i as int, i as int + 1) =~= seq![t@[i as int]]);
            }
        }
        proof {
            assert(t@.take(i as int + 1).drop_last() =~= t@.take(i as int));
            assert(t@.take(i as int + 1).last() == t@[i as int]);
            assert(out@ =~= old(out)@ + spec_strip_quotes(t@.take(i as int + 1)));
        }
        i = i + 1;
    }
    proof {
        assert(t@.take(len as int) =~= t@);
    }
}

/// The exact-phrase search parameter: tokens quoted and joined.
pub fn quote_search(s: &str) -> (r: String)
    ensures
        r@ == spec_quote_search(s@),
{
    let tokens = split_whitespace_tokens(s);
    let ghost tv = tokens@.map_values(|t: String| t@);
    let mut out = String::new();
    let mut i: usize = 0;
    while i < tokens.len()
        invariant
            0 <= i <= tokens@.len(),
            tv == tokens@.map_values(|t: String| t@),
            tv == spec_tokens(s@),
            out@ == spec_quoted_tokens(tv.take(i as int)),
        decreases tokens@.len() - i,
    {
        proof {
            reveal_strlit(" ");
            reveal_strlit("\"");
        }
        if i > 0 {
            out.append(" ");
        }
        out.append("\"");
        append_stripped(&mut out, tokens[i].as_str());
        out.append("\"");
        proof {
            assert(tv[i as int] == tokens@[i as int]@);
            assert(tv.take(i as int + 1).drop_last() =~= tv.take(i as int));
            assert(tv.take(i as int + 1).last() == tv[i as int]);
            if i == 0 {
                assert(tv.take(0int) =~= Seq::<Seq<char>>::empty());
            }
            assert(out@ =~= spec_quoted_tokens(tv.take(i as int + 1)));
        }
        i = i + 1;
    }
    proof {
        assert(tv.take(tv.len() as int) =~= tv);
    }
    out
}

/// `n` placeholders joined with commas, for an IN clause.
pub open spec fn spec_placeholders(n: int) -> Seq<char>
    decreases n,
{
    if n <= 0 {
        Seq::empty()
    } else if n == 1 {
        seq!['?']
    } else {
        spec_placeholders(n - 1) + seq![',', '?']
    }
}

fn append_placeholders(out: &mut String, n: usize)
    ensures
        final(out)@ == old(out)@ + spec_placeholders(n as int),
{
    let mut i: usize = 0;
    proof {
        assert(old(out)@ + spec_placeholders(0int) =~= old(out)@);
    }
    while i < n
        invariant
            0 <= i <= n,
            out@ == old(out)@ + spec_placeholders(i as int),
        decreases n - i,
    {
        proof {
            reveal_strlit("?");
            reveal_strlit(",?");
        }
        if i == 0 {
            out.append("?");
        } else {
            out.append(",?");
        }
        proof {
            assert(out@ =~= old(out)@ + spec_placeholders(i as int + 1));
        }
        i = i + 1;
    }
}

/// Which direction values are accepted: 1 sorts ascending, 0 descending;
/// anything else is rejected.
pub open spec fn spec_valid_order(order: int) -> bool {
    order == 0 || order == 1
}

/// Whether the free-text index is consulted: only searches longer than two
/// characters reach it.
pub open spec fn spec_search_active(search: Seq<char>) -> bool {
    search.len() > 2
}

/// The shared tail of both statements: the duration floor and the optional
/// filters, in their fixed order.
pub open spec fn spec_filter_sql(filter: SearchFilter) -> Seq<char> {
    "WHERE e.duration > ?"@ + (if filter.bosses@.len() > 0 {
        " AND e.current_boss IN ("@ + spec_placeholders(filter.bosses@.len() as int) + seq![')']
    } else {
        Seq::empty()
    }) + (if filter.cleared {
        " AND cleared = 1"@
    } else {
        Seq::empty()
    }) + (if filter.favorite {
        " AND favorite = 1"@
    } else {
        Seq::empty()
    }) + (if filter.difficulty@.len() > 0 {
        " AND difficulty = ?"@
    } else {
        Seq::empty()
    }) + (if filter.boss_only_damage {
        " AND boss_only_damage = 1"@
    } else {
        Seq::empty()
    })
}

pub open spec fn spec_join_sql(search: Seq<char>) -> Seq<char> {
    if spec_search_active(search) {
        "JOIN encounter_search(?) ON encounter_search.rowid = e.id "@
    } else {
        Seq::empty()
    }
}

/// The page statement.
pub open spec fn spec_list_sql(search: Seq<char>, filter: SearchFilter, sort: SortColumn) -> Seq<
    char,
> {
    "SELECT e.id, e.fight_start, e.current_boss, e.duration, e.difficulty, e.favorite, e.cleared, e.local_player, e.my_dps, e.players FROM encounter_preview e "@
        + spec_join_sql(search) + spec_filter_sql(filter) + " ORDER BY e."@ + sort.spec_name() + (
    if filter.order == 1 {
        " ASC"@
    } else {
        " DESC"@
    }) + " LIMIT ? OFFSET ?"@
}

/// The count statement.
pub open spec fn spec_count_sql(search: Seq<char>, filter: SearchFilter) -> Seq<char> {
    "SELECT COUNT(*) FROM encounter_preview e "@ + spec_join_sql(search) + spec_filter_sql(filter)
}

/// The parameters both statements share, in placeholder order: the search
/// phrase when active, the duration floor in milliseconds, the boss
/// allow-list, the difficulty when present.
pub open spec fn spec_count_params(search: Seq<char>, filter: SearchFilter) -> Seq<Seq<char>> {
    (if spec_search_active(search) {
        seq![spec_quote_search(search)]
    } else {
        Seq::empty()
    }) + seq![spec_idec(filter.min_duration as int * 1000)] + filter.bosses@.map_values(
        |b: String| b@,
    ) + (if filter.difficulty@.len() > 0 {
        seq![filter.difficulty@]
    } else {
        Seq::empty()
    })
}

/// The page statement's parameters: the shared ones, then the page size
/// and offset.
pub open spec fn spec_list_params(
    search: Seq<char>,
    filter: SearchFilter,
    page: int,
    page_size: int,
) -> Seq<Seq<char>> {
    spec_count_params(search, filter) + seq![
        spec_idec(page_size),
        spec_idec((page - 1) * page_size),
    ]
}

/// One built query: both statements and both parameter lists.
pub struct QueryPlan {
    pub list_sql: String,
    pub count_sql: String,
    pub list_params: Vec<String>,
    pub count_params: Vec<String>,
}

fn push_params(out: &mut Vec<String>, filter: &SearchFilter, quoted: &Option<String>)
    ensures
        final(out)@.map_values(|p: String| p@) == old(out)@.map_values(|p: String| p@) + (
        match quoted {
            Some(q) => seq![q@],
            None => Seq::<Seq<char>>::empty(),
        }) + seq![spec_idec(filter.min_duration as int * 1000)] + filter.bosses@.map_values(
            |b: String| b@,
        ) + (if filter.difficulty@.len() > 0 {
            seq![filter.difficulty@]
        } else {
            Seq::<Seq<char>>::empty()
        }),
{
    let ghost base = old(out)@.map_values(|p: String| p@);
    let ghost bv = filter.bosses@.map_values(|b: String| b@);
    match quoted {
        Some(q) => {
            out.push(q.clone());
        },
        None => {},
    }
    let dur = i64_to_string((filter.min_duration as i64) * 1000);
    out.push(dur);
    let ghost with_dur = out@.map_values(|p: String| p@);
    proof {
        assert(with_dur =~= base + (match quoted {
            Some(q) => seq![q@],
            None => Seq::<Seq<char>>::empty(),
        }) + seq![spec_idec(filter.min_duration as int * 1000)]);
    }
    let mut i: usize = 0;
    while i < filter.bosses.len()
        invariant
            0 <= i <= filter.bosses@.len(),
            bv == filter.bosses@.map_values(|b: String| b@),
            out@.map_values(|p: String| p@) == with_dur + bv.take(i as int),
        decreases filter.bosses@.len() - i,
    {
        let ghost pre = out@;
        out.push(filter.bosses[i].clone());
        proof {
            assert(bv[i as int] == filter.bosses@[i as int]@);
            assert(bv.take(i as int + 1) =~= bv.take(i as int).push(bv[i as int]));
            assert(out@.map_values(|p: String| p@) =~= pre.map_values(|p: String| p@).push(
                bv[i as int],
            ));
            assert(out@.map_values(|p: String| p@) =~= with_dur + bv.take(i as int + 1));
        }
        i = i + 1;
    }
    proof {
        assert(bv.take(filter.bosses@.len() as int) =~= bv);
    }
    if filter.difficulty.unicode_len() > 0 {
        out.push(filter.difficulty.clone());
        proof {
            assert(out@.map_values(|p: String| p@) =~= with_dur + bv + seq![filter.difficulty@]);
        }
    }
    proof {
        assert(final(out)@.map_values(|p: String| p@) =~= base + (match quoted {
            Some(q) => seq![q@],
            None => Seq::<Seq<char>>::empty(),
        }) + seq![spec_idec(filter.min_duration as int * 1000)] + filter.bosses@.map_values(
            |b: String| b@,
        ) + (if filter.difficulty@.len() > 0 {
            seq![filter.difficulty@]
        } else {
            Seq::<Seq<char>>::empty()
        }));
    }
}

/// Builds the page and count statements for a listing. A sort column
/// outside the allow-list or a direction value outside the enumerated two
/// is rejected; everything else about the filter is folded into
/// parametrized fragments.
#[verifier::rlimit(100)]
#[verifier::spinoff_prover]
pub fn build_query(search: &str, filter: &SearchFilter, page: i32, page_size: i32) -> (r: Result<
    QueryPlan,
    StoreError,
>)
    ensures
        (match spec_sort_column_of(filter.sort@) {
            None => r matches Err(e) && e is QueryBuild,
            Some(sort) => if !spec_valid_order(filter.order as int) {
                r matches Err(e) && e is QueryBuild
            } else {
                r matches Ok(q) && {
                    &&& q.list_sql@ == spec_list_sql(search@, *filter, sort)
                    &&& q.count_sql@ == spec_count_sql(search@, *filter)
                    &&& q.list_params@.map_values(|p: String| p@) == spec_list_params(
                        search@,
                        *filter,
                        page as int,
                        page_size as int,
                    )
                    &&& q.count_params@.map_values(|p: String| p@) == spec_count_params(
                        search@,
                        *filter,
                    )
                }
            },
        }),
{
    let sort = match sort_column_of(filter.sort.as_str()) {
        Some(s) => s,
        None => {
            proof {
                reveal_strlit("unsupported sort column");
            }
            return Err(StoreError::QueryBuild("unsupported sort column".to_owned()));
        },
    };
    if filter.order != 0 && filter.order != 1 {
        proof {
            reveal_strlit("unsupported sort direction");
        }
        return Err(StoreError::QueryBuild("unsupported sort direction".to_owned()));
    }
    proof {
        reveal_strlit(
            "SELECT e.id, e.fight_start, e.current_boss, e.duration, e.difficulty, e.favorite, e.cleared, e.local_player, e.my_dps, e.players FROM encounter_preview e ",
        );
        reveal_strlit("SELECT COUNT(*) FROM encounter_preview e ");
        reveal_strlit("JOIN encounter_search(?) ON encounter_search.rowid = e.id ");
        reveal_strlit("WHERE e.duration > ?");
        reveal_strlit(" AND e.current_boss IN (");
        reveal_strlit(")");
        reveal_strlit(" AND cleared = 1");
        reveal_strlit(" AND favorite = 1");
        reveal_strlit(" AND difficulty = ?");
        reveal_strlit(" AND boss_only_damage = 1");
        reveal_strlit(" ORDER BY e.");
        reveal_strlit(" ASC");
        reveal_strlit(" DESC");
        reveal_strlit(" LIMIT ? OFFSET ?");
    }
    let search_active = search.unicode_len() > 2;
    let quoted: Option<String> = if search_active {
        Some(quote_search(search))
    } else {
        None
    };

    let mut filter_sql = String::new();
    filter_sql.append("WHERE e.duration > ?");
    if filter.bosses.len() > 0 {
        filter_sql.append(" AND e.current_boss IN (");
        append_placeholders(&mut filter_sql, filter.bosses.len());
        filter_sql.append(")");
    }
    if filter.cleared {
        filter_sql.append(" AND cleared = 1");
    }
    if filter.favorite {
        filter_sql.append(" AND favorite = 1");
    }
    if filter.difficulty.unicode_len() > 0 {
        filter_sql.append(" AND difficulty = ?");
    }
    if filter.boss_only_damage {
        filter_sql.append(" AND boss_only_damage = 1");
    }
    proof {
        assert(filter_sql@ =~= spec_filter_sql(*filter));
    }

    let mut list_sql = String::new();
    list_sql.append(
        "SELECT e.id, e.fight_start, e.current_boss, e.duration, e.difficulty, e.favorite, e.cleared, e.local_player, e.my_dps, e.players FROM encounter_preview e ",
    );
    if search_active {
        list_sql.append("JOIN encounter_search(?) ON encounter_search.rowid = e.id ");
    }
    list_sql.append(filter_sql.as_str());
    list_sql.append(" ORDER BY e.");
    list_sql.append(sort.name());
    if filter.order == 1 {
        list_sql.append(" ASC");
    } else {
        list_sql.append(" DESC");
    }
    list_sql.append(" LIMIT ? OFFSET ?");
    proof {
        assert(list_sql@ =~= spec_list_sql(search@, *filter, sort));
    }

    let mut count_sql = String::new();
    count_sql.append("SELECT COUNT(*) FROM encounter_preview e ");
    if search_active {
        count_sql.append("JOIN encounter_search(?) ON encounter_search.rowid = e.id ");
    }
    count_sql.append(filter_sql.as_str());
    proof {
        assert(count_sql@ =~= spec_count_sql(search@, *filter));
    }

    let mut count_params: Vec<String> = Vec::new();
    push_params(&mut count_params, filter, &quoted);
    proof {
        assert(count_params@.map_values(|p: String| p@) =~= spec_count_params(search@, *filter));
    }
    let mut list_params: Vec<String> = Vec::new();
    push_params(&mut list_params, filter, &quoted);
    let limit = i64_to_string(page_size as i64);
    list_params.push(limit);
    proof {
        assert(-0x7fffffffffffffff <= (page as int - 1) * (page_size as int)
            <= 0x7fffffffffffffff) by (nonlinear_arith)
            requires
                -0x80000000 <= page as int <= 0x7fffffff,
                -0x80000000 <= page_size as int <= 0x7fffffff,
        ;
    }
    let offset = i64_to_string((page as i64 - 1) * (page_size as i64));
    list_params.push(offset);
    proof {
        assert((page as int - 1) * (page_size as int) == (page as i64 - 1) as int * (
        page_size as i64) as int);
        assert(list_params@.map_values(|p: String| p@) =~= spec_list_params(
            search@,
            *filter,
            page as int,
            page_size as int,
        ));
    }
    Ok(QueryPlan { list_sql, count_sql, list_params, count_params })
}

} // verus!
